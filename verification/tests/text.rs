//! Text: the render boundary, words, lines and numbers.
use cargo_lbin::decimal::{count_of, decimal2_of, decimal_of, hex_of};
use cargo_lbin::job::{build_msg, BuildMsg, LineKind};
use cargo_lbin::text::{contains, join, lines, sanitize, starts_with, words};

fn boundary_holds() {
    let hostile = "warning: `foo` shadowed by /tmp/\u{1b}]0;pwned\u{7}/foo";
    for kind in [LineKind::Cargo, LineKind::Notice, LineKind::Warning] {
        let line = match build_msg(kind, hostile) {
            BuildMsg::Cargo(l) | BuildMsg::Notice(l) | BuildMsg::Warning(l) => l,
            BuildMsg::NeedAuth { .. }
            | BuildMsg::Done(_)
            | BuildMsg::MemberStarted { .. }
            | BuildMsg::MemberDone { .. } => {
                panic!("a line kind maps to a line message")
            }
        };
        assert!(
            !line.chars().any(char::is_control),
            "no control byte crosses the boundary: {line:?}"
        );
        assert!(line.contains("shadowed"), "the words do survive");
    }
}

#[test]
fn job_the_render_boundary_sanitizes_every_kind() {
    boundary_holds();
}

#[test]
fn mod_the_render_boundary_sanitizes_every_kind() {
    boundary_holds();
}

/// A line's kind is kept on its way over the boundary.
#[test]
fn the_kind_of_a_line_survives_the_boundary() {
    assert!(matches!(build_msg(LineKind::Cargo, "a"), BuildMsg::Cargo(l) if l == "a"));
    assert!(matches!(build_msg(LineKind::Notice, "b"), BuildMsg::Notice(l) if l == "b"));
    assert!(matches!(build_msg(LineKind::Warning, "c"), BuildMsg::Warning(l) if l == "c"));
}

/// What is shown agrees with what the standard library calls a control
/// character, on every character there is.
#[test]
fn control_and_white_agree_with_the_standard_library() {
    for code in 0..=0x10ffffu32 {
        if let Some(c) = char::from_u32(code) {
            assert_eq!(cargo_lbin::text::is_control(c), c.is_control(), "{code:x}");
            assert_eq!(cargo_lbin::text::is_white(c), c.is_whitespace(), "{code:x}");
        }
    }
}

#[test]
fn sanitizing_twice_changes_nothing() {
    let once = sanitize("a\u{1b}[31mb\tc\u{9b}d\u{202e}");
    assert!(!once.chars().any(char::is_control));
    assert_eq!(sanitize(&once), once);
    assert_eq!(sanitize("plain — text"), "plain — text");
}

#[test]
fn words_are_what_stands_between_white_space() {
    assert_eq!(words("  a\u{a0}b\tc\n"), vec!["a", "b", "c"]);
    assert!(words(" \t ").is_empty());
    assert_eq!(words("one"), vec!["one"]);
    let list = vec!["a".to_owned(), "b".to_owned(), "c".to_owned()];
    assert_eq!(join(&list, ", "), "a, b, c");
    assert_eq!(join(&Vec::new(), ", "), "");
}

#[test]
fn lines_agree_with_the_standard_library() {
    for text in ["", "a", "a\n", "a\nb", "a\r\nb\r\n", "\n", "\n\n", "a\rb", "a\r"] {
        let expected: Vec<String> = text.lines().map(str::to_owned).collect();
        assert_eq!(lines(text), expected, "{text:?}");
    }
}

#[test]
fn parts_are_found_where_they_stand() {
    assert!(starts_with("Installing foo", "Installing"));
    assert!(!starts_with("Install", "Installing"));
    assert!(starts_with("x", ""));
    assert!(contains("abcabd", "abd"));
    assert!(!contains("abcabc", "abd"));
    assert!(contains("", ""));
}

#[test]
fn numbers_are_written_out() {
    assert_eq!(decimal_of(0), "0");
    assert_eq!(decimal_of(u64::MAX), "18446744073709551615");
    assert_eq!(count_of(1234), "1234");
    assert_eq!(decimal2_of(7), "07");
    assert_eq!(decimal2_of(59), "59");
    assert_eq!(hex_of(&vec![0, 255, 16]), "00ff10");
}
