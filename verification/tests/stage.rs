//! Run directories, the captured build and the stage's bookkeeping.
use cargo_lbin::stage::{
    build_captured, build_failed, build_log_body, build_log_name, command, failure_with_log,
    lease_state, parse_run_dir, payload_removal, run_dir_name, staged_info, tail_from,
    trim_line_end, unverified_build, verified_info, Captured, CargoEnd, Drain, Install, LeaseState,
    LockAnswer, Removal, StageRun,
};
use cargo_lbin::version::Version;

fn owned(list: &[&str]) -> Vec<String> {
    list.iter().map(|x| (*x).to_owned()).collect()
}

fn install(key: &str, bins: &[&str]) -> Install {
    Install { key: key.to_owned(), bins: owned(bins) }
}

/// The parser is the classification boundary: everything it accepts earns a
/// liveness protocol, everything it rejects is debris. Both sides of that line
/// are pinned here.
#[test]
fn run_dir_parsing_is_strict_on_both_layouts() {
    assert_eq!(parse_run_dir("1234"), Some(StageRun::LegacyPid(1234)));
    assert_eq!(
        parse_run_dir("1234-0123456789abcdef"),
        Some(StageRun::LeasedRun { pid: 1234 })
    );
    for junk in [
        "",
        "-",
        "12x",
        "+7", // u32::parse would take it; the scanner must not
        " 7",
        "1234-",
        "-0123456789abcdef",
        "1234-0123456789abcde",   // one hex digit short
        "1234-0123456789abcdef0", // one hex digit long
        "1234-0123456789ABCDEF",  // not the alphabet we write
        "1234-0123456789abcdeg",
        "12x4-0123456789abcdef",
        "1234-0123456789abcdef-0", // trailing garbage
    ] {
        assert_eq!(parse_run_dir(junk), None, "accepted junk: {junk:?}");
    }
}

/// A number of a process fits in its type or is no process at all.
#[test]
fn run_dir_parsing_knows_the_range_of_a_pid() {
    assert_eq!(parse_run_dir("4294967295"), Some(StageRun::LegacyPid(u32::MAX)));
    assert_eq!(parse_run_dir("4294967296"), None);
    assert_eq!(parse_run_dir("99999999999999999999"), None);
    assert_eq!(parse_run_dir("007"), Some(StageRun::LegacyPid(7)));
    assert_eq!(parse_run_dir("4294967296-0123456789abcdef"), None);
}

/// The generator and the parser agree on one alphabet, and two nonces never
/// agree on one name.
#[test]
fn run_dir_names_round_trip_and_differ() {
    let a = run_dir_name(4242, &vec![0, 1, 2, 3, 4, 5, 6, 0xff]);
    let b = run_dir_name(4242, &vec![0, 1, 2, 3, 4, 5, 6, 0xfe]);
    assert_eq!(a, "4242-00010203040506ff");
    assert_ne!(a, b, "two runs, one name: the nonce failed its job");
    for name in [&a, &b] {
        assert_eq!(
            parse_run_dir(name),
            Some(StageRun::LeasedRun { pid: 4242 }),
            "the generator wrote a name the parser rejects: {name}"
        );
    }
}

#[test]
fn staged_info_parses_crates2() {
    let installs = vec![
        install(
            "hexyl 0.14.0 (registry+https://github.com/rust-lang/crates.io-index)",
            &["hexyl"],
        ),
        install("other 1.0.0 (git+https://example.com/other#abc)", &["other"]),
    ];
    let built = staged_info("hexyl", "/stage", &installs).unwrap();
    assert_eq!(built.version, Version::parse("0.14.0").unwrap());
    assert_eq!(built.bins, vec!["hexyl"]);
    assert_eq!(built.bin_paths, vec!["/stage/bin/hexyl"]);
    assert!(
        staged_info("other", "/stage", &installs).is_err(),
        "git source must not match"
    );
    assert_eq!(
        staged_info("absent", "/stage", &installs).unwrap_err(),
        "`absent` missing from stage bookkeeping after build"
    );

    // Forged bookkeeping with duplicate bins must fail here, before anything
    // would touch the prefix.
    let forged = vec![install(
        "dupes 1.0.0 (registry+https://github.com/rust-lang/crates.io-index)",
        &["foo", "foo"],
    )];
    let err = staged_info("dupes", "/stage", &forged).unwrap_err();
    assert!(err.contains("listed twice"), "{err}");
}

/// A reused stage lists more than one version: the greatest is what was built.
#[test]
fn the_greatest_staged_version_is_the_one_built() {
    let source = "(registry+https://github.com/rust-lang/crates.io-index)";
    let installs = vec![
        install(&format!("foo 1.9.0 {source}"), &["foo"]),
        install(&format!("foo 1.10.0 {source}"), &["foo", "fooctl"]),
        install(&format!("foo 1.2.0 {source}"), &["foo"]),
    ];
    let built = staged_info("foo", "/s/", &installs).unwrap();
    assert_eq!(built.version.as_str(), "1.10.0");
    assert_eq!(built.bin_paths, vec!["/s/bin/foo", "/s/bin/fooctl"]);

    let broken = vec![install(&format!("foo one {source}"), &["foo"])];
    let err = staged_info("foo", "/s", &broken).unwrap_err();
    assert!(err.contains("unparsable staged version `one`"), "{err}");
}

#[test]
fn an_exact_request_is_held_to_its_version() {
    let installs = vec![install(
        "foo 1.2.0 (registry+https://github.com/rust-lang/crates.io-index)",
        &["foo"],
    )];
    let asked = Version::parse("1.2.0").unwrap();
    let other = Version::parse("1.3.0").unwrap();
    assert_eq!(
        verified_info("foo", Some(&asked), "/s", &installs).unwrap().version,
        asked
    );
    assert!(verified_info("foo", None, "/s", &installs).is_ok());
    let err = verified_info("foo", Some(&other), "/s", &installs).unwrap_err();
    assert!(err.contains("1.2.0") && err.contains("1.3.0"), "{err}");
}

#[test]
fn the_command_spells_the_exact_version() {
    let v = Version::parse("1.2.3").unwrap();
    assert_eq!(
        command("foo", Some(&v), true, "/s"),
        vec!["install", "foo", "--root", "/s", "--version", "=1.2.3", "--locked"]
    );
    assert_eq!(command("foo", None, false, "/s"), vec!["install", "foo", "--root", "/s"]);
}

/// A failed build is quoted from its first compiler error on, and the log
/// holds everything that the quote dropped.
#[test]
fn captured_build_forwards_lines_and_logs_failures() {
    let mut drain = Drain::new();
    let mut seen: Vec<String> = Vec::new();
    for line in [
        "   Compiling one v1.0.0",
        "   Compiling two v2.0.0",
        "error[E0308]: mismatched types",
        "note: expected u8",
    ] {
        seen.push(drain.read_line(line));
    }
    assert_eq!(seen.len(), 4, "every stderr line reaches the frontend");
    let errors = vec![false, false, true, false];
    let end = CargoEnd::Stopped { status: "exit status: 101".to_owned(), by_signal: false };
    let Captured::Failed { headline, tail } =
        build_captured("boomcrate", &drain.lines, &errors, None, end, false)
    else {
        panic!("a failed build fails")
    };
    assert_eq!(headline, "cargo install boomcrate failed with exit status: 101");
    let name = build_log_name("boomcrate", 77, "20260101");
    assert_eq!(name, "build-boomcrate-77-20260101.log");
    let msg = failure_with_log(&headline, &Ok(format!("/logs/{name}")), &tail);
    assert!(
        msg.contains("error[E0308]") && msg.contains("note: expected u8"),
        "tail starts at the first compiler error: {msg}"
    );
    assert!(
        !msg.contains("Compiling one"),
        "successful units stay out of the tail: {msg}"
    );
    assert!(msg.contains("full log:"), "log path travels in the error");
    let full = build_log_body(&drain.lines);
    assert!(
        full.contains("Compiling one") && full.contains("note: expected u8"),
        "the log holds everything the tail dropped"
    );
    assert!(full.ends_with("u8\n"), "and ends its last line");

    let unwritten = failure_with_log(&headline, &Err("disk full".to_owned()), &tail);
    assert!(
        unwritten.contains("(could not write the full log: disk full)"),
        "{unwritten}"
    );
}

/// Success is cargo's word and the stage's: an exit of zero that staged
/// nothing is a failure like any other.
#[test]
fn captured_build_streams_success_and_verifies_the_stage() {
    let lines = owned(&["   Compiling okcrate v0.1.0", "    Finished release [optimized]"]);
    let marks = vec![false, false];
    assert!(matches!(
        build_captured("okcrate", &lines, &marks, None, CargoEnd::Succeeded, false),
        Captured::Built
    ));
    let installs = vec![install(
        "okcrate 0.1.0 (registry+https://github.com/rust-lang/crates.io-index)",
        &["okcrate"],
    )];
    let built = verified_info("okcrate", None, "/s", &installs).unwrap();
    assert_eq!(built.bins, vec!["okcrate"]);

    let cause = verified_info("ghost", None, "/s", &Vec::new()).unwrap_err();
    let (headline, tail) = unverified_build(&cause, &lines);
    let msg = failure_with_log(&headline, &Ok("/logs/x".to_owned()), &tail);
    assert!(
        msg.contains("cargo exited successfully, but:"),
        "verification failure names itself: {msg}"
    );
    assert!(
        msg.contains("full log:"),
        "verification failure still writes and names the log: {msg}"
    );
}

/// A cancel is a cancel only where a signal ended the build.
#[test]
fn a_cancelled_build_is_told_from_a_failed_one() {
    let lines = owned(&["a"]);
    let marks = vec![false];
    let stopped = |by_signal: bool| CargoEnd::Stopped { status: "signal: 15".to_owned(), by_signal };
    assert!(matches!(
        build_captured("foo", &lines, &marks, None, stopped(true), true),
        Captured::Cancelled
    ));
    assert!(matches!(
        build_captured("foo", &lines, &marks, None, stopped(false), true),
        Captured::Failed { .. }
    ));
    assert!(matches!(
        build_captured("foo", &lines, &marks, None, stopped(true), false),
        Captured::Failed { .. }
    ));
    assert!(matches!(
        build_captured(
            "foo",
            &lines,
            &marks,
            None,
            CargoEnd::Lost { cause: "gone".to_owned() },
            true
        ),
        Captured::Lost(e) if e == "waiting for cargo: gone"
    ));
    let broken = "pipe".to_owned();
    assert!(matches!(
        build_captured("foo", &lines, &marks, Some(&broken), stopped(true), true),
        Captured::Failed { headline, .. } if headline == "reading cargo output failed: pipe"
    ));
    assert_eq!(build_failed("foo", "exit status: 1"), "cargo install foo failed with exit status: 1");
}

/// Without a compiler error the quote is the last lines, and it never grows
/// past its limit.
#[test]
fn the_quote_is_bounded() {
    let lines: Vec<String> = (0..30).map(|i| format!("line {i}")).collect();
    let none = vec![false; 30];
    let end = || CargoEnd::Stopped { status: "exit status: 1".to_owned(), by_signal: false };
    let Captured::Failed { tail, .. } = build_captured("foo", &lines, &none, None, end(), false)
    else {
        panic!("a failed build fails")
    };
    assert_eq!(tail.len(), 12);
    assert_eq!(tail[0], "line 18");
    let mut early = vec![false; 30];
    early[2] = true;
    let Captured::Failed { tail, .. } = build_captured("foo", &lines, &early, None, end(), false)
    else {
        panic!("a failed build fails")
    };
    assert_eq!(tail.len(), 12);
    assert_eq!(tail[0], "line 2");
    assert!(tail_from(&lines, 30).is_empty());
}

#[test]
fn the_survivors_are_swept_once() {
    let mut drain = Drain::new();
    assert!(!drain.asks_for_leader(false), "no cancel, no question");
    assert!(drain.asks_for_leader(true));
    assert!(!drain.leader_answered(false), "the leader lives");
    assert!(drain.leader_answered(true), "the leader is gone: sweep");
    assert!(!drain.asks_for_leader(true), "and never again");
    assert!(!drain.leader_answered(true));
    assert_eq!(drain.read_line("a\u{1b}b"), "a b", "sanitized once, for screen and log");
    assert_eq!(drain.lines, vec!["a b"]);
}

#[test]
fn line_ends_are_dropped() {
    let mut bytes = b"abc\r\n".to_vec();
    trim_line_end(&mut bytes);
    assert_eq!(bytes, b"abc");
    let mut bytes = b"a\rb\n\r\n".to_vec();
    trim_line_end(&mut bytes);
    assert_eq!(bytes, b"a\rb");
    let mut bytes = b"\n".to_vec();
    trim_line_end(&mut bytes);
    assert!(bytes.is_empty());
}

#[test]
fn a_line_is_decoded_whatever_its_bytes_are() {
    let mut drain = Drain::new();
    assert_eq!(drain.read_bytes("café\u{1b}[0m\r\n".as_bytes().to_vec()), "café [0m");
    assert_eq!(drain.read_bytes(b"a\xffb\n".to_vec()), "a\u{fffd}b");
    assert_eq!(drain.read_bytes(b"\n".to_vec()), "");
    assert_eq!(drain.lines, ["café [0m", "a\u{fffd}b", ""]);
}

/// Only a lease that was there and takeable convicts.
#[test]
fn a_probe_has_three_answers() {
    assert_eq!(lease_state(None), LeaseState::Unknown);
    assert_eq!(lease_state(Some(LockAnswer::Failed)), LeaseState::Unknown);
    assert_eq!(lease_state(Some(LockAnswer::WouldBlock)), LeaseState::Held);
    assert_eq!(lease_state(Some(LockAnswer::Taken)), LeaseState::Released);
}

#[test]
fn the_lease_goes_last() {
    assert_eq!(payload_removal(".lease", false), Removal::Keep);
    assert_eq!(payload_removal(".lease.pending", false), Removal::Unlink);
    assert_eq!(payload_removal("somecrate", true), Removal::Tree);
    assert_eq!(payload_removal("link-out", false), Removal::Unlink);
}
