//! What the screen shows.
use cargo_lbin::app::{App, ManifestRead, PrefixRead};
use cargo_lbin::batch::{sweep_sections, BatchRunner, BatchShape, InstallBatch};
use cargo_lbin::job::{ActiveControl, BuildJob, BuildKind, Job};
use cargo_lbin::state::{
    AlsoIn, BuildReport, DowngradeChoice, Filter, Hit, Input, InputPurpose, Manifest, Row,
    RowStatus, SearchResult,
};
use cargo_lbin::ui::{
    bottom_line, centered, cursor_column, detail_lines, details_height, details_panel, empty_note,
    header_title, help_box, help_lines, key_bar, list_name, report_frame, report_lines,
    report_view, report_window, resting_details_height, status_cell, status_line, tab_titles, Area,
    Piece, Tone, WIDEST_COLUMN,
};
use cargo_lbin::version::Version;
use std::collections::VecDeque;

fn line_text(line: &[Piece]) -> String {
    line.iter().map(|s| s.text.as_str()).collect()
}

fn row(name: &str) -> Row {
    Row {
        name: name.to_owned(),
        version: "1.2.3".to_owned(),
        bins: vec![name.to_owned()],
        locked: false,
        pinned: false,
        built_with_rustc: None,
        also: Vec::new(),
        status: RowStatus::Unknown,
    }
}

fn also(prefix: &str, version: &str) -> AlsoIn {
    AlsoIn { prefix: prefix.to_owned(), version: version.to_owned() }
}

fn texts(row: &Row) -> Vec<String> {
    detail_lines(row).iter().map(|l| line_text(l)).collect()
}

fn app() -> App {
    App::new(
        "/p".to_owned(),
        PrefixRead {
            report: Ok(None),
            manifest: ManifestRead::Loaded {
                manifest: Manifest { crates: Vec::new() },
                also: Vec::new(),
            },
        },
    )
    .unwrap()
}

/// The panel is the full managed entry: every manifest fact speaks, including
/// the negative.
#[test]
fn details_tell_the_whole_entry_including_the_negatives() {
    let plain = texts(&row("foo"));
    assert!(
        plain.iter().any(|l| l.contains("Locked") && l.contains("no")),
        "{plain:?}"
    );
    assert!(
        plain.iter().any(|l| l.contains("Pinned") && l.contains("no")),
        "{plain:?}"
    );
    assert!(
        !plain.iter().any(|l| l.contains("Also in")),
        "not elsewhere is the ordinary state, not information: {plain:?}"
    );

    let mut full = row("foo");
    full.locked = true;
    full.pinned = true;
    full.bins = vec!["foo".to_owned(), "fooctl".to_owned()];
    full.also = vec![also("/usr/local", "1.1.0")];
    let full = texts(&full);
    assert!(
        full.iter().any(|l| l.contains("Locked") && l.contains("yes")),
        "{full:?}"
    );
    assert!(
        full.iter().any(|l| l.contains("Pinned") && l.contains("yes")),
        "{full:?}"
    );
    assert!(
        full.iter().any(|l| l.contains("foo, fooctl")),
        "every binary, in one line: {full:?}"
    );
    assert!(
        full.iter().any(|l| l.contains("Also in") && l.contains("/usr/local @1.1.0")),
        "the foreign copy is a native line with its version: {full:?}"
    );
}

/// Two foreign copies are legal, and the panel must show both.
#[test]
fn details_show_every_foreign_copy() {
    let mut r = row("foo");
    r.also = vec![also("/usr/local", "1.0.0"), also("/home/u/.local", "1.1.0")];
    let texts = texts(&r);
    assert_eq!(
        texts.len(),
        8,
        "six fixed lines plus one per copy: {texts:?}"
    );
    assert!(texts[6].contains("/usr/local @1.0.0"), "{texts:?}");
    assert!(texts[7].contains("/home/u/.local @1.1.0"), "{texts:?}");
}

/// The panel's height follows the entry. Borders included — the lines must fit
/// inside them, not merely exist.
#[test]
fn resting_height_makes_room_for_every_line() {
    let mut app = app();
    app.rows = vec![row("foo")];
    assert_eq!(
        resting_details_height(&app),
        8,
        "no foreign copy: six lines + borders"
    );
    let content = |app: &App| u16::try_from(detail_lines(app.selected_row().unwrap()).len()).unwrap();
    assert_eq!(resting_details_height(&app), content(&app) + 2);

    app.rows[0].also = vec![also("/usr/local", "1.0.0")];
    assert_eq!(resting_details_height(&app), content(&app) + 2);

    app.rows[0].also.push(also("/home/u/.local", "1.1.0"));
    assert_eq!(
        resting_details_height(&app),
        content(&app) + 2,
        "two foreign copies still fit inside the borders"
    );
}

/// Every offered version has to fit inside the borders: a digit that works on a
/// line nobody can see is worse than no digit at all.
#[test]
fn an_offer_gets_a_panel_tall_enough_for_every_version() {
    let mut app = app();
    app.rows = vec![row("foo")];
    let offer = |versions: usize, older: usize| DowngradeChoice {
        name: "foo".to_owned(),
        current: "1.2.0".to_owned(),
        versions: (0..versions)
            .map(|i| Version::parse(&format!("1.0.{i}")).unwrap())
            .collect(),
        older,
    };

    app.downgrade_choice = Some(offer(2, 0));
    assert_eq!(resting_details_height(&app), 4, "two lines and the borders");
    app.downgrade_choice = Some(offer(9, 0));
    assert_eq!(resting_details_height(&app), 11, "nine still fit");
    app.downgrade_choice = Some(offer(9, 3));
    assert_eq!(
        resting_details_height(&app),
        12,
        "the overflow note is a line of its own"
    );
    assert_eq!(details_panel(&app).lines.len(), 10);

    app.downgrade_choice = None;
    assert_eq!(
        resting_details_height(&app),
        8,
        "with no offer the entry's own height is back"
    );
}

/// The foreign prefix is environment-borne: the native line is sanitized.
#[test]
fn details_sanitize_the_foreign_prefix() {
    let mut r = row("foo");
    r.also = vec![also("/usr/\x1b[31mlocal", "1.1.0")];
    let texts = texts(&r);
    assert!(texts.iter().all(|l| !l.contains('\x1b')), "{texts:?}");
}

#[test]
fn the_tabs_and_the_header_count() {
    let mut app = app();
    app.rows = vec![row("foo"), row("bar")];
    app.rows[0].pinned = true;
    app.rows[1].status = RowStatus::Outdated(Version::parse("2.0.0").unwrap());
    let tabs = tab_titles(&app);
    assert_eq!(tabs.len(), 3);
    assert!(tabs[0].contains('2'), "{tabs:?}");
    assert!(tabs[1].contains('1'), "{tabs:?}");
    assert!(tabs[2].contains('1'), "{tabs:?}");
    assert!(header_title(&app).contains("/p"), "{}", header_title(&app));
}

#[test]
fn each_status_has_its_own_cell() {
    let newer = status_cell(&RowStatus::Outdated(Version::parse("2.0.0").unwrap()));
    assert!(newer.text.contains("2.0.0"), "{}", newer.text);
    let current = status_cell(&RowStatus::UpToDate);
    let unknown = status_cell(&RowStatus::Unknown);
    assert_ne!(current.text, unknown.text);
    assert_ne!(newer.tone, current.tone);
}

#[test]
fn an_empty_view_says_which_one_it_is() {
    let notes = [Filter::All, Filter::Updates, Filter::Pinned].map(empty_note);
    assert_ne!(notes[0], notes[1]);
    assert_ne!(notes[1], notes[2]);
    assert!(list_name(&row("foo"), "").starts_with("foo"));
}

#[test]
fn a_report_is_windowed() {
    let report =
        BuildReport { title: "t".into(), lines: vec!["a".into(), "b".into()], failed: true };
    let lines = report_lines(&report);
    assert_eq!(lines.len(), 3, "the title, then the report's own");
    assert_eq!(lines[0].text, "t");
    assert!(lines[0].bold && lines[0].tone == Tone::Red);
    assert_eq!(lines[2].text, "b");
    // Ten rows in a box of five lines: the offset is held to what is left.
    let (max, at) = report_window(10, 5, 99);
    assert_eq!(max, at);
    assert!(max > 0);
    assert_eq!(report_window(2, 10, 3), (0, 0));
    assert_ne!(report_frame(0), report_frame(3));
}

#[test]
fn a_reports_height_is_counted_as_it_wraps() {
    let report =
        BuildReport { title: "t".into(), lines: vec!["aaaa bbbb cccc".into()], failed: true };
    let area = |width, height| Area { x: 0, y: 0, width, height };
    // Six columns take one word each: four rows, two of them in the box.
    assert_eq!(report_view(&report, area(8, 4), 99), (2, 2));
    assert_eq!(report_view(&report, area(8, 4), 1), (2, 1));
    // Nine columns take two words, fourteen all three.
    assert_eq!(report_view(&report, area(11, 4), 99), (1, 1));
    assert_eq!(report_view(&report, area(16, 4), 99), (0, 0));
    // Leading blanks are kept: seven cells in five columns take two rows.
    let indented =
        BuildReport { title: "t".into(), lines: vec!["   aaaa".into()], failed: false };
    assert_eq!(report_view(&indented, area(7, 3), 99), (2, 2));
    // No room between the borders counts as one column, and one row.
    let long = BuildReport { title: "t".into(), lines: vec!["abc".into()], failed: false };
    assert_eq!(report_view(&long, area(1, 1), 99), (3, 3));
    assert_eq!(report_view(&long, area(0, 0), 2), (3, 2));
}

#[test]
fn the_count_of_a_reports_rows_saturates() {
    let report =
        BuildReport { title: "t".into(), lines: vec![String::new(); 70_000], failed: false };
    let area = Area { x: 0, y: 0, width: 80, height: 12 };
    assert_eq!(report_view(&report, area, u16::MAX), (65_525, 65_525));
}

#[test]
fn the_widest_column_is_counted() {
    let report =
        BuildReport { title: "t".into(), lines: vec!["a".repeat(16_385)], failed: false };
    let area = Area { x: 0, y: 0, width: WIDEST_COLUMN + 2, height: 3 };
    assert_eq!(report_view(&report, area, 9), (2, 2));
}

#[test]
fn the_details_give_way_to_a_low_screen() {
    let mut app = app();
    app.rows = vec![row("foo")];
    assert_eq!(details_height(&app, 60), 8);
    app.build_report =
        Some(BuildReport { title: "t".into(), lines: vec!["x".into(); 50], failed: false });
    assert!(details_height(&app, 60) > 8, "a report gets the room");
    assert!(details_height(&app, 60) <= 60);
}

#[test]
fn the_keys_and_the_status_follow_what_runs() {
    let mut app = app();
    let idle = key_bar(&app);
    app.job =
        Some(Job::Build(BuildJob::new("foo".into(), BuildKind::Install, ActiveControl::Single, 0)));
    assert_ne!(key_bar(&app), idle, "a running build offers its cancel");
    assert!(bottom_line(&app, 1000).is_none(), "the gauge shows the build already");
    app.job = Some(Job::Check { cancel: false });
    let line = bottom_line(&app, 1000).expect("a running check has a line");
    assert_eq!(line.piece.text.trim_start(), app.job.as_ref().unwrap().label());
    app.job = None;
    app.report_age = Some(5);
    let status = status_line(&app, Some("just now"));
    assert!(status.text.contains("just now"), "{}", status.text);
    app.input = Some(Input { purpose: InputPurpose::Install, buffer: "rip".into() });
    let line = bottom_line(&app, 0).expect("an open line is drawn");
    assert!(line.typing && line.piece.text.contains("rip"), "{}", line.piece.text);
}

#[test]
fn the_search_panel_marks_what_is_installed() {
    let mut app = app();
    app.search_result = Some(SearchResult {
        query: "cat".into(),
        hits: vec![
            Hit { name: "bat".into(), version: "0.26.0".into(), description: "a cat".into() },
            Hit { name: "lolcat".into(), version: "1.0.0".into(), description: "b".into() },
        ],
        installed: vec![("bat".into(), "0.25.0".into())],
    });
    let panel = details_panel(&app);
    assert!(panel.title.contains("cat"), "{}", panel.title);
    let lines: Vec<String> = panel.lines.iter().map(|l| line_text(l)).collect();
    assert!(lines.iter().any(|l| l.contains("bat") && l.contains("0.25.0")), "{lines:?}");
    assert!(lines.iter().any(|l| l.contains("lolcat")), "{lines:?}");
}

#[test]
fn boxes_stay_on_the_screen() {
    let screen = Area { x: 0, y: 0, width: 80, height: 24 };
    assert_eq!(centered(screen, 20, 4), Area { x: 30, y: 10, width: 20, height: 4 });
    let big = centered(screen, 200, 100);
    assert!(big.width <= 80 && big.height <= 24);
    let app = app();
    let lines = help_lines(&app);
    assert!(lines.len() > 10);
    let shown = help_box(&lines, screen);
    assert!(shown.x + shown.width <= 80 && shown.y + shown.height <= 24);
    let line = Area { x: 2, y: 23, width: 10, height: 1 };
    assert_eq!(cursor_column(line, "abc"), 5);
    assert!(cursor_column(line, "abcdefghijklmnopq") < 12, "the cursor stays on the line");
}

/// A batch's label names the member for as long as that member is building.
#[test]
fn a_batch_label_names_the_member_it_is_building() {
    let mut app = app();
    let mut runner = BatchRunner::new(VecDeque::new(), &sweep_sections());
    runner.total = 3;
    let mut batch = InstallBatch {
        runner,
        shape: BatchShape::List,
        current: None,
        attempted: 0,
        plan_warnings: Vec::new(),
    };
    batch.begin_member("bar", Vec::new());
    app.install_batch = Some(batch);
    let mut job =
        BuildJob::new("3 crates".to_owned(), BuildKind::Install, ActiveControl::Single, 0);
    job.units_started = 7;
    job.current = Some("serde".to_owned());
    app.job = Some(Job::Build(job));

    let label = app.build_progress(0).expect("a running build has a line");
    assert!(label.contains("[1/3] bar"), "which member: {label}");
    assert!(
        !label.contains("3 crates"),
        "not the batch's bare size: {label}"
    );
}
