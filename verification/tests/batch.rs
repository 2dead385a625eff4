//! The batch runner, the sections and the members.
use cargo_lbin::batch::{
    failure_lines, install_sections, migrate_sections, sweep_sections, update_sections,
    BatchRunner, BatchShape, InstallBatch, InstallSection, MemberOutcome, MigrateSection,
    SectionKey,
};
use std::collections::VecDeque;

#[derive(Clone, Copy, PartialEq, Eq, Debug)]
enum Section {
    Failed,
    Noted,
}

impl SectionKey for Section {
    fn same_key(self, other: Section) -> bool {
        self == other
    }
}

/// The runner files and counts; it does not judge. Sections are the backend's,
/// declared in panel order, and a member's outcome is filed by the backend into
/// one of them.
fn the_runner_files_and_counts() {
    let mut runner: BatchRunner<u8, Section> = BatchRunner::new(
        [1u8, 2, 3].into_iter().collect(),
        &vec![(Section::Failed, "failed:"), (Section::Noted, "noted:")],
    );
    assert_eq!(runner.total, 3);
    assert_eq!(runner.next_member(), Some(1));
    assert_eq!(runner.remaining(), 2, "what a stop would leave unattempted");
    assert!(runner.quiet(), "nothing to show yet");

    runner.succeeded();
    runner.record(Section::Failed, "bar", vec!["boom".to_owned()]);
    runner.record(Section::Noted, "baz", vec!["warning: x".to_owned()]);
    assert_eq!(runner.recorded(Section::Failed), 1);
    assert!(!runner.quiet(), "a filed line means a panel");

    // Sections appear in the order the backend declared, not the order things
    // happened.
    let lines = runner.report_lines();
    let failed_at = lines.iter().position(|l| l == "failed:").unwrap();
    let noted_at = lines.iter().position(|l| l == "noted:").unwrap();
    assert!(failed_at < noted_at, "{lines:?}");
    assert!(lines.iter().any(|l| l.contains("boom")), "{lines:?}");

    // The head is the backend's sentence; the runner only appends what it alone
    // knows — how much was left.
    assert_eq!(
        runner.summary("did 1 of 3", Some("cancelled")),
        "did 1 of 3 (cancelled; 2 not attempted)"
    );
    assert_eq!(runner.summary("did 1 of 3", None), "did 1 of 3");
}

#[test]
fn batch_the_runner_keeps_the_queue_and_the_backend_keeps_the_meaning() {
    the_runner_files_and_counts();
}

#[test]
fn mod_the_runner_keeps_the_queue_and_the_backend_keeps_the_meaning() {
    the_runner_files_and_counts();
}

/// The whole panel, line for line.
#[test]
fn the_panel_has_one_shape() {
    let mut runner: BatchRunner<u8, Section> = BatchRunner::new(
        VecDeque::new(),
        &vec![(Section::Failed, "failed:"), (Section::Noted, "noted:")],
    );
    assert!(runner.report_lines().is_empty());
    assert_eq!(
        runner.summary("did all", Some("cancelled")),
        "did all (cancelled; 0 not attempted)"
    );
    runner.record(Section::Noted, "b", vec!["x".to_owned(), "y".to_owned()]);
    runner.record(Section::Failed, "a", vec!["boom".to_owned()]);
    runner.record(Section::Noted, "c", Vec::new());
    let text = runner.report_lines().join("|");
    assert!(text.starts_with("failed:|"), "{text}");
    assert_eq!(runner.recorded(Section::Noted), 2);
    assert_eq!(runner.recorded(Section::Failed), 1);
}

#[test]
fn the_sections_of_each_batch_are_declared() {
    assert_eq!(migrate_sections().len(), 4);
    for list in [install_sections(), sweep_sections(), update_sections()] {
        assert!(list.iter().any(|(k, _)| *k == InstallSection::Failed));
        assert!(list.iter().any(|(k, _)| *k == InstallSection::Refused));
        assert!(list.iter().any(|(k, _)| *k == InstallSection::Noticed));
    }
    assert!(
        migrate_sections()
            .iter()
            .any(|(k, header)| *k == MigrateSection::Refused && !header.is_empty())
    );
    assert_eq!(BatchShape::List.verb(), "installed");
    assert_eq!(BatchShape::Rebuild.verb(), "rebuilt");
    assert_eq!(BatchShape::Update.verb(), "updated");
    assert!(BatchShape::List.stops_at_a_member());
    assert!(!BatchShape::Rebuild.stops_at_a_member());
    assert!(!BatchShape::Update.stops_at_a_member());
}

fn batch(total: usize) -> InstallBatch {
    let mut runner = BatchRunner::new(VecDeque::new(), &sweep_sections());
    runner.total = total;
    InstallBatch {
        runner,
        shape: BatchShape::Rebuild,
        current: None,
        attempted: 0,
        plan_warnings: Vec::new(),
    }
}

/// Each outcome is filed in its own section, and a success is counted.
#[test]
fn each_outcome_goes_to_its_own_section() {
    let mut b = batch(5);
    let tail: VecDeque<String> = ["cargo says no".to_owned()].into_iter().collect();
    for (name, outcome) in [
        ("a", MemberOutcome::Installed),
        ("b", MemberOutcome::Skipped("moved".to_owned())),
        ("c", MemberOutcome::Failed("boom".to_owned())),
        ("d", MemberOutcome::Refused("no password".to_owned())),
        ("e", MemberOutcome::Cancelled),
    ] {
        b.begin_member(name, Vec::new());
        assert_eq!(b.current.as_deref(), Some(name));
        b.finish_member(name, &outcome, vec![format!("warning of {name}")], &tail);
        assert!(b.current.is_none());
    }
    assert_eq!(b.attempted, 5);
    assert_eq!(b.runner.succeeded, 1);
    assert_eq!(b.runner.recorded(InstallSection::Skipped), 1);
    assert_eq!(b.runner.recorded(InstallSection::Failed), 1);
    assert_eq!(b.runner.recorded(InstallSection::Refused), 1);
    let text = b.runner.report_lines().join("\n");
    assert!(text.contains("boom") && text.contains("cargo says no"), "{text}");
    assert!(text.contains("warning of a"), "a success keeps its warnings: {text}");
    assert!(text.contains("no password"), "{text}");
}

#[test]
fn what_was_said_before_a_member_is_the_plans() {
    let mut b = batch(2);
    b.begin_member("foo", vec!["warning: also in /usr/local".to_owned()]);
    assert_eq!(b.plan_warnings, vec!["warning: also in /usr/local"]);
    assert_eq!(b.attempted, 1);
}

/// A terse error is followed by the end of the build's output; one that speaks
/// for itself is not.
#[test]
fn a_terse_failure_is_followed_by_the_output() {
    let tail: VecDeque<String> = (0..10).map(|i| format!("t{i}")).collect();
    let lines = failure_lines("boom", &tail);
    assert_eq!(lines.len(), 9);
    assert_eq!(lines[0], "boom");
    assert_eq!(lines[1], "t2");
    assert_eq!(lines[8], "t9");
    assert_eq!(failure_lines("one\ntw\u{1b}o", &tail), vec!["one", "tw o"]);
}
