//! Rows, filters and the dialog state.
use cargo_lbin::state::{
    action_label, admits, command_of, rows_from, AlsoIn, Checked, Command, Confirm, Entry, Filter,
    Manifest, MigrationSnapshot, OnConfirm, PendingAction, Report, Row, RowStatus,
};
use cargo_lbin::version::Version;

fn v(s: &str) -> Version {
    Version::parse(s).unwrap()
}

fn manifest(entries: &[(&str, &str)]) -> Manifest {
    Manifest {
        crates: entries
            .iter()
            .map(|(name, version)| {
                (
                    (*name).to_owned(),
                    Entry {
                        version: (*version).to_owned(),
                        bins: vec![(*name).to_owned()],
                        locked: false,
                        pinned: false,
                        built_with_rustc: None,
                    },
                )
            })
            .collect(),
    }
}

fn checked(name: &str, current: &str, latest: &str) -> Checked {
    Checked { name: name.to_owned(), current: v(current), latest: v(latest) }
}

fn row(pinned: bool, status: RowStatus) -> Row {
    Row {
        name: "x".into(),
        version: "1.0.0".into(),
        bins: vec!["x".into()],
        locked: false,
        pinned,
        built_with_rustc: None,
        also: Vec::new(),
        status,
    }
}

fn three_way_status() {
    let m = manifest(&[
        ("bat", "0.26.0"),
        ("fd", "10.3.0"),
        ("ripgrep", "14.1.1"),
        ("sd", "1.2.0"),
    ]);
    let report = Report {
        age: 0,
        checked: vec![
            checked("bat", "0.26.0", "0.26.1"),
            checked("ripgrep", "14.1.1", "14.1.1"),
            // Checked against an older version, and updated since to exactly
            // the version this report named: the report can answer that one.
            checked("fd", "10.2.0", "10.3.0"),
            // Checked against an older version and updated past it, to
            // something this report never saw.
            checked("sd", "1.0.0", "1.1.0"),
        ],
    };
    let rows = rows_from(&m, Some(&report), &Vec::new());
    let status: Vec<(&str, &RowStatus)> =
        rows.iter().map(|r| (r.name.as_str(), &r.status)).collect();
    assert_eq!(status[0], ("bat", &RowStatus::Outdated(v("0.26.1"))));
    // Installed at the version the report named: current, by this report's own
    // answer — which is what keeps a list from blanking the moment `U` lands
    // its updates.
    assert_eq!(status[1], ("fd", &RowStatus::UpToDate));
    assert_eq!(status[2], ("ripgrep", &RowStatus::UpToDate));
    // Installed past what the report saw: unknown, and says so.
    assert_eq!(status[3], ("sd", &RowStatus::Unknown));

    // No report at all: everything unknown, nothing claimed.
    let rows = rows_from(&m, None, &Vec::new());
    assert!(rows.iter().all(|r| r.status == RowStatus::Unknown));
}

#[test]
fn the_list_names_each_crate_once() {
    let m = manifest(&[("bar", "1.0.0"), ("baz", "0.2.0"), ("foo", "0.1.0")]);
    let rows = rows_from(&m, None, &vec![]);
    let names: Vec<&str> = rows.iter().map(|row| row.name.as_str()).collect();
    assert_eq!(names, ["bar", "baz", "foo"]);
}

#[test]
fn mod_rows_carry_three_way_status() {
    three_way_status();
}

#[test]
fn state_rows_carry_three_way_status() {
    three_way_status();
}

#[test]
fn mod_filter_cycles_and_indexes() {
    assert_eq!(Filter::All.next(), Filter::Updates);
    assert_eq!(Filter::Updates.next(), Filter::Pinned);
    assert_eq!(Filter::Pinned.next(), Filter::All);
    for (i, f) in Filter::ALL.iter().enumerate() {
        assert_eq!(f.index(), i);
        // prev is next's inverse — BackTab retraces Tab exactly.
        assert_eq!(f.next().prev(), *f);
    }
}

#[test]
fn state_filter_cycles_and_indexes() {
    assert_eq!(Filter::All.next(), Filter::Updates);
    assert_eq!(Filter::Updates.next(), Filter::Pinned);
    assert_eq!(Filter::Pinned.next(), Filter::All);
    for (i, f) in Filter::ALL.iter().enumerate() {
        assert_eq!(f.index(), i);
        // prev is next's inverse — BackTab retraces Tab exactly.
        assert_eq!(f.next().prev(), *f);
    }
}

fn membership() {
    let newer = v("2.0.0");
    let pinned_behind = row(true, RowStatus::Outdated(newer.clone()));
    let pinned_current = row(true, RowStatus::UpToDate);
    let outdated = row(false, RowStatus::Outdated(newer));
    let current = row(false, RowStatus::UpToDate);

    // Updates is what `update --all` will act on: a pinned crate is held back,
    // so its backlog must not be counted there.
    assert!(admits(Filter::Updates, &outdated));
    assert!(!admits(Filter::Updates, &pinned_behind));
    assert!(!admits(Filter::Updates, &current));

    // Pinned is a state, not a relation to a newer version: a pin on the
    // latest release belongs there just as much.
    assert!(admits(Filter::Pinned, &pinned_behind));
    assert!(admits(Filter::Pinned, &pinned_current));
    assert!(!admits(Filter::Pinned, &outdated));
    // The remaining two cells of the matrix, so the test closes it rather than
    // samples it.
    assert!(!admits(Filter::Updates, &pinned_current));
    assert!(!admits(Filter::Pinned, &current));

    for r in [&pinned_behind, &pinned_current, &outdated, &current] {
        assert!(admits(Filter::All, r));
    }
}

#[test]
fn mod_view_membership_is_consistent() {
    membership();
}

#[test]
fn state_view_membership_is_consistent() {
    membership();
}

#[test]
fn rows_carry_the_cross_prefix_suffix() {
    let also = vec![(
        "one".to_owned(),
        vec![AlsoIn { prefix: "/usr/local".to_owned(), version: "0.9.0".to_owned() }],
    )];
    let m = manifest(&[("one", "1.0.0"), ("two", "2.0.0")]);
    let rows = rows_from(&m, None, &also);
    let one = rows.iter().find(|r| r.name == "one").unwrap();
    // Facts on the row; how they read is decided at render time.
    assert_eq!(one.also.len(), 1);
    assert_eq!(one.also[0].prefix, "/usr/local");
    assert_eq!(one.also[0].version, "0.9.0");
    assert_eq!(
        cargo_lbin::ui::list_name(one, " [also in /usr/local @0.9.0]"),
        "one [also in /usr/local @0.9.0]"
    );
    let two = rows.iter().find(|r| r.name == "two").unwrap();
    assert!(two.also.is_empty(), "installed nowhere else, no facts");
}

/// A manifest version that does not parse is one no report speaks about, and
/// one that cannot be frozen into a migration.
#[test]
fn an_unparsable_version_is_unknown_and_not_migrated() {
    let m = manifest(&[("foo", "nope")]);
    let report = Report { age: 5, checked: vec![checked("foo", "1.0.0", "2.0.0")] };
    let rows = rows_from(&m, Some(&report), &Vec::new());
    assert_eq!(rows[0].status, RowStatus::Unknown);
    assert!(MigrationSnapshot::of(&rows[0]).is_err());
    let ok = MigrationSnapshot::of(&row(true, RowStatus::Unknown)).unwrap();
    assert_eq!(ok.version, v("1.0.0"));
    assert_eq!(ok.bins, vec!["x"]);
    assert!(ok.pinned && !ok.locked);
}

/// A question owns the panel that it brought, and a prompt is clean.
#[test]
fn a_question_owns_the_plan_it_brought() {
    let remove = Confirm::new("remove \u{1b}foo? [y/N]", OnConfirm::Remove { name: "foo".into() });
    assert_eq!(remove.prompt, "remove  foo? [y/N]");
    assert!(!remove.owns_report());
    assert!(Confirm::new("?", OnConfirm::ReinstallAll { planned: Vec::new() }).owns_report());
    assert!(Confirm::new("?", OnConfirm::UpdateAll { planned: Vec::new() }).owns_report());
}

#[test]
fn actions_are_labelled_as_commands() {
    assert_eq!(action_label(&PendingAction::UpdateAll), "update --all");
    assert_eq!(action_label(&PendingAction::Remove("foo".into())), "remove foo");
    assert_eq!(
        action_label(&PendingAction::Install {
            crates: vec!["foo".into(), "bar".into()],
            locked: true
        }),
        "install foo bar --locked"
    );
    assert_eq!(
        action_label(&PendingAction::SetPinned { name: "foo".into(), pinned: false }),
        "unpin foo"
    );
}

/// A handover runs the command that the key stands for.
#[test]
fn a_handover_becomes_a_command() {
    assert_eq!(
        command_of(&PendingAction::Reinstall("foo".into())),
        Command::Install { crates: vec!["foo".into()], locked: false, reinstall: true }
    );
    assert_eq!(
        command_of(&PendingAction::Install { crates: vec!["a".into(), "b".into()], locked: true }),
        Command::Install { crates: vec!["a".into(), "b".into()], locked: true, reinstall: false }
    );
    assert_eq!(
        command_of(&PendingAction::UpdateAll),
        Command::Update { crates: Vec::new(), all: true }
    );
    assert_eq!(
        command_of(&PendingAction::Update("foo".into())),
        Command::Update { crates: vec!["foo".into()], all: false }
    );
    assert_eq!(command_of(&PendingAction::ReinstallAll), Command::ReinstallAll);
    assert_eq!(
        command_of(&PendingAction::Downgrade("foo".into())),
        Command::Downgrade("foo".into())
    );
    assert_eq!(
        command_of(&PendingAction::Remove("foo".into())),
        Command::Remove(vec!["foo".into()])
    );
    assert_eq!(
        command_of(&PendingAction::SetPinned { name: "foo".into(), pinned: true }),
        Command::SetPinned { crates: vec!["foo".into()], pinned: true }
    );
}
