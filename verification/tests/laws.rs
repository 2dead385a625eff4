//! What holds of every step, tried on states a session gets into.
use cargo_lbin::app::keys::{Key, KeyCode};
use cargo_lbin::app::start::{AuthAsk, BuildStart, Step};
use cargo_lbin::app::{App, Flow, ManifestRead, PairFor, PrefixRead};
use cargo_lbin::batch::{BatchShape, MigrateSection, Preflight, StartOutcome};
use cargo_lbin::job::{
    ActiveControl, BuildIntent, BuildJob, BuildKind, Job, PendingBuild,
};
use cargo_lbin::state::{
    AuthAnswer, AuthPurpose, BuildReport, Confirm, Entry, Filter, Input, InputPurpose, Manifest,
    MessageKind, OnConfirm, PendingAction, PendingInPlace, PlannedUpdate, ReinstallPlan, RowStatus,
};
use cargo_lbin::validate::InstallSpec;
use cargo_lbin::version::Version;

fn v(s: &str) -> Version {
    Version::parse(s).unwrap()
}

fn read(entries: &[(&str, &str, bool)]) -> PrefixRead {
    PrefixRead {
        report: Ok(None),
        manifest: ManifestRead::Loaded {
            manifest: Manifest {
                crates: entries
                    .iter()
                    .map(|(name, version, pinned)| {
                        (
                            (*name).to_owned(),
                            Entry {
                                version: (*version).to_owned(),
                                bins: vec![(*name).to_owned()],
                                locked: false,
                                pinned: *pinned,
                                built_with_rustc: None,
                            },
                        )
                    })
                    .collect(),
            },
            also: Vec::new(),
        },
    }
}

const ENTRIES: &[(&str, &str, bool)] = &[("a", "1.0.0", false), ("b", "2.0.0", true)];

fn app() -> App {
    App::new("/p".to_owned(), read(ENTRIES)).unwrap()
}

fn said(app: &App) -> String {
    app.message.as_ref().map(|m| m.text.clone()).unwrap_or_default()
}

fn key(code: KeyCode) -> Key {
    Key { code, ctrl: false }
}

fn codes() -> Vec<KeyCode> {
    let mut all: Vec<KeyCode> = (' '..='~').map(KeyCode::Char).collect();
    all.extend([
        KeyCode::Up,
        KeyCode::Down,
        KeyCode::PageUp,
        KeyCode::PageDown,
        KeyCode::Home,
        KeyCode::End,
        KeyCode::Esc,
        KeyCode::Enter,
        KeyCode::Tab,
        KeyCode::BackTab,
        KeyCode::Backspace,
        KeyCode::Other,
    ]);
    all
}

fn building() -> Job {
    Job::Build(BuildJob::new("foo".to_owned(), BuildKind::Install, ActiveControl::Single, 0))
}

fn queued(app: &App) -> usize {
    usize::from(app.pending.is_some())
        + usize::from(app.pending_build.is_some())
        + usize::from(app.pending_migrate.is_some())
        + usize::from(app.pending_in_place.is_some())
        + usize::from(app.pending_install_batch.is_some())
        + usize::from(app.pending_update_sweep.is_some())
        + usize::from(app.pending_reinstall_sweep.is_some())
}

/// A session starts idle, and performs nothing on its own.
#[test]
fn a_session_starts_idle() {
    let mut app = app();
    assert!(!app.anything_running());
    assert_eq!(queued(&app), 0);
    assert!(app.confirm.is_none() && app.input.is_none());
    assert!(matches!(app.next_step(), Step::Wait));
    assert!(matches!(app.tick(0), Flow::Done));
}

/// No key replaces a running job, queues anything over it, or leaves it.
#[test]
fn no_key_disturbs_a_running_build() {
    for code in codes() {
        let mut app = app();
        app.job = Some(building());
        let flow = app.on_key(key(code), 0);
        assert!(
            matches!(&app.job, Some(Job::Build(b)) if b.name == "foo"),
            "{code:?} keeps the job"
        );
        assert_eq!(queued(&app), 0, "{code:?} queues nothing");
        assert!(!app.should_quit, "{code:?} leaves no build behind");
        assert!(!matches!(flow, Flow::Start(_) | Flow::Apply(_) | Flow::ProbePrivilege(_)));
    }
}

/// No key changes the rows or takes the selection out of them, in any view.
#[test]
fn no_key_loses_the_list() {
    for code in codes() {
        for filter in [Filter::All, Filter::Updates, Filter::Pinned] {
            let mut app = app();
            app.rows[0].status = RowStatus::Outdated(v("1.1.0"));
            app.filter = filter;
            app.on_key(key(code), 0);
            assert_eq!(app.rows.len(), 2);
            assert_eq!(app.prefix, "/p");
            let shown = app.visible().len();
            assert!(app.selected < shown || app.selected == 0, "{code:?} in {filter:?}");
        }
    }
}

/// With a manifest that did not load, no key mutates anything.
#[test]
fn a_degraded_session_mutates_nothing() {
    for code in codes() {
        let refused = PrefixRead {
            report: Ok(None),
            manifest: ManifestRead::Refused("not json".to_owned()),
        };
        let mut app = App::new("/p".to_owned(), refused).unwrap();
        app.on_key(key(code), 0);
        assert_eq!(queued(&app), 0, "{code:?}");
        assert!(app.confirm.is_none() && app.input.is_none(), "{code:?}");
    }
}

/// Anything but a `y` starts nothing.
#[test]
fn only_a_yes_confirms() {
    for code in codes() {
        let mut app = app();
        app.confirm = Some(Confirm::new("?", OnConfirm::Update {
            name: "a".to_owned(),
            expected: "1.0.0".to_owned(),
        }));
        app.on_key(key(code), 0);
        let yes = matches!(code, KeyCode::Char('y' | 'Y'));
        assert_eq!(app.pending_build.is_some(), yes, "{code:?}");
        assert!(app.confirm.is_none());
        if !yes {
            assert_eq!(said(&app), "cancelled");
        }
    }
}

/// A second cancel of a one-shot changes nothing that the first did not.
#[test]
fn a_cancel_flag_is_idempotent() {
    let mut app = app();
    app.job = Some(Job::UpdatePlan { name: "a".to_owned(), cancel: false });
    app.on_key(key(KeyCode::Char('c')), 0);
    let once = said(&app);
    app.on_key(key(KeyCode::Char('c')), 0);
    assert_eq!(said(&app), once);
    assert!(matches!(&app.job, Some(Job::UpdatePlan { name, cancel: true }) if name == "a"));
}

/// What the footer says never holds a control character.
#[test]
fn messages_are_clean() {
    let mut app = app();
    app.error("a\u{1b}[2Jb\nc");
    assert_eq!(said(&app), "a [2Jb c");
    assert!(matches!(app.message.as_ref().map(|m| m.kind), Some(MessageKind::Error)));
    app.warn("w");
    assert!(matches!(app.message.as_ref().map(|m| m.kind), Some(MessageKind::Warning)));
}

/// The spec that a picked downgrade queues reads back as what was picked.
#[test]
fn a_picked_downgrade_reads_back() {
    let mut app = app();
    app.finish_downgrade("a".into(), "1.0.0".into(), vec![v("0.9.0-rc.1")]);
    app.on_key(key(KeyCode::Char('1')), 0);
    let req = app.pending_build.as_ref().unwrap();
    let spec = InstallSpec::parse(&req.spec).unwrap();
    assert_eq!(spec.name, "a");
    assert_eq!(spec.version, Some(v("0.9.0-rc.1")));
}

/// The migration that runs is the one that was confirmed.
#[test]
fn a_confirmed_migration_runs_as_shown() {
    let mut app = app();
    app.selected = 1;
    assert!(matches!(
        app.on_key(key(KeyCode::Char('m')), 0),
        Flow::FindPair(PairFor::Migrate)
    ));
    let Flow::LookAt { dest, name } = app.pair_found(PairFor::Migrate, Some("/q".to_owned()))
    else {
        panic!("the destination is looked at")
    };
    assert_eq!((dest.as_str(), name.as_str()), ("/q", "b"));
    app.destination_seen(dest, None);
    let prompt = &app.confirm.as_ref().expect("a question").prompt;
    assert!(
        prompt.contains("b 2.0.0: /p -> /q") && prompt.contains("exact pinned version"),
        "{prompt}"
    );
    app.on_key(key(KeyCode::Char('y')), 0);
    let Step::Migrate(req) = app.next_step() else { panic!("the migration is next") };
    assert!(app.start_migrate().is_none());
    let Ok(orders) = app.migrate_preflighted(req, Preflight::Ready, Some("later"), 9) else {
        panic!("nothing stands in the way")
    };
    assert_eq!((orders.name.as_str(), orders.dest.as_str()), ("b", "/q"));
    assert_eq!(orders.snap.version, v("2.0.0"));
    assert!(orders.snap.pinned && !orders.snap.locked);
    assert_eq!(said(&app), "later");
    assert!(app.build_running());
    // Another one is refused while this one runs.
    assert!(matches!(app.start_migrate(), Some(StartOutcome::Refused(_))));
}

/// A crate that the other side already carries is not asked about.
#[test]
fn an_occupied_destination_is_an_answer() {
    let mut app = app();
    app.destination_seen("/q".to_owned(), Some("0.5.0".to_owned()));
    assert!(app.confirm.is_none());
    assert!(said(&app).contains("already installed at /q (0.5.0)"), "{}", said(&app));
}

/// A migration that cannot start ends its batch with the refusal on record.
#[test]
fn a_refused_member_ends_its_batch() {
    let mut app = app();
    app.on_key(key(KeyCode::Char('M')), 0);
    let Flow::Reload(after) = app.pair_found(PairFor::MigrateAll, Some("/q".to_owned())) else {
        panic!("the list is read again")
    };
    app.reloaded(after, read(ENTRIES)).unwrap();
    app.on_key(key(KeyCode::Char('y')), 0);
    let Step::Migrate(req) = app.next_step() else { panic!("the first member is next") };
    app.start_migrate();
    let Err(StartOutcome::Refused(reason)) =
        app.migrate_preflighted(req, Preflight::NoCache, None, 0)
    else {
        panic!("no password can be had")
    };
    assert!(reason.contains("migrate via the CLI"), "{reason}");
    assert_eq!(
        app.migrate_batch.as_ref().unwrap().runner.recorded(MigrateSection::Failed),
        0
    );
    app.migrate_refused("a", reason);
    assert!(app.migrate_batch.is_none() && app.pending_migrate.is_none());
    let report = app.build_report.as_ref().expect("the refusal is on record");
    assert!(report.failed);
    assert!(report.title.contains("0 of 2"), "{}", report.title);
    assert!(report.lines.iter().any(|l| l.contains("migrate via the CLI")));
}

/// An in-place change waits for its password, happens, or goes to the terminal.
#[test]
fn an_in_place_change_follows_its_authorization() {
    let pin = || PendingInPlace::SetPinned { name: "a".to_owned(), pinned: true };
    let mut app = app();
    assert!(matches!(app.run_in_place(pin(), Preflight::Ready), Flow::Apply(_)));
    assert!(matches!(
        app.run_in_place(pin(), Preflight::Reported("denied".to_owned())),
        Flow::Done
    ));
    assert_eq!(said(&app), "denied");
    assert!(matches!(app.run_in_place(pin(), Preflight::NoCache), Flow::Done));
    assert!(matches!(
        &app.pending,
        Some(PendingAction::SetPinned { name, pinned: true }) if name == "a"
    ));
}

/// A waiting worker is told which of the three facts holds.
#[test]
fn a_waiting_worker_gets_its_answer() {
    let waiting = || {
        let mut app = app();
        let mut job =
            BuildJob::new("foo".to_owned(), BuildKind::Install, ActiveControl::Single, 0);
        job.needs_auth = Some(("/usr/local".to_owned(), AuthPurpose::Placement));
        app.job = Some(Job::Build(job));
        app
    };
    let mut app = waiting();
    assert!(matches!(app.next_step(), Step::Auth));
    assert!(matches!(
        app.answer_auth(true),
        AuthAsk::Answer(AuthAnswer::Refused(why)) if why == "cancelled"
    ));
    let mut app = waiting();
    assert!(matches!(
        app.answer_auth(false),
        AuthAsk::Prompt { target, purpose: AuthPurpose::Placement } if target == "/usr/local"
    ));
    assert!(matches!(app.answer_auth(false), AuthAsk::Nothing), "asked once");
    assert!(matches!(app.auth_prompted(Ok(Ok(true))), AuthAnswer::Authorized));
    assert!(matches!(
        app.auth_prompted(Ok(Ok(false))),
        AuthAnswer::Refused(why) if why.contains("did not retain credentials")
    ));
    assert!(matches!(
        app.auth_prompted(Err("wrong password".to_owned())),
        AuthAnswer::Refused(why) if why == "wrong password"
    ));
    assert_eq!(said(&app), "wrong password");
}

/// A sweep begins as the plan that was confirmed, or goes to the terminal.
#[test]
fn a_sweep_begins_or_is_handed_over() {
    let planned = vec![(
        "a".to_owned(),
        ReinstallPlan { version: v("1.0.0"), pinned: false, locked: true },
    )];
    let mut rebuild = app();
    assert!(rebuild.start_confirmed_sweep(&planned, Preflight::Ready, &Ok(false), "note", 3));
    let batch = rebuild.install_batch.as_ref().unwrap();
    assert_eq!(batch.runner.total, 1);
    assert_eq!(batch.shape, BatchShape::Rebuild);
    assert!(matches!(
        &rebuild.job,
        Some(Job::Build(b)) if b.name == "1 crates" && b.control == ActiveControl::Batch
    ));
    let mut handed = app();
    assert!(!handed.start_confirmed_sweep(&planned, Preflight::NoCache, &Ok(true), "note", 3));
    assert!(matches!(handed.pending, Some(PendingAction::ReinstallAll)));

    let updates = vec![PlannedUpdate {
        name: "a".to_owned(),
        current: "1.0.0".to_owned(),
        latest: v("1.1.0"),
    }];
    let mut update = app();
    assert!(update.start_confirmed_update_sweep(&updates, Preflight::Ready, &Ok(true), "n", 0));
    assert_eq!(said(&update), "n");
    let mut stopped = app();
    assert!(!stopped.start_confirmed_update_sweep(
        &updates,
        Preflight::Reported("no".to_owned()),
        &Ok(true),
        "n",
        0
    ));
    assert_eq!(said(&stopped), "no");

    let mut typed = app();
    assert!(typed.install_batch_specs(&vec!["a@nope".to_owned()]).is_none());
    assert!(matches!(typed.message.as_ref().map(|m| m.kind), Some(MessageKind::Error)));
    assert_eq!(typed.install_batch_specs(&vec!["a".to_owned(), "b".to_owned()]).unwrap().len(), 2);
}

/// A build whose spec does not read is refused before anything is asked.
#[test]
fn a_build_with_a_bad_spec_is_refused() {
    let mut app = app();
    app.build_report =
        Some(BuildReport { title: "t".into(), lines: Vec::new(), failed: false });
    let req = |spec: &str, intent: BuildIntent| PendingBuild {
        spec: spec.to_owned(),
        locked: false,
        intent,
    };
    assert!(matches!(
        app.start_build(&req("../x", BuildIntent::Install)),
        BuildStart::Refused(_)
    ));
    assert!(app.build_report.is_some(), "nothing was attempted");
    assert!(matches!(
        app.start_build(&req("a@1.2.3", BuildIntent::Install)),
        BuildStart::Preflight(_)
    ));
    assert!(app.build_report.is_none(), "a new attempt supersedes the report");
}

/// What is typed lands in the line, and nothing else.
#[test]
fn typing_goes_to_the_open_line() {
    for code in codes() {
        let mut app = app();
        app.input = Some(Input { purpose: InputPurpose::Install, buffer: "x".to_owned() });
        app.on_key(key(code), 0);
        if let KeyCode::Char(c) = code {
            assert_eq!(app.input.as_ref().unwrap().buffer, format!("x{c}"));
        }
        assert!(app.confirm.is_none());
    }
}
