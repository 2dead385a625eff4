//! Builds: what the worker says, how a build and a batch end, and cancelling.
use cargo_lbin::app::keys::{Key, KeyCode};
use cargo_lbin::app::{
    AfterReload, App, CancelFor, Finished, Flow, ManifestRead, PrefixRead, BUILD_TAIL,
};
use cargo_lbin::batch::{
    install_sections, migrate_sections, sweep_sections, BatchRunner, BatchShape, InstallBatch,
    InstallSection, MemberOutcome, MigrateBatch, MigrateSection, MigrateTarget, Preflight,
};
use cargo_lbin::job::{
    ActiveControl, BuildError, BuildEvent, BuildJob, BuildKind, BuildMsg, BuildOutcome, Delivered,
    Finding, Job, JobEvent, VerifyReport,
};
use cargo_lbin::state::{
    ActiveCancel, AuthPurpose, CancelOutcome, Checked, Entry, Manifest, MigrationSnapshot,
    PendingMigrate,
};
use cargo_lbin::version::Version;
use std::collections::VecDeque;

fn v(s: &str) -> Version {
    Version::parse(s).unwrap()
}

fn read() -> PrefixRead {
    PrefixRead {
        report: Ok(None),
        manifest: ManifestRead::Loaded {
            manifest: Manifest { crates: Vec::new() },
            also: Vec::new(),
        },
    }
}

fn app() -> App {
    App::new("/p".to_owned(), read()).unwrap()
}

fn said(app: &App) -> String {
    app.message.as_ref().map(|m| m.text.clone()).unwrap_or_default()
}

fn start(app: &mut App, kind: BuildKind) {
    app.job = Some(Job::Build(BuildJob::new("foo".to_owned(), kind, ActiveControl::Single, 0)));
}

fn other(msg: BuildMsg) -> Delivered {
    Delivered { msg, event: BuildEvent::Other }
}

/// Hands the messages to the session, and reads the prefix where it asks.
fn hear(app: &mut App, msgs: Vec<Delivered>) {
    let flow = app
        .poll_job(JobEvent::Build { heard: msgs.into_iter().collect(), gone: false })
        .unwrap();
    resume(app, flow);
}

fn resume(app: &mut App, flow: Flow) {
    match flow {
        Flow::Done => {}
        Flow::Reload(after) => {
            app.reloaded(after, read()).unwrap();
        }
        _ => panic!("only a reload is asked for"),
    }
}

fn failed(text: &str) -> BuildOutcome {
    BuildOutcome::Failed(BuildError::Other(text.to_owned()))
}

fn install_batch(total: usize, shape: BatchShape) -> InstallBatch {
    let sections =
        if shape == BatchShape::List { install_sections() } else { sweep_sections() };
    let mut runner = BatchRunner::new(VecDeque::new(), &sections);
    runner.total = total;
    InstallBatch { runner, shape, current: None, attempted: 0, plan_warnings: Vec::new() }
}

fn close(app: &mut App, outcome: &BuildOutcome, warnings: Vec<String>) {
    let flow = app.finish_install_batch(outcome, &VecDeque::new(), warnings);
    resume(app, flow);
}

/// The batch's tallies and its one summary.
#[test]
fn an_install_batch_sums_up_once_and_says_what_was_left() {
    let mut app = app();
    let mut batch = install_batch(3, BatchShape::List);
    batch.runner.succeeded();
    batch.runner.record(
        InstallSection::Noticed,
        "foo",
        vec!["warning: shadowed".to_owned()],
    );
    batch.current = Some("bar".to_owned());
    batch.attempted = 2;
    app.install_batch = Some(batch);

    close(&mut app, &failed("boom"), Vec::new());

    assert!(app.install_batch.is_none(), "the batch is over");
    let said = said(&app);
    assert!(
        said.contains("installed 1 of 3")
            && said.contains("stopped at a failure")
            && said.contains("1 not attempted"),
        "{said}"
    );
    let report = app.build_report.as_ref().expect("shortfalls are shown");
    assert!(report.failed, "a failed member marks the report");
    assert!(
        report.lines.iter().any(|l| l.contains("boom"))
            && report.lines.iter().any(|l| l.contains("shadowed")),
        "both sections survive: {:?}",
        report.lines
    );
}

/// Three scopes, kept apart: the plan, the member, and the refusal.
#[test]
fn a_batch_reports_the_plan_the_member_and_the_refusal_apart() {
    let mut app = app();
    let mut batch = install_batch(3, BatchShape::List);
    // Said before anyone started: the duplicate check speaks about the plan.
    batch.begin_member("foo", vec!["warning: also in /usr/local".to_owned()]);
    batch.finish_member("foo", &MemberOutcome::Installed, Vec::new(), &VecDeque::new());
    batch.begin_member("bar", Vec::new());
    batch.finish_member(
        "bar",
        &MemberOutcome::Refused("no usable credentials".to_owned()),
        Vec::new(),
        &VecDeque::new(),
    );
    assert_eq!(batch.attempted, 2, "counted as they started");
    app.install_batch = Some(batch);

    close(&mut app, &BuildOutcome::Success, Vec::new());

    let said = said(&app);
    assert!(
        said.contains("installed 1 of 3")
            && said.contains("could not be placed")
            && said.contains("1 not attempted"),
        "{said}"
    );
    let report = app.build_report.as_ref().expect("a panel");
    assert!(
        !report.failed,
        "nothing failed to build; the panel must not say so"
    );
    let text = report.lines.join("\n");
    assert!(
        text.contains("built, but not placed:") && text.contains("bar"),
        "the refusal has its own section: {text}"
    );
    assert!(
        text.contains("the plan:") && text.contains("also in /usr/local"),
        "and the plan's warning is the plan's: {text}"
    );
    assert!(
        !report.lines.iter().any(|l| l.contains("foo")),
        "the first crate is not blamed for it: {text}"
    );
}

/// A cancelled batch says so.
#[test]
fn a_cancelled_batch_is_not_a_quiet_success() {
    let mut app = app();
    let mut batch = install_batch(3, BatchShape::List);
    batch.runner.succeeded();
    batch.attempted = 1;
    app.install_batch = Some(batch);

    close(&mut app, &BuildOutcome::Cancelled, Vec::new());

    let said = said(&app);
    assert!(
        said.contains("installed 1 of 3")
            && said.contains("cancelled")
            && said.contains("2 not attempted"),
        "{said}"
    );
}

/// A plan that could not run stopped before anyone.
#[test]
fn a_plan_that_could_not_run_blames_no_crate() {
    let mut app = app();
    app.install_batch = Some(install_batch(2, BatchShape::List));

    // Said by the duplicate check, before any member started and with nobody
    // left to take them.
    close(
        &mut app,
        &failed("bar is pinned"),
        vec!["warning: also in /usr/local".to_owned()],
    );

    let said = said(&app);
    assert!(
        said.contains("installed 0 of 2")
            && said.contains("stopped before the first member")
            && said.contains("2 not attempted"),
        "{said}"
    );
    let report = app.build_report.as_ref().expect("a panel");
    assert!(
        report.failed,
        "an operation that could not run is a failure"
    );
    let text = report.lines.join("\n");
    assert!(
        text.contains("the plan:")
            && text.contains("bar is pinned")
            && text.contains("also in /usr/local"),
        "both belong to the plan: {text}"
    );
}

/// A sweep asked about every member, so a member that failed is a shortfall in
/// the count — not a place where the run stopped.
#[test]
fn a_sweep_counts_a_failure_it_did_not_stop_for() {
    let mut app = app();
    let mut batch = install_batch(3, BatchShape::Rebuild);
    batch.runner.succeeded();
    batch.runner.succeeded();
    batch.runner.record(InstallSection::Failed, "bar", vec!["boom".to_owned()]);
    batch.attempted = 3;
    app.install_batch = Some(batch);

    close(&mut app, &BuildOutcome::Success, Vec::new());

    let said = said(&app);
    assert!(said.contains("rebuilt 2 of 3"), "{said}");
    assert!(
        !said.contains("stopped"),
        "a sweep that asked about all three did not stop: {said}"
    );
    assert!(
        !said.contains("not attempted"),
        "and left nobody unattempted: {said}"
    );
}

/// Live warnings say whose they are.
#[test]
fn live_warnings_name_the_member_that_spoke_them() {
    let mut app = app();
    let mut batch = install_batch(3, BatchShape::List);
    // The states the worker actually produces: one member at a time, each
    // finished before the next begins.
    batch.begin_member("foo", Vec::new());
    batch.finish_member("foo", &MemberOutcome::Installed, Vec::new(), &VecDeque::new());
    batch.begin_member("bar", Vec::new());
    app.install_batch = Some(batch);

    app.show_live_warnings(
        "3 crates",
        &BuildKind::Install,
        &vec!["warning: shadowed".to_owned()],
    );
    let title = app.build_report.as_ref().expect("a panel").title.clone();
    assert!(title.contains("[2/3] bar"), "whose warnings: {title}");
    assert!(
        !title.contains("3 crates"),
        "not the operation's own name: {title}"
    );

    // Outside a batch the job's name is the subject, as before.
    app.install_batch = None;
    app.show_live_warnings("solo", &BuildKind::Install, &vec!["warning: x".to_owned()]);
    assert!(
        app.build_report.as_ref().is_some_and(|r| r.title.contains("solo")),
        "a single build is its own subject"
    );
}

/// The heads-up before a batch says when privilege is spent, and only where
/// there is one.
#[test]
fn a_batch_announces_a_late_escalation_only_when_there_is_one() {
    let note = "privilege may be requested after each build";
    let crates = vec!["foo".to_owned(), "bar".to_owned()];
    let mut writable = app();
    assert!(writable.start_install_batch(
        crates.clone(),
        false,
        Preflight::Ready,
        &Ok(false),
        note,
        0
    ));
    assert!(
        writable.message.is_none(),
        "a prefix that needs no privilege promises no escalation"
    );
    let mut needs = app();
    assert!(needs.start_install_batch(crates, false, Preflight::Ready, &Ok(true), note, 0));
    assert_eq!(said(&needs), note);
    assert!(needs.build_running() && needs.install_batch.is_some());
}

/// The record says what the person did.
#[test]
fn a_downgrade_is_recorded_as_a_downgrade() {
    let mut app = app();
    assert_eq!(BuildKind::Downgrade.verb(), "downgrade");
    start(&mut app, BuildKind::Downgrade);
    hear(&mut app, vec![other(BuildMsg::Warning("warning: something".into()))]);
    let live = app.build_report.as_ref().expect("warnings reach the panel");
    assert!(live.title.starts_with("downgrade foo"), "{}", live.title);

    hear(&mut app, vec![other(BuildMsg::Done(failed("boom")))]);
    let report = app.build_report.as_ref().expect("a failure is pinned");
    assert_eq!(report.title, "downgrade foo failed", "{}", report.title);
    assert!(report.failed);
}

fn pending(name: &str) -> PendingMigrate {
    PendingMigrate {
        name: name.into(),
        version: "0.1.0".into(),
        dest: "/other".into(),
        snap: MigrationSnapshot {
            version: v("0.1.0"),
            bins: vec![name.into()],
            locked: false,
            pinned: false,
            built_with_rustc: None,
        },
    }
}

fn migrate_batch(names: &[&str], total: usize, succeeded: usize) -> MigrateBatch {
    let mut runner: BatchRunner<PendingMigrate, MigrateSection> =
        BatchRunner::new(names.iter().map(|n| pending(n)).collect(), &migrate_sections());
    runner.total = total;
    runner.succeeded = succeeded;
    MigrateBatch { dest: "/other".into(), runner, stopping: false }
}

fn step(name: &str, outcome: BuildOutcome, warnings: Vec<String>) -> Finished {
    Finished {
        name: name.to_owned(),
        kind: BuildKind::Migrate(MigrateTarget {
            version: "0.1.0".into(),
            dest: "/other".into(),
        }),
        outcome,
        tail: VecDeque::new(),
        warnings,
    }
}

#[test]
fn a_batch_tallies_advances_and_a_cancel_ends_it() {
    let mut app = app();
    // Success advances the queue — and a successful member's warnings are not
    // laundered by the tally. The outcome's version deliberately differs from
    // the plan's: the footer must announce what the destination committed.
    app.migrate_batch = Some(migrate_batch(&["bar"], 2, 0));
    app.finish_batch_step(
        step(
            "foo",
            BuildOutcome::Migrated(v("0.2.0")),
            vec!["foo shadows something".to_owned()],
        ),
        read(),
    );
    assert!(app.pending_migrate.is_some(), "the queue advanced");
    let batch = app.migrate_batch.as_ref().unwrap();
    assert_eq!(batch.runner.succeeded, 1);
    assert_eq!(
        batch.runner.recorded(MigrateSection::Noticed),
        1,
        "the shadow warning survived"
    );
    assert!(
        said(&app).contains("foo 0.2.0"),
        "the footer speaks the destination's version, not the plan's: {}",
        said(&app)
    );

    // ...a failure on the last member finalizes with a failed panel carrying
    // the successful member's warnings too...
    app.pending_migrate = None;
    app.finish_batch_step(step("bar", failed("already installed, say"), Vec::new()), read());
    assert!(app.migrate_batch.is_none(), "the batch wrapped up");
    let report = app.build_report.take().expect("a shortfall gets a panel");
    assert!(report.failed);
    assert!(report.title.contains("1 of 2"));
    assert!(
        report.lines.iter().any(|l| l.contains("shadows something")),
        "the successful member's warning reached the summary panel"
    );

    // ...and a cancel ends the batch with the queue dropped.
    app.migrate_batch = Some(migrate_batch(&["baz", "qux"], 3, 1));
    app.finish_batch_step(step("bar", BuildOutcome::Cancelled, Vec::new()), read());
    assert!(app.migrate_batch.is_none(), "a cancel ends the whole batch");
    assert!(
        app.pending_migrate.is_none(),
        "nothing was silently continued"
    );
}

/// Each member of a finished migration is counted once, whatever became of it.
#[test]
fn each_member_is_accounted_for_once() {
    let mut app = app();
    app.migrate_batch = Some(migrate_batch(&["b", "c"], 3, 0));
    app.finish_batch_step(step("a", failed("boom"), Vec::new()), read());
    app.finish_batch_step(
        step(
            "b",
            BuildOutcome::CompletedWithWarning("the source was not retired".to_owned()),
            Vec::new(),
        ),
        read(),
    );
    let batch = app.migrate_batch.as_ref().unwrap();
    let runner = &batch.runner;
    let filed = runner.succeeded
        + runner.recorded(MigrateSection::Failed)
        + runner.recorded(MigrateSection::Refused)
        + runner.recorded(MigrateSection::Incomplete);
    assert_eq!(filed, 2);
    assert_eq!(runner.recorded(MigrateSection::Failed), 1);
    assert_eq!(runner.recorded(MigrateSection::Incomplete), 1);
}

#[test]
fn a_check_result_arriving_after_the_cancel_is_discarded() {
    let mut app = app();
    // Ok(Some) after the flag: discarded, nothing persisted.
    app.job = Some(Job::Check { cancel: false });
    app.on_key(Key { code: KeyCode::Char('c'), ctrl: false }, 0);
    let flow = app.poll_job(JobEvent::Checked(Ok(Some(Vec::new())))).unwrap();
    assert!(
        matches!(flow, Flow::Done),
        "a cancelled check persists nothing"
    );
    assert!(app.job.is_none(), "the slot is freed");
    assert!(said(&app).contains("cancelled"), "{}", said(&app));

    // Err after the flag: still "cancelled", never "failed".
    app.job = Some(Job::Check { cancel: false });
    app.on_key(Key { code: KeyCode::Char('c'), ctrl: false }, 0);
    let flow =
        app.poll_job(JobEvent::Checked(Err("network died mid-flight".to_owned()))).unwrap();
    assert!(matches!(flow, Flow::Done));
    let text = said(&app);
    assert!(
        text.contains("cancelled") && !text.contains("failed"),
        "an error after the cancel is the cancel's outcome, not a failure: {text}"
    );
}

/// Without the cancel the same answers are recorded and reported.
#[test]
fn a_check_that_was_not_cancelled_is_recorded() {
    let mut app = app();
    app.job = Some(Job::Check { cancel: false });
    let found = vec![Checked { name: "foo".into(), current: v("1.0.0"), latest: v("1.1.0") }];
    let flow = app.poll_job(JobEvent::Checked(Ok(Some(found)))).unwrap();
    assert!(matches!(flow, Flow::Record { sweep: false, checked } if checked.len() == 1));
    app.job = Some(Job::Check { cancel: false });
    app.poll_job(JobEvent::Checked(Err("network down".to_owned()))).unwrap();
    assert!(said(&app).contains("network down"), "{}", said(&app));
}

#[test]
fn a_oneshot_cancel_is_a_flag_and_a_discarded_result() {
    let mut app = app();
    app.job = Some(Job::Search { query: "tokio".into(), cancel: false });
    assert!(app.job.as_ref().unwrap().label().starts_with("searching"));
    app.on_key(Key { code: KeyCode::Char('c'), ctrl: false }, 0);
    assert!(
        matches!(app.job, Some(Job::Search { cancel: true, .. })),
        "the slot stays held until the worker returns"
    );
    assert!(
        app.job.as_ref().unwrap().label().contains("cancel requested"),
        "the label names the state, not a power the door lacks"
    );
    // The worker returns a full result; the cancel discards it.
    app.poll_job(JobEvent::Found(Ok(Vec::new()))).unwrap();
    assert!(app.job.is_none(), "the slot is freed");
    assert!(app.search_result.is_none(), "the result was discarded");
    assert!(said(&app).contains("cancelled"), "{}", said(&app));
}

#[test]
fn a_fresh_report_opens_at_its_headline() {
    let mut app = app();
    app.report_scroll = 7;
    app.finish_verify(Ok(VerifyReport {
        crates: Some(1),
        errors: vec![Finding { message: "`foo`: managed binary is missing".into() }],
        warnings: Vec::new(),
    }));
    let report = app.build_report.as_ref().expect("findings pin a panel");
    assert!(report.failed, "an invariant violation is a failed panel");
    assert_eq!(app.report_scroll, 0, "a fresh report starts at the top");
}

/// A warning is shown on receipt, not banked until the end.
#[test]
fn a_warning_reaches_the_panel_while_the_build_still_runs() {
    let mut app = app();
    start(&mut app, BuildKind::Install);
    hear(
        &mut app,
        vec![other(BuildMsg::Warning(
            "warning: `foo` is already managed under /usr/local @1.2.3".into(),
        ))],
    );
    assert!(app.build_running(), "the warning does not end the build");
    let report = app
        .build_report
        .as_ref()
        .expect("a warning is readable while the build runs");
    assert!(report.lines.iter().any(|l| l.contains("already managed")));
    assert!(!report.failed, "a warning is not a failure");

    // A second warning grows the same panel; the scroll is not yanked back to
    // the top under a reader.
    app.report_scroll = 1;
    hear(&mut app, vec![other(BuildMsg::Warning("warning: `foo` is shadowed".into()))]);
    let report = app.build_report.as_ref().expect("still readable");
    assert_eq!(report.lines.len(), 2, "both warnings, in order");
    assert_eq!(
        app.report_scroll, 1,
        "a growing panel keeps the reader's place"
    );

    // And it is a warning, not a door: the build finishes on its own and the
    // final panel is the same record.
    hear(&mut app, vec![other(BuildMsg::Done(BuildOutcome::Success))]);
    assert!(app.job.is_none(), "the build ran to completion");
    let report = app.build_report.as_ref().expect("the record survives");
    assert_eq!(report.lines.len(), 2, "{:?}", report.lines);
}

/// A cancelled build's live warning panel does not outlive the job it belonged
/// to.
#[test]
fn a_cancelled_build_leaves_no_stale_warning_panel() {
    let mut app = app();
    start(&mut app, BuildKind::Install);
    hear(&mut app, vec![other(BuildMsg::Warning("warning: `foo` is already managed".into()))]);
    assert!(app.build_report.is_some());
    hear(&mut app, vec![other(BuildMsg::Done(BuildOutcome::Cancelled))]);
    assert!(
        app.build_report.is_none(),
        "a cancelled build pins no panel, live or final"
    );
}

#[test]
fn captured_kinds_survive_to_the_person() {
    let mut app = app();
    start(&mut app, BuildKind::Install);
    // A notice becomes the live status, wins over the unit counter…
    hear(&mut app, vec![other(BuildMsg::Notice("waiting for the state lock…".into()))]);
    let gauge = app.build_progress(0).expect("job is running");
    assert!(
        gauge.contains("waiting for the state lock"),
        "a notice is the live truth of the moment: {gauge}"
    );
    // …and cargo speaking again supersedes it.
    hear(
        &mut app,
        vec![Delivered {
            msg: BuildMsg::Cargo("   Compiling serde v1.0.0".into()),
            event: BuildEvent::Compiling { name: "serde".into(), version: "1.0.0".into() },
        }],
    );
    let gauge = app.build_progress(0).expect("job is running");
    assert!(
        gauge.contains("1 unit") && !gauge.contains("1 units") && !gauge.contains("waiting"),
        "cargo's stream supersedes a stale notice: {gauge}"
    );

    // A warning survives a successful finish.
    hear(
        &mut app,
        vec![
            other(BuildMsg::Warning("`foo` is shadowed by /usr/bin/foo".into())),
            other(BuildMsg::Done(BuildOutcome::Success)),
        ],
    );
    assert!(app.job.is_none(), "the job is finished");
    let report = app
        .build_report
        .as_ref()
        .expect("warnings pin a report past a success");
    assert!(!report.failed);
    assert!(
        report.lines.iter().any(|l| l.contains("shadowed")),
        "the captured warning reaches the person: {:?}",
        report.lines
    );
}

/// The tail of a build keeps its end and no more.
#[test]
fn the_tail_is_bounded() {
    let mut app = app();
    start(&mut app, BuildKind::Install);
    let lines: Vec<Delivered> =
        (0..100).map(|i| other(BuildMsg::Cargo(format!("line {i}")))).collect();
    hear(&mut app, lines);
    let Some(Job::Build(job)) = &app.job else { panic!("still building") };
    assert_eq!(job.tail.len(), BUILD_TAIL);
    assert_eq!(job.tail.back().map(String::as_str), Some("line 99"));
    assert_eq!(job.tail.front().map(String::as_str), Some("line 60"));
}

/// The placement door waits for an answer; a second cancel kills, and the grace
/// is armed once.
#[test]
fn a_cancel_is_asked_answered_and_armed_once() {
    let mut app = app();
    start(&mut app, BuildKind::Install);
    hear(
        &mut app,
        vec![other(BuildMsg::NeedAuth {
            target: "/usr/local".into(),
            purpose: AuthPurpose::Placement,
        })],
    );
    assert!(matches!(&app.job, Some(Job::Build(b)) if b.needs_auth.is_some()));
    let c = Key { code: KeyCode::Char('c'), ctrl: false };
    assert!(matches!(app.on_key(c, 10), Flow::RequestCancel(CancelFor::Key)));
    app.cancel_answered(CancelFor::Key, ActiveCancel::Build(CancelOutcome::Accepted), 10);
    app.cancel_answered(CancelFor::Key, ActiveCancel::Build(CancelOutcome::Accepted), 500);
    assert!(matches!(&app.job, Some(Job::Build(b)) if b.cancel_deadline == Some(2010)));
    app.cancel_answered(CancelFor::Key, ActiveCancel::Build(CancelOutcome::Killed), 600);
    assert!(said(&app).contains("SIGKILL"), "{}", said(&app));
}

/// A worker that goes away without an answer is an error, not a silence.
#[test]
fn a_worker_that_vanishes_is_an_error() {
    let mut app = app();
    app.job = Some(Job::Verify { started: 0, cancel: false });
    let err = app.poll_job(JobEvent::Gone).err().unwrap();
    assert!(err.contains("verify worker aborted"), "{err}");
    let mut app = self::app();
    start(&mut app, BuildKind::Install);
    let err = app
        .poll_job(JobEvent::Build { heard: VecDeque::new(), gone: true })
        .err().unwrap();
    assert!(err.contains("build worker aborted"), "{err}");
    // And a quiet look changes nothing.
    let mut app = self::app();
    start(&mut app, BuildKind::Install);
    let flow = app
        .poll_job(JobEvent::Build { heard: VecDeque::new(), gone: false })
        .unwrap();
    assert!(matches!(flow, Flow::Done));
    assert!(app.build_running());
}

/// A build that succeeded re-reads the list before it speaks.
#[test]
fn a_finished_build_reads_the_list_again() {
    let mut app = app();
    start(&mut app, BuildKind::Install);
    let flow = app
        .poll_job(JobEvent::Build {
            heard: [other(BuildMsg::Done(BuildOutcome::Success))].into_iter().collect(),
            gone: false,
        })
        .unwrap();
    let Flow::Reload(after) = flow else { panic!("the list is stale") };
    assert!(matches!(&after, AfterReload::Build(f) if f.name == "foo"));
    let fresh = PrefixRead {
        report: Ok(None),
        manifest: ManifestRead::Loaded {
            manifest: Manifest {
                crates: vec![(
                    "foo".to_owned(),
                    Entry {
                        version: "1.0.0".into(),
                        bins: vec!["foo".into()],
                        locked: false,
                        pinned: false,
                        built_with_rustc: None,
                    },
                )],
            },
            also: Vec::new(),
        },
    };
    app.reloaded(after, fresh).unwrap();
    assert_eq!(app.rows.len(), 1);
    assert!(said(&app).contains("foo"), "{}", said(&app));
}

/// The members of a batch are heard one by one.
#[test]
fn a_batch_worker_is_heard_member_by_member() {
    let mut app = app();
    app.install_batch = Some(install_batch(2, BatchShape::List));
    start(&mut app, BuildKind::Install);
    hear(
        &mut app,
        vec![
            other(BuildMsg::MemberStarted { name: "a".into() }),
            other(BuildMsg::MemberDone { name: "a".into(), outcome: MemberOutcome::Installed }),
            other(BuildMsg::MemberStarted { name: "b".into() }),
            other(BuildMsg::MemberDone {
                name: "b".into(),
                outcome: MemberOutcome::Failed("boom".into()),
            }),
            other(BuildMsg::Done(BuildOutcome::Success)),
        ],
    );
    assert!(app.install_batch.is_none() && app.job.is_none());
    assert!(said(&app).contains("installed 1 of 2"), "{}", said(&app));
    let report = app.build_report.as_ref().expect("a failure is shown");
    assert!(report.failed && report.lines.iter().any(|l| l.contains("boom")));
}

/// A cancel that loses to placement still speaks for the members not yet
/// started.
#[test]
fn a_late_cancel_of_the_last_migration_stops_no_batch() {
    let mut app = app();
    app.migrate_batch = Some(migrate_batch(&[], 1, 0));
    start(
        &mut app,
        BuildKind::Migrate(MigrateTarget { version: "0.1.0".into(), dest: "/other".into() }),
    );
    let c = Key { code: KeyCode::Char('c'), ctrl: false };
    assert!(matches!(app.on_key(c, 0), Flow::RequestCancel(CancelFor::Key)));
    app.cancel_answered(CancelFor::Key, ActiveCancel::Build(CancelOutcome::TooLate), 0);
    assert_eq!(said(&app), "placement already started; too late to cancel");
}

#[test]
fn a_cancel_ends_a_migration_batch() {
    let mut app = app();
    app.migrate_batch = Some(migrate_batch(&["b", "c"], 3, 0));
    start(
        &mut app,
        BuildKind::Migrate(MigrateTarget { version: "0.1.0".into(), dest: "/other".into() }),
    );
    let c = Key { code: KeyCode::Char('c'), ctrl: false };
    assert!(matches!(app.on_key(c, 0), Flow::RequestCancel(CancelFor::Key)));
    app.cancel_answered(CancelFor::Key, ActiveCancel::Build(CancelOutcome::TooLate), 0);
    assert_eq!(
        said(&app),
        "placement already started for this crate; the batch stops after it"
    );
    hear(&mut app, vec![other(BuildMsg::Done(BuildOutcome::Migrated(v("0.1.0"))))]);
    assert!(app.migrate_batch.is_none() && app.pending_migrate.is_none());
    assert!(said(&app).contains("migrated 1 of 3"), "{}", said(&app));
    assert!(said(&app).contains("cancelled; 2 not attempted"), "{}", said(&app));
}
