//! The session: reloads, keys, jumps, offers, questions and in-place changes.
use cargo_lbin::app::keys::{parse_install_input, parse_search_input, Key, KeyCode};
use cargo_lbin::app::oneshot::Recorded;
use cargo_lbin::app::start::{
    authorize, credentials_checked, known_pair_dest, late_escalation_certain, preflight_escalation,
    pin_advice, prompted, AuthStep, Begun, BuildStart, Door, PinAdvice, Step,
};
use cargo_lbin::app::{
    format_elapsed, App, CancelFor, Flow, ManifestRead, PairFor, PrefixRead, Work,
    DOWNGRADE_CHOICES,
};
use cargo_lbin::batch::{
    migrate_sections, BatchRunner, MigrateBatch, MigrateSection, Preflight, StartOutcome,
};
use cargo_lbin::job::{ActiveControl, BuildIntent, BuildJob, BuildKind, Job, JobEvent, PendingBuild};
use cargo_lbin::ops::{tui_remove_one, tui_set_pinned, TuiRemove};
use cargo_lbin::state::{
    rows_from, ActiveCancel, BuildReport, CancelOutcome, Checked, Confirm, Entry, Filter, Hit,
    InputPurpose, Manifest, MessageKind, OnConfirm, PendingAction, PendingInPlace, PendingMigrate,
    ReinstallPlan, Report, RowStatus, SearchResult, UpdatePlan,
};
use cargo_lbin::validate::InstallSpec;
use cargo_lbin::version::Version;
use std::collections::VecDeque;

fn v(s: &str) -> Version {
    Version::parse(s).unwrap()
}

fn manifest(entries: &[(&str, &str, bool)]) -> Manifest {
    Manifest {
        crates: entries
            .iter()
            .map(|(name, version, pinned)| {
                (
                    (*name).to_owned(),
                    Entry {
                        version: (*version).to_owned(),
                        bins: vec![(*name).to_owned()],
                        locked: false,
                        pinned: *pinned,
                        built_with_rustc: None,
                    },
                )
            })
            .collect(),
    }
}

fn loaded(manifest: Manifest) -> PrefixRead {
    PrefixRead {
        report: Ok(None),
        manifest: ManifestRead::Loaded { manifest, also: Vec::new() },
    }
}

fn seeded(entries: &[(&str, &str, bool)]) -> PrefixRead {
    loaded(manifest(entries))
}

fn broken() -> PrefixRead {
    PrefixRead { report: Ok(None), manifest: ManifestRead::Refused("not json".to_owned()) }
}

fn locked() -> PrefixRead {
    PrefixRead { report: Ok(None), manifest: ManifestRead::Locked("lock held".to_owned()) }
}

fn app_with(entries: &[(&str, &str, bool)]) -> App {
    App::new("/p".to_owned(), seeded(entries)).unwrap()
}

fn key(code: KeyCode) -> Key {
    Key { code, ctrl: false }
}

fn press(app: &mut App, c: char) -> Flow {
    app.on_key(key(KeyCode::Char(c)), 0)
}

fn said(app: &App) -> String {
    app.message.as_ref().map(|m| m.text.clone()).unwrap_or_default()
}

fn building(name: &str) -> Job {
    Job::Build(BuildJob::new(name.to_owned(), BuildKind::Install, ActiveControl::Single, 0))
}

fn select(app: &mut App, name: &str) {
    let pos = app.visible().iter().position(|row| row.name == name).unwrap();
    app.selected = pos;
}

#[test]
fn a_pin_is_looked_up_in_the_manifest() {
    let m = manifest(&[("bar", "1.0.0", true), ("foo", "0.1.0", false)]);
    assert!(matches!(pin_advice(&m, "bar"), PinAdvice::Pinned));
    assert!(matches!(pin_advice(&m, "foo"), PinAdvice::Free));
    assert!(matches!(pin_advice(&m, "nope"), PinAdvice::Free), "what is not installed");
}

#[test]
fn install_input_mirrors_cli_shape() {
    assert_eq!(
        parse_install_input("ripgrep --locked bat").unwrap(),
        (vec!["ripgrep".to_owned(), "bat".to_owned()], true)
    );
    assert_eq!(
        parse_install_input("  fd  ").unwrap(),
        (vec!["fd".to_owned()], false)
    );
    assert!(parse_install_input("").is_err());
    assert!(parse_install_input("--locked").is_err());
    assert!(parse_install_input("../evil").is_err());
    // Versioned specs pass through as typed; requirements do not.
    assert_eq!(
        parse_install_input("bat@0.26.0").unwrap(),
        (vec!["bat@0.26.0".to_owned()], false)
    );
    assert!(parse_install_input("bat@^0.26").is_err());
    // One crate, two specs: refused before any build starts — including
    // identical tokens, which the command line refuses too.
    assert!(parse_install_input("bat bat@0.26.0").is_err());
    assert!(parse_install_input("bat@0.26.0 bat@0.25.0").is_err());
    assert!(parse_install_input("bat bat").is_err());
    assert!(parse_install_input("bat@0.26.0 bat@0.26.0").is_err());
}

#[test]
fn search_input_is_free_text() {
    assert_eq!(parse_search_input(" bat ").unwrap(), "bat");
    assert_eq!(
        parse_search_input("sched  ext\tscheduler").unwrap(),
        "sched ext scheduler"
    );
    assert!(parse_search_input("").is_err());
    assert!(parse_search_input("   ").is_err());
}

#[test]
fn a_search_line_is_normalized_once() {
    let once = parse_search_input("  sched \t ext\u{3000}scheduler ").unwrap();
    assert_eq!(once, "sched ext scheduler");
    assert_eq!(parse_search_input(&once).unwrap(), once);
}

#[test]
fn elapsed_formats_like_a_clock() {
    assert_eq!(format_elapsed(0), "00:00");
    assert_eq!(format_elapsed(97), "01:37");
    assert_eq!(format_elapsed(59 * 60 + 59), "59:59");
    assert_eq!(format_elapsed(3600), "1:00:00");
    assert_eq!(format_elapsed(3600 + 65), "1:01:05");
}

#[test]
fn the_grace_timer_is_one_shot_and_fires_only_past_the_deadline() {
    let mut app = app_with(&[]);
    let mut job =
        BuildJob::new("foo".to_owned(), BuildKind::Install, ActiveControl::Single, 0);
    job.cancel_deadline = Some(60_000);
    app.job = Some(Job::Build(job));

    // Not due: the deadline stays armed and nothing is escalated.
    assert!(matches!(app.tick(59_999), Flow::Done));
    assert!(matches!(&app.job, Some(Job::Build(b)) if b.cancel_deadline.is_some()));

    // Due: fires once and disarms itself.
    assert!(matches!(app.tick(60_001), Flow::RequestCancel(CancelFor::Overdue)));
    assert!(matches!(&app.job, Some(Job::Build(b)) if b.cancel_deadline.is_none()));
    app.cancel_answered(
        CancelFor::Overdue,
        ActiveCancel::Build(CancelOutcome::AlreadyStopping),
        60_001,
    );
    // One-shot: a second pass finds nothing armed and does nothing.
    assert!(matches!(app.tick(90_000), Flow::Done));
}

#[test]
fn a_jump_swaps_reloads_and_the_selection_follows_the_name() {
    // foo is pinned here and unpinned there: the asymmetry is what makes the
    // filter case below test the branch it claims to.
    let here: &[(&str, &str, bool)] = &[("alpha", "0.1.0", false), ("foo", "0.1.0", true)];
    let there: &[(&str, &str, bool)] = &[("foo", "0.1.0", false), ("zeta", "0.1.0", false)];
    let mut app = App::new("/here".to_owned(), seeded(here)).unwrap();
    // Select foo on this side…
    select(&mut app, "foo");
    let Flow::Reload(after) = app.jump_to_prefix("/there".to_owned()) else {
        panic!("a jump reads the other prefix")
    };
    app.reloaded(after, seeded(there)).unwrap();
    assert_eq!(app.prefix, "/there", "the jump committed");
    // …and the selection followed it to the other side.
    assert_eq!(
        app.selected_row().map(|row| row.name.as_str()),
        Some("foo"),
        "the selection follows the crate by name"
    );
    // A name with no counterpart falls back to the top.
    select(&mut app, "zeta");
    let Flow::Reload(after) = app.jump_to_prefix("/here".to_owned()) else {
        panic!("a jump reads the other prefix")
    };
    app.reloaded(after, seeded(here)).unwrap();
    assert_eq!(app.prefix, "/here");
    assert_eq!(app.selected, 0, "no counterpart: back to the top");
    // Visible, not merely existing: the filter goes on first and the position
    // is found under it; foo is visible-here-hidden-there by the seeding above.
    app.filter = Filter::Pinned;
    select(&mut app, "foo");
    assert_eq!(app.selected_name().as_deref(), Some("foo"));
    let Flow::Reload(after) = app.jump_to_prefix("/there".to_owned()) else {
        panic!("a jump reads the other prefix")
    };
    app.reloaded(after, seeded(there)).unwrap();
    assert_eq!(app.prefix, "/there");
    assert_eq!(
        app.selected, 0,
        "foo exists there but is not visible under Pinned"
    );
}

/// The offer is a value for a chosen action: it lands, a digit answers it, and
/// what leaves the panel is a build.
#[test]
fn a_downgrade_offer_turns_one_keypress_into_a_pinned_build() {
    let mut app = app_with(&[("foo", "1.2.0", false)]);
    app.finish_downgrade("foo".into(), "1.2.0".into(), vec![v("1.1.0"), v("1.0.0")]);
    let choice = app.downgrade_choice.as_ref().expect("the offer is up");
    assert_eq!(choice.versions, vec![v("1.1.0"), v("1.0.0")]);
    assert_eq!(choice.older, 0, "nothing withheld, nothing to announce");

    app.pick_downgrade(0);
    let req = app.pending_build.as_ref().expect("a build was requested");
    assert_eq!(req.spec, "foo@1.1.0", "that exact version, nothing else");
    assert!(
        matches!(&req.intent, BuildIntent::Downgrade(from) if from == "1.2.0"),
        "and the premise travels with it, to be checked under the lock"
    );
    assert!(
        app.downgrade_choice.is_none(),
        "an answered offer leaves the panel"
    );
}

/// Nothing older is an answer, not an empty panel; and a long history is capped
/// at what a digit can name, with the remainder announced.
#[test]
fn the_offer_is_capped_and_an_empty_one_is_a_message() {
    let mut app = app_with(&[("foo", "1.2.0", false)]);
    app.finish_downgrade("foo".into(), "1.2.0".into(), Vec::new());
    assert!(
        app.downgrade_choice.is_none(),
        "no candidates, no panel to dismiss"
    );
    assert!(app.message.is_some());

    let many: Vec<Version> = (0..12).map(|i| v(&format!("1.0.{i}"))).collect();
    app.finish_downgrade("foo".into(), "1.2.0".into(), many);
    let choice = app.downgrade_choice.as_ref().unwrap();
    assert_eq!(choice.versions.len(), DOWNGRADE_CHOICES, "one digit each");
    assert_eq!(choice.older, 3, "and the rest is said out loud");
}

/// Single flight, checked where the build is requested and not only where the
/// offer began.
#[test]
fn an_offer_answered_during_another_job_starts_nothing() {
    let mut app = app_with(&[("foo", "1.2.0", false)]);
    app.finish_downgrade("foo".into(), "1.2.0".into(), vec![v("1.1.0")]);

    // `v` after the lookup finished: legal, and the offer is still up.
    app.job = Some(Job::Verify { started: 0, cancel: false });
    app.pick_downgrade(0);
    assert!(
        app.pending_build.is_none(),
        "no build is queued over a running job"
    );
    assert!(
        matches!(app.job, Some(Job::Verify { .. })),
        "and the running job is untouched"
    );

    // With the job done, the same keypress works.
    app.job = None;
    app.pick_downgrade(0);
    assert!(app.pending_build.is_some(), "the offer still answers later");
}

/// A prefix spelled one level too deep is worth a word, but never over a word
/// that matters more.
#[test]
fn the_prefix_note_never_overwrites_a_startup_message() {
    let note = "the prefix ends in `bin`";
    // A clean start: the note lands, because nothing else claimed the line.
    let mut app = app_with(&[]);
    assert!(app.message.is_none(), "a clean reload says nothing");
    app.note_prefix(Some(note));
    assert!(said(&app).contains("ends in `bin`"), "{}", said(&app));

    // A manifest the loader refuses: that message stays.
    let mut app = App::new("/p/bin".to_owned(), broken()).unwrap();
    let degraded = said(&app);
    assert!(!degraded.is_empty(), "a broken manifest reports itself");
    app.note_prefix(Some(note));
    assert_eq!(said(&app), degraded, "the degraded notice outranks a spelling remark");
}

/// The preflight asks only for what cannot wait: this prefix's first lock.
#[test]
fn the_preflight_asks_only_where_the_placement_door_cannot() {
    // A writable prefix escalates for nothing at all, whatever its lock is.
    for first_lock in [true, false] {
        assert!(
            matches!(
                preflight_escalation(Ok(false), first_lock),
                AuthStep::Answer(Preflight::Ready)
            ),
            "a user-writable prefix needs no password anywhere"
        );
    }
    // A lock this user can make is not a reason to ask up front.
    assert!(matches!(
        preflight_escalation(Ok(true), false),
        AuthStep::Answer(Preflight::Ready)
    ));
    assert!(matches!(preflight_escalation(Ok(true), true), AuthStep::Check));
    assert!(matches!(
        preflight_escalation(Err("no stat".to_owned()), true),
        AuthStep::Answer(Preflight::Reported(e)) if e.contains("no stat")
    ));
}

/// Credentials are looked at, asked for once, and looked at again.
#[test]
fn credentials_are_asked_for_once() {
    assert!(matches!(authorize(false), AuthStep::Answer(Preflight::Ready)));
    assert!(matches!(authorize(true), AuthStep::Check));
    assert!(matches!(
        credentials_checked(Ok(true), false),
        AuthStep::Answer(Preflight::Ready)
    ));
    assert!(matches!(credentials_checked(Ok(false), false), AuthStep::Prompt));
    assert!(matches!(prompted(Ok(())), AuthStep::CheckAgain));
    assert!(matches!(
        prompted(Err("wrong password".to_owned())),
        AuthStep::Answer(Preflight::Reported(_))
    ));
    assert!(matches!(
        credentials_checked(Ok(false), true),
        AuthStep::Answer(Preflight::NoCache)
    ));
}

/// The heads-up is made only where it can be kept: the source needs privilege
/// and the destination does not.
#[test]
fn a_late_escalation_is_announced_only_when_it_is_certain() {
    assert!(!late_escalation_certain(&Ok(false), &Ok(false)));
    assert!(late_escalation_certain(&Ok(true), &Ok(false)));
    assert!(!late_escalation_certain(&Ok(true), &Ok(true)));
    assert!(!late_escalation_certain(&Ok(false), &Ok(true)));
}

/// `t` asks for a rebuild of the entry and nothing else: the request carries a
/// bare name.
#[test]
fn a_reinstall_key_queues_the_entry_not_a_version() {
    let mut m = manifest(&[("foo", "1.2.0", true)]);
    m.crates[0].1.locked = true;
    let mut app = App::new("/p".to_owned(), loaded(m)).unwrap();
    app.start_reinstall();
    let req = app.pending_build.as_ref().expect("a build was requested");
    assert_eq!(req.spec, "foo", "a name, with no version attached");
    assert!(matches!(req.intent, BuildIntent::Reinstall));
    assert!(
        !req.spec.contains('@'),
        "the entry's version is not restated into the request: {}",
        req.spec
    );
    assert_eq!(BuildKind::Reinstall.verb(), "reinstall");

    // And it refuses while something else is running, like every other mutation
    // started from the list.
    app.pending_build = None;
    app.job = Some(Job::Verify { started: 0, cancel: false });
    app.start_reinstall();
    assert!(app.pending_build.is_none(), "no build is queued over a job");
}

fn request(spec: &str, intent: BuildIntent) -> PendingBuild {
    PendingBuild { spec: spec.to_owned(), locked: false, intent }
}

/// A pin is what `t` preserves, so it cannot be what stops `t`. The refusal
/// belongs to `install NAME`.
#[test]
fn a_pin_refuses_an_install_and_lets_a_rebuild_through() {
    let mut app = app_with(&[("foo", "1.2.0", true)]);
    let BuildStart::LookUpPin(spec) = app.start_build(&request("foo", BuildIntent::Install)) else {
        panic!("an install asks about the pin")
    };
    let BuildStart::Refused(reason) = app.pin_looked_up(spec, PinAdvice::Pinned) else {
        panic!("`install foo` would move a pinned crate off its version")
    };
    assert!(reason.contains("pinned"), "and the reason travels with the refusal: {reason}");
    assert!(
        matches!(
            app.start_build(&request("foo", BuildIntent::Reinstall)),
            BuildStart::Preflight(_)
        ),
        "but `t` keeps that very version — the pin is not a reason to refuse"
    );
    assert!(
        matches!(
            app.start_build(&request("foo@1.1.0", BuildIntent::Downgrade("1.2.0".to_owned()))),
            BuildStart::Preflight(_)
        ),
        "and a downgrade names the version it wants"
    );
    // An unpinned crate refuses nothing.
    let BuildStart::LookUpPin(spec) = app.start_build(&request("bar", BuildIntent::Install)) else {
        panic!("an install asks about the pin")
    };
    assert!(matches!(
        app.pin_looked_up(spec, PinAdvice::Free),
        BuildStart::Preflight(_)
    ));
}

/// Every way a build can fail to start says so, and schedules nothing.
#[test]
fn a_build_that_does_not_start_says_why() {
    let mut app = app_with(&[("foo", "1.2.0", true)]);
    let BuildStart::LookUpPin(spec) = app.start_build(&request("foo", BuildIntent::Install)) else {
        panic!("an install asks about the pin")
    };
    let BuildStart::Refused(reason) = app.pin_looked_up(spec, PinAdvice::Pinned) else {
        panic!("a pinned crate refuses a bare install")
    };
    assert!(reason.contains("pinned"), "{reason}");
    assert!(
        app.message.is_none(),
        "and it is not shown here: the caller decides where it lands"
    );
    assert!(
        app.pending.is_none(),
        "a refusal is not a handover in disguise"
    );
}

/// A build that may start becomes the job, and the worker learns which door it
/// goes through.
#[test]
fn a_started_build_owns_the_job_slot() {
    let mut app = app_with(&[("foo", "1.2.0", false)]);
    let spec = InstallSpec::parse("foo@1.1.0").unwrap();
    let req = request("foo@1.1.0", BuildIntent::Downgrade("1.2.0".to_owned()));
    let Begun::Worker { spec, door } = app.build_preflighted(req, spec, Preflight::Ready, 7) else {
        panic!("nothing stands in the way")
    };
    assert_eq!(spec.name, "foo");
    assert!(matches!(
        door,
        Door::Downgrade { expected, version } if expected == "1.2.0" && version == v("1.1.0")
    ));
    assert!(app.build_running());

    // Without a credential cache the terminal takes over.
    let mut app = app_with(&[("foo", "1.2.0", false)]);
    let spec = InstallSpec::parse("foo").unwrap();
    let begun =
        app.build_preflighted(request("foo", BuildIntent::Reinstall), spec, Preflight::NoCache, 7);
    let Begun::Not(outcome) = begun else { panic!("nothing was started") };
    assert!(matches!(
        &outcome,
        StartOutcome::NeedsTerminal { action: PendingAction::Reinstall(name), .. } if name == "foo"
    ));
    assert!(!app.build_running());
    app.take_outcome(outcome);
    assert!(matches!(app.next_step(), Step::Terminal(PendingAction::Reinstall(_))));
}

/// The interface asks for a batch and starts nothing itself.
#[test]
fn a_multi_crate_install_line_asks_for_one_operation() {
    let mut app = app_with(&[]);
    app.submit_input(InputPurpose::Install, "foo bar baz --locked");
    let (crates, locked) = app.pending_install_batch.take().expect("the batch is requested");
    assert_eq!(crates, vec!["foo", "bar", "baz"], "in the order typed");
    assert!(locked, "and the line's flag belongs to the whole plan");
    assert!(
        app.pending_build.is_none() && app.pending.is_none(),
        "no single build, no handoff"
    );

    // One crate is still one build, not a batch of one.
    app.submit_input(InputPurpose::Install, "solo");
    assert!(app.pending_install_batch.is_none());
    assert_eq!(app.pending_build.take().map(|r| r.spec).as_deref(), Some("solo"));
}

/// `u` plans before it asks, and asks before it builds.
#[test]
fn an_update_plans_then_asks_then_builds() {
    let mut app = app_with(&[]);
    // Up to date: an answer, not a build.
    app.finish_update_plan("foo".to_owned(), UpdatePlan::UpToDate { current: "1.0.0".to_owned() });
    assert!(app.confirm.is_none(), "nothing to ask about");
    assert!(
        said(&app).contains("is up to date"),
        "not \"newest release\", which would overstate it"
    );

    // Outdated: the plan is the question, and it shows both ends.
    app.finish_update_plan(
        "foo".to_owned(),
        UpdatePlan::Outdated { current: "1.0.0".to_owned(), latest: v("2.0.0") },
    );
    let confirm = app.confirm.as_ref().expect("the plan is asked about");
    assert!(confirm.prompt.contains("foo 1.0.0 -> 2.0.0"), "{}", confirm.prompt);

    // Answered: the build carries the premise and nothing else.
    app.on_key_confirm(KeyCode::Char('y'));
    let req = app.pending_build.take().expect("a build was requested");
    assert_eq!(req.spec, "foo");
    assert!(matches!(req.intent, BuildIntent::Update { expected } if expected == "1.0.0"));
    assert!(app.pending.is_none(), "and nothing goes to the terminal");
}

/// A lookup is a one-shot, and the interface says so.
#[test]
fn an_update_lookup_is_a_cancellable_one_shot() {
    let mut app = app_with(&[]);
    app.job = Some(Job::UpdatePlan { name: "foo".to_owned(), cancel: false });
    assert!(app.oneshot_running(), "the footer offers a cancel door");
    assert!(app.anything_running(), "and mutations wait");
    let label = app.job.as_ref().expect("a job").label();
    assert!(
        label.contains("update to `foo`"),
        "which lookup, in its own words: {label}"
    );
}

fn rebuild_plan(names: &[&str]) -> Vec<(String, ReinstallPlan)> {
    names
        .iter()
        .map(|name| {
            (
                (*name).to_owned(),
                ReinstallPlan { version: v("1.0.0"), pinned: false, locked: false },
            )
        })
        .collect()
}

/// `T` reads the prefix, asks about the whole of it, and only then sweeps.
#[test]
fn a_sweep_asks_about_the_prefix_not_the_view() {
    let mut app = app_with(&[]);
    // An empty prefix is an answer, not a question.
    app.finish_reinstall_plan(Vec::new());
    assert!(app.confirm.is_none());
    assert!(said(&app).contains("nothing installed"));

    app.finish_reinstall_plan(rebuild_plan(&["foo", "bar"]));
    // The plan is shown, not summarised.
    let shown = app.build_report.as_ref().expect("the plan is on screen");
    assert_eq!(shown.lines.len(), 2, "one line per member: {:?}", shown.lines);
    assert!(
        shown.lines.iter().any(|l| l.contains("foo 1.0.0")),
        "with what will be rebuilt: {:?}",
        shown.lines
    );
    let confirm = app.confirm.as_ref().expect("the sweep asks first");
    assert!(
        confirm.prompt.contains("all 2 managed crate(s)"),
        "the set is named by what it is: {}",
        confirm.prompt
    );
    assert!(
        !confirm.prompt.contains("listed"),
        "not by what the view shows: {}",
        confirm.prompt
    );

    // Answered: queued for the run loop.
    app.on_key_confirm(KeyCode::Char('y'));
    assert_eq!(
        app.pending_reinstall_sweep.as_ref().map(Vec::len),
        Some(2),
        "the confirmed snapshot travels, not a fresh one"
    );
    assert!(app.pending.is_none(), "and no handoff");
    assert!(
        app.build_report.is_none(),
        "and the question's panel goes with the question"
    );
}

/// A plan longer than the panel must be readable before it is answered.
#[test]
fn a_pinned_plan_can_be_read_before_it_is_answered() {
    let mut app = app_with(&[]);
    let names: Vec<String> = (0..30).map(|i| format!("crate{i}")).collect();
    let refs: Vec<&str> = names.iter().map(String::as_str).collect();
    app.finish_reinstall_plan(rebuild_plan(&refs));
    // The renderer writes the bound back each frame; stand in for it.
    app.report_scroll_max = 20;

    app.on_key(key(KeyCode::Down), 0);
    assert_eq!(app.report_scroll, 1, "the arrows reach the plan");
    assert!(app.confirm.is_some(), "and the question is still waiting");
    assert!(
        app.pending_reinstall_sweep.is_none(),
        "scrolling is not answering"
    );
    app.on_key(key(KeyCode::End), 0);
    assert_eq!(app.report_scroll, 20, "the tail is reachable");

    // And the answer still carries the snapshot that was shown.
    press(&mut app, 'y');
    assert_eq!(app.pending_reinstall_sweep.as_ref().map(Vec::len), Some(30));
}

fn checked(list: &[(&str, &str)]) -> Vec<Checked> {
    list.iter()
        .map(|(name, latest)| Checked {
            name: (*name).to_owned(),
            current: v("1.0.0"),
            latest: v(latest),
        })
        .collect()
}

/// `U` leaves an update check behind and asks about what it found.
#[test]
fn an_update_sweep_reports_what_it_checked_and_plans_what_it_may() {
    let entries: &[(&str, &str, bool)] =
        &[("bar", "1.0.0", false), ("foo", "1.0.0", false), ("held", "1.0.0", true)];
    let mut app = app_with(entries);
    let found = [("foo", "2.0.0"), ("bar", "1.0.0"), ("held", "2.0.0")];
    let Flow::Record { checked: kept, sweep } = app.finish_check(Ok(Some(checked(&found))), true)
    else {
        panic!("a check is recorded")
    };
    assert!(sweep);
    app.check_recorded(
        sweep,
        Recorded::Made {
            report: Report { age: 0, checked: kept },
            persisted: Ok(()),
            manifest: ManifestRead::Loaded { manifest: manifest(entries), also: Vec::new() },
        },
    );

    // Every checked crate now has a status, pinned included.
    assert!(
        app.rows.iter().all(|r| !matches!(r.status, RowStatus::Unknown)),
        "the check it just ran is what the list shows"
    );
    // And the plan is the unpinned outdated ones.
    let plan = app.build_report.as_ref().expect("a plan is shown");
    assert!(
        plan.lines.iter().any(|l| l.contains("foo 1.0.0 -> 2.0.0")),
        "{:?}",
        plan.lines
    );
    assert!(
        !plan.lines.iter().any(|l| l.contains("held")),
        "a pin is a standing instruction, not a gap: {:?}",
        plan.lines
    );
    assert!(
        plan.title.contains("1 pinned held back"),
        "and the backlog is named: {}",
        plan.title
    );
    let confirm = app.confirm.as_ref().expect("and a question");
    assert!(confirm.owns_report(), "which owns that panel");
    app.on_key_confirm(KeyCode::Char('y'));
    let sweep = app.pending_update_sweep.as_ref().expect("the sweep is queued");
    assert_eq!(sweep.len(), 1);
    assert_eq!(sweep[0].name, "foo");
}

/// Where no password is needed there is no detour at all: the work happens
/// where the key was pressed.
#[test]
fn a_writable_prefix_mutates_without_a_detour() {
    let mut disk = manifest(&[("foo", "1.2.0", false)]);
    let mut app = app_with(&[("foo", "1.2.0", false)]);
    app.confirm = Some(Confirm::new("remove foo?", OnConfirm::Remove { name: "foo".into() }));
    let Flow::ProbePrivilege(op) = app.on_key_confirm(KeyCode::Char('y')) else {
        panic!("the prefix is asked what it needs")
    };
    let Flow::Apply(PendingInPlace::Remove(name)) = app.privilege_probed(op, Ok(false)) else {
        panic!("writable: the removal happens here")
    };
    assert!(app.pending_in_place.is_none(), "nothing to authorize");
    assert!(app.pending.is_none(), "and the terminal stays where it is");
    let result = tui_remove_one(&mut disk, &name);
    assert!(disk.crates.is_empty(), "the removal happened in place");
    assert!(matches!(app.remove_applied(name, result), Flow::Reload(_)));

    // Where a password is needed the operation travels whole.
    let mut app = app_with(&[("foo", "1.2.0", false)]);
    app.confirm = Some(Confirm::new("remove foo?", OnConfirm::Remove { name: "foo".into() }));
    let Flow::ProbePrivilege(op) = app.on_key_confirm(KeyCode::Char('y')) else {
        panic!("the prefix is asked what it needs")
    };
    assert!(matches!(app.privilege_probed(op, Ok(true)), Flow::Done));
    assert!(matches!(app.next_step(), Step::InPlace(PendingInPlace::Remove(n)) if n == "foo"));
}

/// A check that did not happen plans nothing.
#[test]
fn a_cancelled_or_failed_check_asks_nothing() {
    let mut app = app_with(&[("foo", "1.0.0", false)]);
    // A previous check left `foo` looking outdated.
    app.rows[0].status = RowStatus::Outdated(v("2.0.0"));

    assert!(matches!(app.finish_check(Ok(None), true), Flow::Done));
    assert!(app.confirm.is_none(), "a cancelled check asks nothing");
    assert!(app.build_report.is_none(), "and shows no plan");

    assert!(matches!(
        app.finish_check(Err("network down".to_owned()), true),
        Flow::Done
    ));
    assert!(app.confirm.is_none(), "nor does a failed one");
    assert!(app.build_report.is_none());
    assert!(said(&app).contains("network down"), "which says why");
}

/// A panel belongs to whoever pinned it.
#[test]
fn an_unrelated_question_does_not_own_the_panel() {
    let mut app = app_with(&[("foo", "1.0.0", false)]);
    // An earlier build's report, still on screen.
    app.pin_report(BuildReport {
        title: "install: foo failed".to_owned(),
        lines: vec!["boom".to_owned()],
        failed: true,
    });
    app.report_scroll_max = 10;
    // …and an unrelated question on top of it.
    app.confirm =
        Some(Confirm::new("remove foo? [y/N]", OnConfirm::Remove { name: "foo".to_owned() }));

    app.on_key(key(KeyCode::Down), 0);
    assert_eq!(app.report_scroll, 0, "the arrows belong to the question");
    assert!(
        app.confirm.is_none(),
        "which read the key as an answer, as it always has"
    );
    assert!(
        app.build_report.is_some(),
        "and the panel it never owned is still there"
    );
}

/// A pinned crate is downgraded like any other.
#[test]
fn a_pinned_crate_is_offered_the_list_like_any_other() {
    let mut app = app_with(&[("foo", "1.2.0", true)]);
    app.finish_downgrade("foo".into(), "1.2.0".into(), vec![v("1.1.0")]);
    assert!(
        app.downgrade_choice.is_some(),
        "a pin is restated by naming a version, not a reason to refuse"
    );
    app.pick_downgrade(0);
    let req = app.pending_build.as_ref().expect("the build is requested");
    assert_eq!(req.spec, "foo@1.1.0");
}

#[test]
fn a_jump_refuses_while_anything_runs_and_lands_degraded_on_a_broken_manifest() {
    let mut app = App::new("/here".to_owned(), seeded(&[])).unwrap();
    // Guarded: with a job alive the prefix stays put.
    app.job = Some(building("foo"));
    assert!(matches!(app.jump_to_prefix("/broken".to_owned()), Flow::Done));
    assert_eq!(app.prefix, "/here", "a live job holds the prefix in place");
    app.job = None;

    // A broken manifest does not bounce the jump: the landing is degraded — the
    // person may be jumping there to press v.
    app.search_result = Some(SearchResult {
        query: "foo".into(),
        hits: Vec::new(),
        installed: Vec::new(),
    });
    let Flow::Reload(after) = app.jump_to_prefix("/broken".to_owned()) else {
        panic!("a jump reads the other prefix")
    };
    app.reloaded(after, broken()).unwrap();
    assert_eq!(app.prefix, "/broken", "the jump commits — degraded, not refused");
    assert!(
        app.manifest_error.is_some(),
        "the landing remembers why the list is empty"
    );
    assert!(app.visible().is_empty());
    assert!(
        app.search_result.is_none(),
        "a committed jump drops the old prefix's panel"
    );
}

/// A jump that finds the lock refused goes back where it came from.
#[test]
fn a_jump_that_cannot_read_goes_back() {
    let here: &[(&str, &str, bool)] = &[("foo", "0.1.0", false)];
    let mut app = App::new("/here".to_owned(), seeded(here)).unwrap();
    let Flow::Reload(after) = app.jump_to_prefix("/there".to_owned()) else {
        panic!("a jump reads the other prefix")
    };
    let Flow::Reload(back) = app.reloaded(after, locked()).unwrap() else {
        panic!("the old prefix is read again")
    };
    app.reloaded(back, seeded(here)).unwrap();
    assert_eq!(app.prefix, "/here");
    assert_eq!(app.rows.len(), 1);
    assert!(said(&app).contains("lock held"), "{}", said(&app));
}

fn migrating(name: &str) -> MigrateBatch {
    let mut runner: BatchRunner<PendingMigrate, MigrateSection> =
        BatchRunner::new(VecDeque::new(), &migrate_sections());
    runner.total = 1;
    MigrateBatch { dest: name.to_owned(), runner, stopping: false }
}

#[test]
fn a_confirmed_remove_runs_in_place_when_no_privilege_is_needed() {
    let mut disk = manifest(&[("bar", "0.1.0", false), ("foo", "0.1.0", false)]);
    let mut app = app_with(&[("bar", "0.1.0", false), ("foo", "0.1.0", false)]);
    let ask = |app: &mut App, name: &str| {
        app.confirm =
            Some(Confirm::new("remove?", OnConfirm::Remove { name: name.to_owned() }));
        app.on_key_confirm(KeyCode::Char('y'))
    };
    let Flow::ProbePrivilege(op) = ask(&mut app, "foo") else {
        panic!("the prefix is asked what it needs")
    };
    let Flow::Apply(PendingInPlace::Remove(name)) = app.privilege_probed(op, Ok(false)) else {
        panic!("the removal happens here")
    };
    let result = tui_remove_one(&mut disk, &name);
    let Flow::Reload(after) = app.remove_applied(name, result) else {
        panic!("a removal re-reads the list")
    };
    app.reloaded(after, loaded(disk)).unwrap();
    assert!(app.pending.is_none(), "no handoff for a passwordless prefix");
    assert!(
        app.visible().iter().all(|row| row.name != "foo"),
        "the row is gone from the reloaded list"
    );
    let text = app.message.take().expect("the removal reports itself").text;
    assert!(text.contains("removed foo"), "the interface owns the words: {text}");

    // Mid-job the confirm is reachable, so the in-place path refuses for
    // itself.
    app.job = Some(building("bar"));
    assert!(
        matches!(ask(&mut app, "bar"), Flow::Done),
        "a running job holds every in-place mutation off the prefix"
    );
    app.job = None;
    app.message = None;

    // A batch between members has an empty job slot and a live queue.
    app.migrate_batch = Some(migrating("/elsewhere"));
    assert!(
        matches!(ask(&mut app, "bar"), Flow::Done),
        "a batch with an empty job slot still holds the prefix"
    );
    app.migrate_batch = None;
    app.message = None;

    // A held lock is an answer, not a wait.
    let Flow::ProbePrivilege(op) = ask(&mut app, "bar") else {
        panic!("the prefix is asked what it needs")
    };
    let Flow::Apply(PendingInPlace::Remove(name)) = app.privilege_probed(op, Ok(false)) else {
        panic!("the removal happens here")
    };
    assert!(matches!(
        app.remove_applied(name, Ok(TuiRemove::PrefixBusy)),
        Flow::Done
    ));
    let text = app.message.take().expect("the refusal reports itself").text;
    assert!(text.contains("busy"), "named as busy: {text}");
    assert!(
        app.visible().iter().any(|row| row.name == "bar"),
        "the row survives the refusal"
    );
}

#[test]
fn a_pin_flips_in_place_when_no_privilege_is_needed() {
    let mut disk = manifest(&[("foo", "0.1.0", false)]);
    let mut app = app_with(&[("foo", "0.1.0", false)]);
    app.selected = 0;
    let flip = |app: &mut App, disk: &mut Manifest| {
        let Flow::ProbePrivilege(op) = press(app, 'p') else {
            panic!("the prefix is asked what it needs")
        };
        let Flow::Apply(PendingInPlace::SetPinned { name, pinned }) =
            app.privilege_probed(op, Ok(false))
        else {
            panic!("the pin happens here")
        };
        let result = tui_set_pinned(disk, &name, pinned);
        let Flow::Reload(after) = app.pin_applied(name, pinned, result) else {
            panic!("a pin re-reads the list")
        };
        let now = disk.crates[0].1.pinned;
        app.reloaded(after, seeded(&[("foo", "0.1.0", now)])).unwrap();
    };

    flip(&mut app, &mut disk);
    assert!(disk.crates[0].1.pinned, "the pin is committed");
    assert!(app.pending.is_none(), "no handoff for a passwordless prefix");
    assert!(
        app.selected_row().is_some_and(|row| row.pinned),
        "the reloaded row agrees"
    );
    assert!(said(&app).contains("pinned foo at 0.1.0"), "{}", said(&app));

    // And back: the same key is its own inverse.
    flip(&mut app, &mut disk);
    assert!(!disk.crates[0].1.pinned, "the unpin is committed");
    assert!(said(&app).contains("unpinned foo"), "{}", said(&app));

    // A stale row: the manifest moved underneath, so the flip finds itself
    // already answered.
    disk.crates[0].1.pinned = true;
    flip(&mut app, &mut disk);
    assert!(said(&app).contains("already pinned"), "{}", said(&app));
    assert!(disk.crates[0].1.pinned, "already answered: nothing flips");
    assert!(
        app.selected_row().is_some_and(|row| row.pinned),
        "the reloaded row shows the state that stands"
    );
}

#[test]
fn a_broken_manifest_degrades_the_session_instead_of_ending_it() {
    // The refusal is a state to present — dying here would take the v key with
    // it.
    let mut app = App::new("/p".to_owned(), broken()).expect("degraded, not dead");
    assert!(app.manifest_error.is_some());
    assert!(app.rows.is_empty());

    // Mutating keys are refused with the reason.
    press(&mut app, 'u');
    assert!(app.confirm.is_none() && app.input.is_none());
    assert!(said(&app).contains("repair"), "the refusal names the way out: {}", said(&app));

    // v stays reachable — the whole point of degrading.
    assert!(matches!(press(&mut app, 'v'), Flow::Start(Work::Verify)));
    assert!(
        app.busy().is_some(),
        "the audit runs from the degraded state"
    );

    // ...and so is its cancel door.
    press(&mut app, 'c');
    assert!(
        matches!(app.job, Some(Job::Verify { cancel: true, .. })),
        "c reached the running verify in the degraded session"
    );
    app.job = None;

    // ? opens the degraded page.
    press(&mut app, '?');
    assert!(app.show_help, "help is one of the keys that still work");
    app.on_key(key(KeyCode::Esc), 0);
    assert!(!app.show_help);

    // B stays reachable too: the jump is how one leaves a broken prefix.
    assert!(matches!(press(&mut app, 'B'), Flow::FindPair(PairFor::Jump)));
    app.pair_found(PairFor::Jump, None);
    assert!(!said(&app).contains("repair"), "B was let through: {}", said(&app));

    // Hand-repair, then r retries the load and the session recovers.
    let Flow::Reload(after) = press(&mut app, 'r') else {
        panic!("r reads the prefix again")
    };
    app.reloaded(after, seeded(&[])).unwrap();
    assert!(app.manifest_error.is_none(), "{:?}", app.manifest_error);
    assert!(said(&app).contains("loads again"), "recovery is announced: {}", said(&app));
}

#[test]
fn a_mid_session_breakage_never_reports_an_invented_zero() {
    let mut app = app_with(&[]);
    assert!(app.manifest_error.is_none());
    // r is a check while healthy; its reload lands degraded and must not say
    // "nothing installed": the count is unknown, not zero.
    let Flow::Reload(after) = press(&mut app, 'r') else {
        panic!("r reads the prefix again")
    };
    app.reloaded(after, broken()).unwrap();
    assert!(app.manifest_error.is_some());
    let text = said(&app);
    assert!(
        !text.contains("nothing installed"),
        "the reload's honesty survived its caller: {text}"
    );
    assert!(text.contains("cannot be loaded"), "{text}");
}

#[test]
fn a_jump_into_degraded_announces_the_breakage_not_the_arrival() {
    let mut app = App::new("/here".to_owned(), seeded(&[])).unwrap();
    let Flow::Reload(after) = app.jump_to_prefix("/broken".to_owned()) else {
        panic!("a jump reads the other prefix")
    };
    app.reloaded(after, broken()).unwrap();
    assert_eq!(app.prefix, "/broken");
    let text = said(&app);
    assert!(
        !text.contains("now at"),
        "\"now at\" would bury the one thing worth knowing: {text}"
    );
    assert!(text.contains("cannot be loaded"), "{text}");
}

#[test]
fn the_report_scroll_stops_at_the_rendered_bound() {
    let mut app = app_with(&[]);
    app.pin_report(BuildReport {
        title: "x".into(),
        lines: vec!["l".into(); 40],
        failed: true,
    });
    app.report_scroll_max = 9; // what a draw of this report wrote back
    for _ in 0..50 {
        app.on_key(key(KeyCode::Down), 0);
    }
    assert_eq!(app.report_scroll, 9, "Down cannot outrun the bound");
    app.on_key(key(KeyCode::Up), 0);
    assert_eq!(app.report_scroll, 8, "Up answers on the first press");
    app.on_key(key(KeyCode::Home), 0);
    assert_eq!(app.report_scroll, 0);
    app.on_key(key(KeyCode::End), 0);
    assert_eq!(app.report_scroll, 9);
}

#[test]
fn build_running_answers_the_footer_truthfully() {
    let mut app = app_with(&[]);
    assert!(!app.build_running(), "no job, no cancel hint");
    app.job = Some(building("foo"));
    assert!(
        app.build_running(),
        "a running build earns the cancel hints"
    );
}

/// A session does not start over a lock that cannot be had, and a reload keeps
/// the selection on the list.
#[test]
fn a_reload_keeps_the_selection_in_view() {
    assert!(App::new("/p".to_owned(), locked()).is_err());
    let mut app = app_with(&[("a", "1.0.0", false), ("b", "1.0.0", false)]);
    app.select_next();
    assert_eq!(app.selected, 1);
    app.select_next();
    assert_eq!(app.selected, 1, "the end of the list is the end");
    app.reload(seeded(&[("a", "1.0.0", false)])).unwrap();
    assert_eq!(app.selected, 0);
    app.select_prev();
    assert_eq!(app.selected, 0);
    assert!(app.reload(locked()).is_err());
    assert_eq!(app.rows.len(), 1, "a refused lock leaves the rows alone");
}

/// The tabs count what their views show.
#[test]
fn the_tabs_count_what_their_views_show() {
    let mut app = app_with(&[("a", "1.0.0", false), ("b", "1.0.0", true), ("c", "1.0.0", true)]);
    app.rows[0].status = RowStatus::Outdated(v("2.0.0"));
    app.rows[1].status = RowStatus::Outdated(v("2.0.0"));
    assert_eq!(app.total(), 3);
    assert_eq!(app.updates_available(), 1);
    assert_eq!(app.pinned_count(), 2);
    assert_eq!(app.pinned_outdated(), 1);
    assert_eq!(app.not_checked(), 1);
    for (filter, count) in [(Filter::All, 3), (Filter::Updates, 1), (Filter::Pinned, 2)] {
        app.filter = filter;
        assert_eq!(app.visible().len(), count);
    }
}

/// A search shows what came back beside what is installed, and a digit turns a
/// hit into an install line.
#[test]
fn a_search_shows_hits_and_a_digit_opens_the_install_line() {
    let mut app = app_with(&[("bat", "0.25.0", false)]);
    assert!(matches!(
        app.start_search("cat".to_owned()),
        Flow::Start(Work::Search { query }) if query == "cat"
    ));
    let hits = vec![
        Hit { name: "bat".into(), version: "0.26.0".into(), description: "a cat".into() },
        Hit { name: "bcat".into(), version: "1.0.0".into(), description: "b".into() },
    ];
    let Flow::Reload(after) = app.poll_job(JobEvent::Found(Ok(hits))).unwrap() else {
        panic!("what is installed is read again")
    };
    app.reloaded(after, seeded(&[("bat", "0.25.0", false)])).unwrap();
    let found = app.search_result.as_ref().expect("the panel is up");
    assert_eq!(found.hits.len(), 2);
    assert_eq!(found.installed, vec![("bat".to_owned(), "0.25.0".to_owned())]);
    press(&mut app, '2');
    let input = app.input.as_ref().expect("the install line is open");
    assert_eq!(input.buffer, "bcat");
}

/// Typing edits the line, escape closes it, and enter submits it.
#[test]
fn the_input_line_is_typed_closed_and_submitted() {
    let mut app = app_with(&[]);
    press(&mut app, 'i');
    for c in "foo x".chars() {
        app.on_key(key(KeyCode::Char(c)), 0);
    }
    app.on_key(key(KeyCode::Backspace), 0);
    assert_eq!(app.input.as_ref().unwrap().buffer, "foo ");
    app.on_key(key(KeyCode::Enter), 0);
    assert!(app.input.is_none());
    assert_eq!(app.pending_build.as_ref().unwrap().spec, "foo");

    let mut app = app_with(&[]);
    press(&mut app, 's');
    assert_eq!(app.input.as_ref().map(|i| i.purpose), Some(InputPurpose::Search));
    app.on_key(key(KeyCode::Esc), 0);
    assert!(app.input.is_none());
    app.submit_input(InputPurpose::Install, "../evil");
    assert!(app.pending_build.is_none());
    assert!(matches!(app.message.as_ref().map(|m| m.kind), Some(MessageKind::Error)));
}

/// The keys that leave: free to go without a build, and a cancel first with
/// one.
#[test]
fn leaving_waits_for_a_build() {
    let mut app = app_with(&[]);
    press(&mut app, 'q');
    assert!(app.should_quit);

    let mut app = app_with(&[]);
    app.job = Some(building("foo"));
    let flow = app.on_key(Key { code: KeyCode::Char('c'), ctrl: true }, 5);
    assert!(matches!(flow, Flow::RequestCancel(CancelFor::Quit)));
    app.cancel_answered(
        CancelFor::Quit,
        ActiveCancel::Build(CancelOutcome::Accepted),
        5,
    );
    assert!(app.quit_after_build && !app.should_quit);
    assert!(matches!(&app.job, Some(Job::Build(b)) if b.cancel_deadline == Some(2005)));
}

/// A pair is known only where it is named once and names back.
#[test]
fn a_pair_is_two_prefixes_that_name_each_other() {
    assert_eq!(known_pair_dest(vec!["/b".to_owned()], true).as_deref(), Some("/b"));
    assert_eq!(known_pair_dest(vec!["/b".to_owned()], false), None);
    assert_eq!(known_pair_dest(Vec::new(), true), None);
    assert_eq!(known_pair_dest(vec!["/b".to_owned(), "/c".to_owned()], true), None);
}

/// A migration of everything freezes the whole list, asks, and takes the first
/// member.
#[test]
fn a_migration_of_everything_asks_and_advances() {
    let entries: &[(&str, &str, bool)] = &[("a", "1.0.0", false), ("b", "2.0.0", true)];
    let mut app = app_with(entries);
    assert!(matches!(press(&mut app, 'M'), Flow::FindPair(PairFor::MigrateAll)));
    let Flow::Reload(after) = app.pair_found(PairFor::MigrateAll, Some("/there".to_owned())) else {
        panic!("the plan is made of a fresh list")
    };
    app.reloaded(after, seeded(entries)).unwrap();
    assert!(app.confirm.is_some(), "{}", said(&app));
    app.on_key_confirm(KeyCode::Char('y'));
    let batch = app.migrate_batch.as_ref().expect("the batch began");
    assert_eq!(batch.runner.total, 2);
    assert_eq!(batch.dest, "/there");
    assert!(matches!(app.next_step(), Step::Migrate(m) if m.name == "a" && m.dest == "/there"));
}

/// The rows of a session and the rows of a manifest are one thing.
#[test]
fn the_list_is_the_manifest() {
    let entries: &[(&str, &str, bool)] = &[("a", "1.0.0", false), ("b", "2.0.0", true)];
    let app = app_with(entries);
    let rows = rows_from(&manifest(entries), None, &Vec::new());
    assert_eq!(app.rows.len(), rows.len());
    for (a, b) in app.rows.iter().zip(rows.iter()) {
        assert_eq!(a.name, b.name);
        assert_eq!(a.version, b.version);
        assert_eq!(a.pinned, b.pinned);
    }
}
