//! What holds of every key and every answer, whatever the state.
use super::finish::step_done;
use super::keys::{
    answered_question, cancel_flagged, cancel_key, key_done, listed_key, scrolled, Key, KeyCode,
};
use super::oneshot::{check_finished, check_recorded_as, Recorded};
use super::resume::{
    grace_armed, jump_begun, landing, pair_answered, resumed, row_names, ticked,
};
use super::start::{migrate_begun, stepped, MigrateOrders, Step};
use super::{read_answer, AfterReload, App, CancelFor, Finished, Flow, PairFor, PrefixRead, Work};
use crate::batch::Preflight;
use crate::job::{BuildJob, Job};
use crate::state::{
    Checked, InputPurpose, MessageKind, OnConfirm, PendingMigrate, ReloadOutcome, Row,
};
use crate::text::{control, lemma_first_named};
use crate::validate::{lemma_spec_parts, spec_name, spec_version, valid_name, valid_spec};
use crate::version::is_semver;
use vstd::prelude::*;

verus! {

/// What waits for the run loop is the same before and after.
pub open spec fn same_queue(before: App, after: App) -> bool {
    &&& after.pending == before.pending
    &&& after.pending_in_place == before.pending_in_place
    &&& after.pending_update_sweep == before.pending_update_sweep
    &&& after.pending_reinstall_sweep == before.pending_reinstall_sweep
    &&& after.pending_install_batch == before.pending_install_batch
    &&& after.pending_build == before.pending_build
    &&& after.pending_migrate == before.pending_migrate
}

/// Single flight: while a job runs, no key replaces it or starts another. All a
/// key can do to it is ask for its cancel. (A search line is never open then: it
/// opens only with a free slot.)
pub proof fn law_keys_never_replace_a_running_job(
    before: App,
    key: Key,
    now: u64,
    after: App,
    flow: Flow,
)
    requires
        before.job is Some,
        before.input matches Some(input) ==> input.purpose == InputPurpose::Install,
        key_done(before, key, now, after, flow),
    ensures
        after.job == before.job || after.job == Some(cancel_flagged(before.job->0)),
        !(flow is Start),
{
}

/// While anything runs or is queued, a key in the list queues nothing more and
/// applies nothing in place.
pub proof fn law_a_busy_list_queues_nothing(
    before: App,
    code: KeyCode,
    now: u64,
    after: App,
    flow: Flow,
)
    requires
        before.occupied(),
        listed_key(before, code, now, after, flow),
    ensures
        same_queue(before, after),
        !(flow is Apply) && !(flow is ProbePrivilege),
{
}

/// With a manifest that did not load, a key in the list mutates nothing: it can
/// audit, retry the load, leave for the other prefix, cancel what runs, ask for
/// help or quit.
pub proof fn law_the_degraded_list_mutates_nothing(
    before: App,
    code: KeyCode,
    now: u64,
    after: App,
    flow: Flow,
)
    requires
        before.manifest_error is Some,
        listed_key(before, code, now, after, flow),
    ensures
        same_queue(before, after),
        after.confirm == before.confirm,
        after.input == before.input,
        flow is Done || flow == Flow::Reload(super::AfterReload::Retry) || flow == Flow::FindPair(
            PairFor::Jump,
        ) || flow == Flow::Start(Work::Verify),
{
}

/// While a build runs no key ends the session: Ctrl-C asks the build first, and
/// the exit waits for its worker.
pub proof fn law_no_key_orphans_a_build(before: App, key: Key, now: u64, after: App, flow: Flow)
    requires
        before.job matches Some(Job::Build(_)),
        key_done(before, key, now, after, flow),
    ensures
        after.should_quit == before.should_quit,
        key == (Key { code: KeyCode::Char('c'), ctrl: true }) ==> flow == Flow::RequestCancel(
            CancelFor::Quit,
        ),
{
}

/// No key moves the report's offset past its bound.
pub proof fn law_the_scroll_stays_in_bounds(
    before: App,
    key: Key,
    now: u64,
    after: App,
    flow: Flow,
)
    requires
        before.report_scroll <= before.report_scroll_max,
        key_done(before, key, now, after, flow),
    ensures
        after.report_scroll <= after.report_scroll_max,
{
}

/// A step down and a step up meet again, as long as the bound is not in the way:
/// no press is swallowed on the way back.
pub proof fn law_scrolling_back_retraces_scrolling_on(offset: u16, max: u16)
    requires
        offset < max,
    ensures
        scrolled(scrolled(offset, max, KeyCode::Down)->0, max, KeyCode::Up) == Some(offset),
        scrolled(max, max, KeyCode::Down) == Some(max),
{
}

/// No key takes the selection out of the rows on screen.
pub proof fn law_keys_keep_the_selection_in_view(
    before: App,
    key: Key,
    now: u64,
    after: App,
    flow: Flow,
)
    requires
        before.in_view(),
        key_done(before, key, now, after, flow),
    ensures
        after.in_view(),
{
}

/// No key changes what the list holds.
pub proof fn law_keys_keep_the_rows(before: App, key: Key, now: u64, after: App, flow: Flow)
    requires
        key_done(before, key, now, after, flow),
    ensures
        after.rows == before.rows,
        after.manifest_error == before.manifest_error,
        after.prefix == before.prefix,
        after.report_age == before.report_age,
{
}

/// A plan shown for a question goes with the question, whichever way it is
/// answered; a panel that an unrelated question did not put there stays.
pub proof fn law_a_plan_goes_with_its_question(
    before: App,
    code: KeyCode,
    after: App,
    flow: Flow,
)
    requires
        before.confirm is Some,
        answered_question(before, code, after, flow),
    ensures
        after.confirm is None,
        before.confirm->0.action.pins_a_plan() ==> after.build_report is None,
        !before.confirm->0.action.pins_a_plan() ==> after.build_report == before.build_report,
{
}

/// Anything but a `y` starts nothing.
pub proof fn law_only_a_yes_confirms(before: App, code: KeyCode, after: App, flow: Flow)
    requires
        before.confirm is Some,
        code != KeyCode::Char('y'),
        code != KeyCode::Char('Y'),
        answered_question(before, code, after, flow),
    ensures
        same_queue(before, after),
        after.migrate_batch == before.migrate_batch,
        flow is Done,
{
}

/// A second cancel of a one-shot changes nothing that the first did not: there is
/// no escalation to offer.
pub proof fn law_a_cancel_flag_is_idempotent(job: Job)
    ensures
        cancel_flagged(cancel_flagged(job)) == cancel_flagged(job),
        !(job is Build) ==> cancel_flagged(job).cancel_asked(),
{
}

/// The grace is one-shot: a repeated cancel keeps the first deadline.
pub proof fn law_the_grace_is_armed_once(build: BuildJob, first: u64, later: u64)
    ensures
        grace_armed(grace_armed(build, first), later) == grace_armed(build, first),
{
}

/// An overdue cancel is asked for only past its deadline, and only once: the turn
/// that asks disarms it.
pub proof fn law_an_overdue_cancel_fires_once(
    before: App,
    now: u64,
    after: App,
    flow: Flow,
    later: u64,
    last: App,
    again: Flow,
)
    requires
        ticked(before, now, after, flow),
        ticked(after, later, last, again),
        flow is RequestCancel,
    ensures
        before.job matches Some(Job::Build(build)) && (build.cancel_deadline matches Some(at) && now
            >= at),
        again is Done,
{
}

/// A jump lands on the kept crate wherever it is on screen.
pub proof fn law_a_jump_follows_the_name(rows: Seq<Row>, keep: String, i: int)
    requires
        0 <= i < rows.len(),
        rows[i].name@ == keep@,
    ensures
        0 <= landing(rows, Some(keep)) < rows.len(),
        rows[landing(rows, Some(keep))].name@ == keep@,
{
    lemma_first_named(row_names(rows), keep@);
    assert(row_names(rows)[i] == keep@);
}

/// What the footer says never holds a control character.
pub proof fn law_messages_are_clean(app: App, text: Seq<char>, kind: MessageKind, i: int)
    requires
        app.says(text, kind),
        0 <= i < app.message->0.text@.len(),
    ensures
        !control(app.message->0.text@[i]),
{
    crate::text::law_sanitized_is_clean(text);
}

/// A cancelled or failed check asks nothing: a question is only asked where a
/// fresh report was made and the list shows it.
pub proof fn law_only_a_fresh_check_asks(
    before: App,
    result: Result<Option<Vec<Checked>>, String>,
    sweep: bool,
    mid: App,
    flow: Flow,
    recorded: Recorded,
    after: App,
)
    requires
        check_finished(before, result, sweep, mid, flow),
        check_recorded_as(mid, sweep, recorded, after),
        after.confirm != before.confirm,
    ensures
        sweep,
        recorded matches Recorded::Made { manifest, .. } && read_answer(manifest) == Ok::<
            ReloadOutcome,
            String,
        >(ReloadOutcome::Loaded),
{
}

/// The spec that a picked downgrade queues reads back as the very crate and
/// version that were picked.
pub proof fn law_downgrade_specs_read_back(name: Seq<char>, version: Seq<char>)
    requires
        valid_name(name),
        is_semver(version),
    ensures
        valid_spec(name + "@"@ + version),
        spec_name(name + "@"@ + version) == name,
        spec_version(name + "@"@ + version) == Some(version),
{
    lemma_spec_parts(name, version);
}

/// A session starts idle: nothing runs, nothing is queued and nothing is asked.
pub proof fn law_a_session_starts_idle(prefix: String, app: App)
    requires
        app.blank(prefix),
    ensures
        !app.occupied(),
        app.job is None,
        app.confirm is None,
        app.input is None,
{
}

/// The migration that runs is the one that was confirmed: what a `y` queues, the
/// run loop takes up, and the worker is ordered exactly that plan.
pub proof fn law_a_confirmed_migration_runs_as_shown(
    asked: App,
    plan: PendingMigrate,
    queued: App,
    flow: Flow,
    taken: App,
    step: Step,
    preflight: Preflight,
    late: Option<Seq<char>>,
    now: u64,
    begun: App,
    orders: MigrateOrders,
)
    requires
        asked.confirm matches Some(c) && c.action == OnConfirm::Migrate(plan),
        answered_question(asked, KeyCode::Char('y'), queued, flow),
        stepped(queued, taken, step),
        step matches Step::Migrate(req) ==> migrate_begun(
            taken,
            req,
            preflight,
            late,
            now,
            begun,
            Ok(orders),
        ),
    ensures
        queued.pending_migrate == Some(plan),
        step matches Step::Migrate(req) ==> req == plan && orders.name == plan.name && orders.dest
            == plan.dest && orders.snap == plan.snap,
{
}

/// The sweep that runs is the one that was confirmed: the run loop takes up the
/// very snapshot that the question showed.
pub proof fn law_a_confirmed_sweep_runs_as_shown(
    asked: App,
    queued: App,
    flow: Flow,
    taken: App,
    step: Step,
)
    requires
        asked.confirm is Some,
        answered_question(asked, KeyCode::Char('y'), queued, flow),
        stepped(queued, taken, step),
    ensures
        asked.confirm->0.action matches OnConfirm::ReinstallAll { planned } ==> (
        step matches Step::ReinstallSweep(run) ==> run == planned),
        asked.confirm->0.action matches OnConfirm::UpdateAll { planned } ==> (
        step matches Step::UpdateSweep(run) ==> run == planned),
{
}

/// While anything runs or is queued, the session stays at its prefix.
pub proof fn law_a_busy_session_stays_at_its_prefix(
    before: App,
    why: PairFor,
    dest: Option<String>,
    after: App,
    flow: Flow,
)
    requires
        before.occupied(),
        pair_answered(before, why, dest, after, flow),
    ensures
        after.prefix == before.prefix,
{
}

/// A jump that could not read the other side leaves no trace of it: the prefix
/// is the old one, and the search panel is there again.
pub proof fn law_a_failed_jump_comes_back(
    before: App,
    dest: String,
    away: App,
    after: AfterReload,
    read: PrefixRead,
    back: App,
    then: AfterReload,
    again: PrefixRead,
    last: App,
    r: Result<Flow, String>,
)
    requires
        !before.occupied(),
        jump_begun(before, dest, away, Flow::Reload(after)),
        read.manifest is Locked,
        resumed(away, after, read, back, Ok(Flow::Reload(then))),
        resumed(back, then, again, last, r),
    ensures
        last.prefix == before.prefix,
        last.search_result == before.search_result,
        last.build_report == before.build_report,
        last.filter == before.filter,
{
}

/// A cancel ends a migration of everything, however the member in flight ends:
/// where members are left, the batch is over with it and none of them is taken
/// up.
pub proof fn law_a_cancel_ends_a_migration_batch(
    before: App,
    pressed: App,
    flow: Flow,
    then: App,
    fin: Finished,
    read: PrefixRead,
    after: App,
)
    requires
        before.job matches Some(Job::Build(_)),
        before.migrate_batch matches Some(batch) && batch.runner.queue@.len() > 0,
        cancel_key(before, pressed, flow),
        then.migrate_batch == pressed.migrate_batch,
        step_done(then, fin, read, after),
    ensures
        flow == Flow::RequestCancel(CancelFor::Key),
        after.migrate_batch is None,
        after.pending_migrate == then.pending_migrate,
{
}

} // verus!
