//! What each step leaves alone: whatever is not named here as changed is the same
//! before and after.
use super::keys::{Key, KeyCode};
use super::oneshot::Recorded;
use super::poll::fits;
use super::start::{AuthAsk, Begun, BuildStart, MigrateOrders, PinAdvice, Step};
use super::{AfterReload, App, BatchClose, CancelFor, Finished, Flow, PairFor, PrefixRead};
use crate::batch::{Preflight, StartOutcome};
use crate::job::{JobEvent, PendingBuild};
use crate::ops::{TuiRemove, TuiSetPinned};
use crate::state::{
    ActiveCancel, AuthAnswer, Filter, PendingInPlace, PendingMigrate, PlannedUpdate, ReinstallPlan,
    ReloadOutcome,
};
use crate::validate::InstallSpec;
use vstd::prelude::*;

verus! {

/// The list is the same, and so is where the session stands in it.
pub open spec fn same_list(before: App, after: App) -> bool {
    &&& after.prefix == before.prefix
    &&& after.rows == before.rows
    &&& after.report_age == before.report_age
    &&& after.manifest_error == before.manifest_error
    &&& after.filter == before.filter
    &&& after.selected == before.selected
}

/// What is queued is the same.
pub open spec fn same_pending(before: App, after: App) -> bool {
    &&& after.pending == before.pending
    &&& after.pending_in_place == before.pending_in_place
    &&& after.pending_update_sweep == before.pending_update_sweep
    &&& after.pending_reinstall_sweep == before.pending_reinstall_sweep
    &&& after.pending_install_batch == before.pending_install_batch
    &&& after.pending_build == before.pending_build
    &&& after.pending_migrate == before.pending_migrate
}

/// The batches are the same.
pub open spec fn same_batches(before: App, after: App) -> bool {
    &&& after.migrate_batch == before.migrate_batch
    &&& after.install_batch == before.install_batch
}

/// What was typed, asked and opened is the same.
pub open spec fn same_dialogs(before: App, after: App) -> bool {
    &&& after.input == before.input
    &&& after.confirm == before.confirm
    &&& after.show_help == before.show_help
}

/// The panels are the same.
pub open spec fn same_panels(before: App, after: App) -> bool {
    &&& after.build_report == before.build_report
    &&& after.report_scroll == before.report_scroll
    &&& after.search_result == before.search_result
    &&& after.downgrade_choice == before.downgrade_choice
}

/// The session goes on as it did: its frame counter, the renderer's bound, and
/// whether it is to end.
pub open spec fn same_course(before: App, after: App) -> bool {
    &&& after.ticks == before.ticks
    &&& after.report_scroll_max == before.report_scroll_max
    &&& after.should_quit == before.should_quit
    &&& after.quit_after_build == before.quit_after_build
}

/// A key that moves the selection or changes the view.
pub open spec fn moves(code: KeyCode) -> bool {
    ||| code == KeyCode::Up
    ||| code == KeyCode::Down
    ||| code == KeyCode::Home
    ||| code == KeyCode::End
    ||| code == KeyCode::Tab
    ||| code == KeyCode::BackTab
    ||| code == KeyCode::Char('j')
    ||| code == KeyCode::Char('k')
    ||| code == KeyCode::Char('g')
    ||| code == KeyCode::Char('G')
}

/// No key touches what the list holds, what the run loop alone queues and counts,
/// or the running batch of installs; only moving keys move the selection, only Tab
/// changes the view, and only keys of leaving leave.
pub proof fn law_keys_leave_the_rest_alone(app: &mut App, key: Key, now: u64, flow: Flow)
    requires
        call_ensures(App::on_key, (app, key, now), flow),
    ensures
        final(app).prefix == old(app).prefix,
        final(app).rows == old(app).rows,
        final(app).report_age == old(app).report_age,
        final(app).manifest_error == old(app).manifest_error,
        final(app).ticks == old(app).ticks,
        final(app).report_scroll_max == old(app).report_scroll_max,
        final(app).quit_after_build == old(app).quit_after_build,
        final(app).install_batch == old(app).install_batch,
        final(app).pending == old(app).pending,
        final(app).pending_in_place == old(app).pending_in_place,
        !moves(key.code) ==> final(app).selected == old(app).selected,
        key.code != KeyCode::Tab && key.code != KeyCode::BackTab ==> final(app).filter == old(app).filter,
        key.code != KeyCode::Char('q') && key.code != KeyCode::Char('c') && key.code
            != KeyCode::Esc ==> final(app).should_quit == old(app).should_quit,
        old(app).build_report is None ==> final(app).build_report is None
            && final(app).report_scroll == old(app).report_scroll,
        old(app).search_result is None ==> final(app).search_result is None,
        old(app).downgrade_choice is None ==> final(app).downgrade_choice is None,
{
}

/// In the list, a key changes what it is for and nothing else: the queue is
/// touched only by a rebuild and by a picked version, a question is opened only by
/// a removal, a line only by its keys and by a picked hit.
pub proof fn law_list_keys_change_what_they_are_for(
    app: &mut App,
    code: KeyCode,
    now: u64,
    flow: Flow,
)
    requires
        call_ensures(App::on_key_list, (app, code, now), flow),
    ensures
        ({
            let digit = code matches KeyCode::Char(c) && '1' <= c <= '9';
            &&& final(app).pending_build == old(app).pending_build || code == KeyCode::Char('t')
                || digit
            &&& final(app).confirm == old(app).confirm || code == KeyCode::Char('x')
            &&& final(app).input == old(app).input || code == KeyCode::Char('i') || code
                == KeyCode::Char('s') || digit
            &&& final(app).show_help == old(app).show_help || code == KeyCode::Char('?')
            &&& final(app).migrate_batch == old(app).migrate_batch || code == KeyCode::Char('c')
            &&& final(app).build_report == old(app).build_report || code == KeyCode::Char('v')
        }),
        final(app).pending_migrate == old(app).pending_migrate,
        final(app).pending_update_sweep == old(app).pending_update_sweep,
        final(app).pending_reinstall_sweep == old(app).pending_reinstall_sweep,
        final(app).pending_install_batch == old(app).pending_install_batch,
        final(app).report_scroll == old(app).report_scroll,
{
}

/// The answer to a question touches the queue only as that question does.
pub proof fn law_an_answer_touches_only_its_queue(app: &mut App, code: KeyCode, flow: Flow)
    requires
        old(app).confirm is Some,
        call_ensures(App::on_key_confirm, (app, code), flow),
    ensures
        same_list(*old(app), *final(app)),
        same_course(*old(app), *final(app)),
        final(app).input == old(app).input && final(app).show_help == old(app).show_help,
        final(app).job == old(app).job,
        final(app).search_result == old(app).search_result && final(app).downgrade_choice == old(app).downgrade_choice,
        final(app).pending_build == old(app).pending_build || old(app).confirm->0.action is Update,
        final(app).pending_migrate == old(app).pending_migrate || old(app).confirm->0.action is Migrate || old(app).confirm->0.action is MigrateAll,
        final(app).migrate_batch == old(app).migrate_batch || old(app).confirm->0.action is MigrateAll,
        final(app).pending_update_sweep == old(app).pending_update_sweep || old(app).confirm->0.action is UpdateAll,
        final(app).pending_reinstall_sweep == old(app).pending_reinstall_sweep || old(app).confirm->0.action is ReinstallAll,
        final(app).pending_install_batch == old(app).pending_install_batch,
        final(app).pending == old(app).pending,
        final(app).pending_in_place == old(app).pending_in_place,
{
}

/// A line that is entered touches the queue only as an install does, and the slot
/// only as a search does.
pub proof fn law_an_entered_line_touches_only_its_own(app: &mut App, code: KeyCode, flow: Flow)
    requires
        old(app).input is Some,
        call_ensures(App::on_key_input, (app, code), flow),
    ensures
        same_list(*old(app), *final(app)),
        same_course(*old(app), *final(app)),
        same_batches(*old(app), *final(app)),
        final(app).confirm == old(app).confirm && final(app).show_help == old(app).show_help,
        final(app).build_report == old(app).build_report,
        final(app).pending_build == old(app).pending_build || (old(app).input->0.purpose is Install && code == KeyCode::Enter),
        final(app).pending_install_batch == old(app).pending_install_batch || (old(app).input->0.purpose is Install && code == KeyCode::Enter),
        final(app).job == old(app).job || (old(app).input->0.purpose is Search && code
            == KeyCode::Enter),
        final(app).pending_migrate == old(app).pending_migrate,
        final(app).pending_update_sweep == old(app).pending_update_sweep,
        final(app).pending_reinstall_sweep == old(app).pending_reinstall_sweep,
{
}

/// The answer of a lookup queues nothing, moves nothing and leaves the list.
pub proof fn law_a_lookups_answer_queues_nothing(
    app: &mut App,
    event: JobEvent,
    r: Result<Flow, String>,
)
    requires
        old(app).job is Some && !(old(app).job->0 is Build),
        fits(old(app).job->0, event),
        call_ensures(App::poll_job, (app, event), r),
    ensures
        same_list(*old(app), *final(app)),
        same_pending(*old(app), *final(app)),
        same_batches(*old(app), *final(app)),
        same_course(*old(app), *final(app)),
        final(app).input == old(app).input && final(app).show_help == old(app).show_help,
        final(app).search_result == old(app).search_result,
        event is Nothing <==> final(app).job is Some,
{
}

/// A recorded check changes the list, the footer, and a sweep's question and plan;
/// nothing else.
pub proof fn law_a_recorded_check_leaves_the_rest(app: &mut App, sweep: bool, recorded: Recorded)
    requires
        call_ensures(App::check_recorded, (app, sweep, recorded), ()),
    ensures
        same_pending(*old(app), *final(app)),
        same_batches(*old(app), *final(app)),
        same_course(*old(app), *final(app)),
        final(app).prefix == old(app).prefix && final(app).filter == old(app).filter,
        final(app).job == old(app).job,
        final(app).input == old(app).input && final(app).show_help == old(app).show_help,
        final(app).search_result == old(app).search_result,
        final(app).downgrade_choice == old(app).downgrade_choice,
        !sweep ==> final(app).build_report == old(app).build_report && final(app).report_scroll
            == old(app).report_scroll,
{
}

/// A reload changes the list and the footer, and takes down what the panels said
/// of the prefix; nothing else. A selection that can stay stays.
pub proof fn law_a_reload_leaves_the_rest(
    app: &mut App,
    read: PrefixRead,
    r: Result<ReloadOutcome, String>,
    seen: Vec<&crate::state::Row>,
)
    requires
        call_ensures(App::reload, (app, read), r),
        call_ensures(App::visible, (&*final(app),), seen),
    ensures
        same_pending(*old(app), *final(app)),
        same_batches(*old(app), *final(app)),
        same_course(*old(app), *final(app)),
        same_dialogs(*old(app), *final(app)),
        final(app).prefix == old(app).prefix && final(app).filter == old(app).filter,
        final(app).job == old(app).job,
        final(app).build_report == old(app).build_report,
        final(app).report_scroll == old(app).report_scroll,
        read.manifest is Loaded && old(app).selected < seen.len() ==> final(app).selected == old(app).selected,
        read.manifest is Loaded && seen.len() > 0 ==> final(app).selected < seen.len(),
{
}

/// What waited for a reload changes the list, the footer and what it is about.
/// Only a jump changes the prefix; only a migration's end takes up a member; only
/// a check takes the slot.
pub proof fn law_what_waited_for_a_reload_leaves_the_rest(
    app: &mut App,
    waiting: AfterReload,
    read: PrefixRead,
    r: Result<Flow, String>,
)
    requires
        call_ensures(App::reloaded, (app, waiting, read), r),
    ensures
        same_course(*old(app), *final(app)),
        final(app).filter == old(app).filter,
        final(app).input == old(app).input && final(app).show_help == old(app).show_help,
        final(app).install_batch == old(app).install_batch,
        final(app).pending == old(app).pending,
        final(app).pending_in_place == old(app).pending_in_place,
        final(app).pending_update_sweep == old(app).pending_update_sweep,
        final(app).pending_reinstall_sweep == old(app).pending_reinstall_sweep,
        final(app).pending_install_batch == old(app).pending_install_batch,
        final(app).pending_build == old(app).pending_build,
        final(app).prefix == old(app).prefix || waiting is Jump,
        final(app).job == old(app).job || waiting is Check,
        final(app).confirm == old(app).confirm || waiting is MigrateAll,
        final(app).pending_migrate == old(app).pending_migrate || waiting is BatchStep,
        final(app).migrate_batch == old(app).migrate_batch || waiting is BatchStep,
        final(app).build_report == old(app).build_report || waiting is Jump || waiting is BatchStep
            || waiting is InstallBatch || waiting is Build,
        final(app).downgrade_choice is None,
{
}

/// A step of the run loop takes one thing out of the queue, and touches nothing
/// else.
pub proof fn law_a_step_takes_one_thing(app: &mut App, step: Step)
    requires
        call_ensures(App::next_step, (app,), step),
    ensures
        same_list(*old(app), *final(app)),
        same_batches(*old(app), *final(app)),
        same_dialogs(*old(app), *final(app)),
        same_panels(*old(app), *final(app)),
        same_course(*old(app), *final(app)),
        final(app).message == old(app).message && final(app).job == old(app).job,
        !(step is Terminal) ==> final(app).pending == old(app).pending,
        !(step is InPlace) ==> final(app).pending_in_place == old(app).pending_in_place,
        !(step is UpdateSweep) ==> final(app).pending_update_sweep == old(app).pending_update_sweep,
        !(step is ReinstallSweep) ==> final(app).pending_reinstall_sweep == old(app).pending_reinstall_sweep,
        !(step is InstallBatch) ==> final(app).pending_install_batch == old(app).pending_install_batch,
        !(step is Build) ==> final(app).pending_build == old(app).pending_build,
        !(step is Migrate) ==> final(app).pending_migrate == old(app).pending_migrate,
{
}

/// Before a build begins only its old report is taken down; when it begins only
/// the slot is taken; when it does not, only a handover is queued.
pub proof fn law_starting_a_build_takes_only_the_slot(
    first: &mut App,
    req: PendingBuild,
    start: BuildStart,
    looked: &mut App,
    spec: InstallSpec,
    advice: PinAdvice,
    seen: BuildStart,
    begun: &mut App,
    preflight: Preflight,
    now: u64,
    r: Begun,
    told: &mut App,
    outcome: StartOutcome,
)
    requires
        call_ensures(App::start_build, (first, &req), start),
        call_ensures(App::pin_looked_up, (looked, spec, advice), seen),
        call_ensures(App::build_preflighted, (begun, req, spec, preflight, now), r),
        call_ensures(App::take_outcome, (told, outcome), ()),
    ensures
        *final(first) == (App { build_report: final(first).build_report, ..*old(first) }),
        *final(looked) == (App { build_report: final(looked).build_report, ..*old(looked) }),
        *final(begun) == (App { job: final(begun).job, ..*old(begun) }),
        *final(told) == (App {
            pending: final(told).pending,
            message: final(told).message,
            ..*old(told)
        }),
{
}

/// A migration that begins takes the slot and may say something; one that does not
/// ends its batch and says so; nothing else changes.
pub proof fn law_starting_a_migration_takes_only_the_slot(
    slot: &mut App,
    refused: Option<StartOutcome>,
    begun: &mut App,
    req: PendingMigrate,
    preflight: Preflight,
    late: Option<&str>,
    now: u64,
    r: Result<MigrateOrders, StartOutcome>,
    ended: &mut App,
    member: &str,
    reason: String,
)
    requires
        call_ensures(App::start_migrate, (slot,), refused),
        call_ensures(App::migrate_preflighted, (begun, req, preflight, late, now), r),
        old(ended).valid(),
        call_ensures(App::migrate_refused, (ended, member, reason), ()),
    ensures
        *final(slot) == (App { build_report: final(slot).build_report, ..*old(slot) }),
        *final(begun) == (App {
            job: final(begun).job,
            message: final(begun).message,
            ..*old(begun)
        }),
        *final(ended) == (App {
            migrate_batch: final(ended).migrate_batch,
            message: final(ended).message,
            build_report: final(ended).build_report,
            report_scroll: final(ended).report_scroll,
            ..*old(ended)
        }),
{
}

/// A batch that begins takes the slot and the panel; one that does not queues at
/// most its handover; nothing else changes.
pub proof fn law_starting_a_batch_takes_only_the_slot(
    list: &mut App,
    crates: Vec<String>,
    locked: bool,
    rebuild: &mut App,
    frozen: Vec<(String, ReinstallPlan)>,
    update: &mut App,
    planned: Vec<PlannedUpdate>,
    preflight: Preflight,
    needs: Result<bool, String>,
    note: &str,
    now: u64,
    l: bool,
    r: bool,
    u: bool,
)
    requires
        call_ensures(
            App::start_install_batch,
            (list, crates, locked, preflight, &needs, note, now),
            l,
        ),
        call_ensures(
            App::start_confirmed_sweep,
            (rebuild, &frozen, preflight, &needs, note, now),
            r,
        ),
        call_ensures(
            App::start_confirmed_update_sweep,
            (update, &planned, preflight, &needs, note, now),
            u,
        ),
    ensures
        batch_began_alone(*old(list), *final(list)),
        batch_began_alone(*old(rebuild), *final(rebuild)),
        batch_began_alone(*old(update), *final(update)),
        !(preflight is NoCache) ==> final(list).pending == old(list).pending
            && final(rebuild).pending == old(rebuild).pending && final(update).pending == old(update).pending,
{
}

/// Only what a batch's start is about differs.
pub open spec fn batch_began_alone(before: App, after: App) -> bool {
    after == (App {
        build_report: after.build_report,
        install_batch: after.install_batch,
        job: after.job,
        message: after.message,
        pending: after.pending,
        ..before
    })
}

/// The answers around passwords, cancels and privilege change the job, the footer
/// and the queue of mutations, each only its own.
pub proof fn law_answers_from_outside_change_only_their_own(
    ask: &mut App,
    cancelled: bool,
    asked: AuthAsk,
    given: &mut App,
    outcome: Result<Result<bool, String>, String>,
    answer: AuthAnswer,
    stop: &mut App,
    why: CancelFor,
    reply: ActiveCancel,
    now: u64,
    turn: &mut App,
    tick: Flow,
    probe: &mut App,
    op: PendingInPlace,
    needs: Result<bool, String>,
    probed: Flow,
    door: &mut App,
    preflight: Preflight,
    opened: Flow,
)
    requires
        call_ensures(App::answer_auth, (ask, cancelled), asked),
        call_ensures(App::auth_prompted, (given, outcome), answer),
        now <= u64::MAX - 2000,
        call_ensures(App::cancel_answered, (stop, why, reply, now), ()),
        call_ensures(App::tick, (turn, now), tick),
        call_ensures(App::privilege_probed, (probe, op, needs), probed),
        call_ensures(App::run_in_place, (door, op, preflight), opened),
    ensures
        *final(ask) == (App { job: final(ask).job, ..*old(ask) }),
        *final(given) == (App { message: final(given).message, ..*old(given) }),
        *final(stop) == (App {
            job: final(stop).job,
            message: final(stop).message,
            quit_after_build: final(stop).quit_after_build,
            ..*old(stop)
        }),
        *final(turn) == (App { ticks: final(turn).ticks, job: final(turn).job, ..*old(turn) }),
        *final(probe) == (App {
            pending_in_place: final(probe).pending_in_place,
            message: final(probe).message,
            ..*old(probe)
        }),
        *final(door) == (App {
            pending: final(door).pending,
            message: final(door).message,
            ..*old(door)
        }),
{
}

/// The look for the other prefix, the look at the destination, and the results of
/// a pin and a removal change the footer and the question, and a jump the prefix;
/// nothing else.
pub proof fn law_answers_about_prefixes_change_only_their_own(
    pair: &mut App,
    why: PairFor,
    dest: Option<String>,
    found: Flow,
    look: &mut App,
    there: Option<String>,
    at: String,
    pin: &mut App,
    name: String,
    pinned: bool,
    set: Result<TuiSetPinned, String>,
    pin_flow: Flow,
    gone: &mut App,
    removed: Result<TuiRemove, String>,
    gone_flow: Flow,
)
    requires
        call_ensures(App::pair_found, (pair, why, dest), found),
        call_ensures(App::destination_seen, (look, at, there), ()),
        call_ensures(App::pin_applied, (pin, name, pinned, set), pin_flow),
        call_ensures(App::remove_applied, (gone, name, removed), gone_flow),
    ensures
        *final(pair) == (App {
            prefix: final(pair).prefix,
            search_result: final(pair).search_result,
            message: final(pair).message,
            ..*old(pair)
        }),
        *final(look) == (App {
            confirm: final(look).confirm,
            message: final(look).message,
            ..*old(look)
        }),
        *final(pin) == (App { message: final(pin).message, ..*old(pin) }),
        *final(gone) == (App { message: final(gone).message, ..*old(gone) }),
{
}

/// A build that ends leaves the list and the queue; its reload changes the list,
/// the panel and the footer.
pub proof fn law_the_end_of_a_build_leaves_the_rest(
    ended: &mut App,
    fin: Finished,
    flow: Flow,
    told: &mut App,
    read: PrefixRead,
    batch: &mut App,
    close: BatchClose,
)
    requires
        old(ended).valid(),
        call_ensures(App::finish_build, (ended, fin), flow),
        !(fin.outcome is Cancelled),
        call_ensures(App::build_reloaded, (told, fin, read), ()),
        super::sections_fit(close.batch),
        call_ensures(App::install_batch_reloaded, (batch, close, read), ()),
    ensures
        same_list(*old(ended), *final(ended)),
        same_pending(*old(ended), *final(ended)),
        same_dialogs(*old(ended), *final(ended)),
        same_course(*old(ended), *final(ended)),
        same_pending(*old(told), *final(told)),
        same_batches(*old(told), *final(told)),
        same_dialogs(*old(told), *final(told)),
        same_course(*old(told), *final(told)),
        same_pending(*old(batch), *final(batch)),
        same_batches(*old(batch), *final(batch)),
        same_dialogs(*old(batch), *final(batch)),
        same_course(*old(batch), *final(batch)),
        final(told).prefix == old(told).prefix && final(told).filter == old(told).filter
            && final(told).job == old(told).job,
        final(batch).prefix == old(batch).prefix && final(batch).filter == old(batch).filter
            && final(batch).job == old(batch).job,
        read.manifest is Loaded ==> final(told).rows.len() == read.manifest->manifest.crates.len()
            && final(batch).rows.len() == read.manifest->manifest.crates.len(),
{
}

/// The views stand in the order of their tabs, and a search asks for no more hits
/// than digits can pick.
pub proof fn law_views_and_hits_can_be_picked()
    ensures
        Filter::ALL@ == seq![Filter::All, Filter::Updates, Filter::Pinned],
        super::SEARCH_HITS == 6,
{
    assert(Filter::ALL@ =~= seq![Filter::All, Filter::Updates, Filter::Pinned]);
}

} // verus!
