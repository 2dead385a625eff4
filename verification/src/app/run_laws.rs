//! What the run loop's steps are for: what is taken up, what may begin, what a
//! worker is ordered, and what the answers from outside lead to.
use super::key_laws::{idle, only_refused, plain};
use super::keys::KeyCode;
use super::result_laws::said;
use super::start::{
    authorize, credentials_checked, known_pair_dest, late_escalation_certain, pin_advice,
    preflight_escalation, prompted, AuthAsk, AuthStep, Begun, BuildStart, Door, MigrateOrders,
    PinAdvice, Step,
};
use super::{AfterReload, App, CancelFor, Flow, PairFor, PrefixRead};
use crate::batch::{BatchShape, Preflight, StartOutcome};
use crate::decimal::decimal;
use crate::job::PendingBuild;
use crate::ops::{TuiRemove, TuiSetPinned};
use crate::state::{
    ActiveCancel, AuthAnswer, CancelOutcome, Manifest, PendingAction, PendingInPlace,
    PendingMigrate, PlannedUpdate, ReinstallPlan, ReloadOutcome, Row,
};
use crate::text::{joined, sanitized, texts};
use crate::validate::{repeats, spec_names, valid_specs, InstallSpec, Invalid};
use crate::version::is_semver;
use vstd::prelude::*;

verus! {

/// The run loop takes up what waits, as it was queued, and takes it out of the
/// queue; a handover goes first, and nothing is taken up where nothing waits.
pub proof fn law_what_was_queued_is_taken_up(app: &mut App, step: Step)
    requires
        call_ensures(App::next_step, (app,), step),
    ensures
        old(app).pending is Some ==> step == Step::Terminal(old(app).pending->0),
        step is Terminal ==> old(app).pending == Some(step->Terminal_0)
            && final(app).pending is None,
        step is InPlace ==> old(app).pending_in_place == Some(step->InPlace_0)
            && final(app).pending_in_place is None,
        step is UpdateSweep ==> old(app).pending_update_sweep == Some(step->UpdateSweep_0)
            && final(app).pending_update_sweep is None,
        step is ReinstallSweep ==> old(app).pending_reinstall_sweep == Some(step->ReinstallSweep_0)
            && final(app).pending_reinstall_sweep is None,
        step is InstallBatch ==> old(app).pending_install_batch == Some(
            (step->crates, step->locked),
        ) && final(app).pending_install_batch is None,
        step is Build ==> old(app).pending_build == Some(step->Build_0)
            && final(app).pending_build is None,
        step is Migrate ==> old(app).pending_migrate == Some(step->Migrate_0)
            && final(app).pending_migrate is None,
        step is Auth || step is Wait <==> {
            &&& old(app).pending is None
            &&& old(app).pending_in_place is None
            &&& old(app).pending_update_sweep is None
            &&& old(app).pending_reinstall_sweep is None
            &&& old(app).pending_install_batch is None
            &&& old(app).pending_build is None
            &&& old(app).pending_migrate is None
        },
        step is Auth ==> old(app).job is Some && old(app).job->0 is Build
            && old(app).job->0->Build_0.needs_auth is Some,
        step is Wait ==> !(old(app).job is Some && old(app).job->0 is Build
            && old(app).job->0->Build_0.needs_auth is Some),
        step is Auth || step is Wait ==> *final(app) == *old(app),
        final(app).job == old(app).job && final(app).rows == old(app).rows,
{
}

/// A password is asked for only where privilege is needed and the credentials are
/// not fresh, and once; an answer that does not hold is told apart from one that
/// failed.
pub proof fn law_a_password_is_asked_for_once(
    escalate: bool,
    first: AuthStep,
    fresh: Result<bool, String>,
    before: AuthStep,
    after: AuthStep,
    outcome: Result<(), String>,
    asked: AuthStep,
)
    requires
        call_ensures(authorize, (escalate,), first),
        call_ensures(credentials_checked, (fresh, false), before),
        call_ensures(credentials_checked, (fresh, true), after),
        call_ensures(prompted, (outcome,), asked),
    ensures
        first is Check <==> escalate,
        !escalate ==> first == AuthStep::Answer(Preflight::Ready),
        before is Prompt <==> fresh == Ok::<bool, String>(false),
        !(after is Prompt),
        fresh == Ok::<bool, String>(true) ==> before == AuthStep::Answer(Preflight::Ready)
            && after == AuthStep::Answer(Preflight::Ready),
        fresh == Ok::<bool, String>(false) ==> after == AuthStep::Answer(Preflight::NoCache),
        fresh is Err ==> before == AuthStep::Answer(Preflight::Reported(fresh->Err_0)) && after
            == AuthStep::Answer(Preflight::Reported(fresh->Err_0)),
        outcome is Ok <==> asked is CheckAgain,
        outcome is Err ==> asked == AuthStep::Answer(Preflight::Reported(outcome->Err_0)),
{
}

/// The preflight waits for nothing but the first lock: it checks credentials
/// exactly where placement and that lock both need privilege, and reports a probe
/// that failed.
pub proof fn law_the_preflight_is_for_the_first_lock(
    needs: Result<bool, String>,
    first_lock: bool,
    r: AuthStep,
)
    requires
        call_ensures(preflight_escalation, (needs, first_lock), r),
    ensures
        r is Check <==> needs == Ok::<bool, String>(true) && first_lock,
        needs is Err ==> r == AuthStep::Answer(Preflight::Reported(needs->Err_0)),
        needs is Ok && !(r is Check) ==> r == AuthStep::Answer(Preflight::Ready),
{
}

/// There is another prefix only where there is exactly one and it names this one
/// back; a late password is announced only where the source needs one and the
/// destination is known not to.
pub proof fn law_a_pair_names_each_other(
    others: Vec<String>,
    names_back: bool,
    dest: Option<String>,
    source: Result<bool, String>,
    there: Result<bool, String>,
    late: bool,
)
    requires
        call_ensures(known_pair_dest, (others, names_back), dest),
        call_ensures(late_escalation_certain, (&source, &there), late),
    ensures
        dest is Some <==> others.len() == 1 && names_back,
        dest is Some ==> dest->0 == others@[0],
        late <==> source == Ok::<bool, String>(true) && there == Ok::<bool, String>(false),
{
}

/// A crate is pinned exactly where its entry is; one that is not listed is free.
pub proof fn law_a_pin_is_the_entrys(manifest: Manifest, name: &str, i: int, r: PinAdvice)
    requires
        call_ensures(pin_advice, (&manifest, name), r),
        manifest.names_once(),
    ensures
        0 <= i < manifest.crates.len() && manifest.crates@[i].0@ == name@ ==> (r is Pinned
            <==> manifest.crates@[i].1.pinned) && (r is Free <==> !manifest.crates@[i].1.pinned),
        (forall|k: int|
            0 <= k < manifest.crates.len() ==> (#[trigger] manifest.crates@[k]).0@ != name@)
            ==> r is Free,
{
    let names = crate::state::names_of(manifest.crates@);
    crate::text::lemma_first_named(names, name@);
    assert forall|k: int| 0 <= k < manifest.crates.len() implies names[k] == (
    #[trigger] manifest.crates@[k]).0@ by {}
    if 0 <= i < manifest.crates.len() && manifest.crates@[i].0@ == name@ {
        let at = crate::text::first_named(names, name@)->0;
        assert(names[i] == names[at]);
        assert(i == at);
    }
}

/// A queued build starts from what its spec reads as, asks about the pin exactly
/// where it is a bare install, and does not start where the spec does not parse.
pub proof fn law_a_build_starts_from_its_spec(
    app: &mut App,
    req: PendingBuild,
    spec: &str,
    parsed: Result<InstallSpec, Invalid>,
    r: BuildStart,
)
    requires
        spec@ == req.spec@,
        call_ensures(InstallSpec::parse, (spec,), parsed),
        call_ensures(App::start_build, (app, &req), r),
    ensures
        r is Refused <==> parsed is Err,
        r is LookUpPin <==> parsed is Ok && req.intent is Install && parsed->Ok_0.version is None,
        r is LookUpPin ==> r->LookUpPin_0.name@ == parsed->Ok_0.name@
            && r->LookUpPin_0.version is None,
        r is Preflight ==> r->Preflight_0.name@ == parsed->Ok_0.name@ && (
        r->Preflight_0.version is Some <==> parsed->Ok_0.version is Some) && (
        parsed->Ok_0.version is Some ==> r->Preflight_0.version->0@
            == parsed->Ok_0.version->0@),
        r is Refused || r is LookUpPin ==> *final(app) == *old(app),
        r is Preflight ==> *final(app) == (App { build_report: None, ..*old(app) }),
{
    let list = super::start::alone(req.spec@);
    assert(list.len() == 1 && list[0] == req.spec@);
    assert(!repeats(spec_names(list), 0));
    assert(valid_specs(list) <==> crate::validate::valid_spec(req.spec@)) by {
        if crate::validate::valid_spec(req.spec@) {
            assert forall|k: int| 0 <= k < list.len() implies !repeats(spec_names(list), k) by {}
        } else if valid_specs(list) {
            assert(crate::validate::valid_spec(list[0]));
        }
    }
}

/// A bare install of a pinned crate is refused by name; one that is free, or whose
/// pin cannot be seen now, goes on as it is; an unreadable manifest says why.
pub proof fn law_a_pin_stops_a_bare_install(
    app: &mut App,
    spec: InstallSpec,
    advice: PinAdvice,
    r: BuildStart,
)
    requires
        call_ensures(App::pin_looked_up, (app, spec, advice), r),
    ensures
        r is Refused <==> advice is Pinned || advice is Unreadable,
        r is Preflight <==> advice is Free || advice is NotNow,
        r is Preflight ==> r->Preflight_0 == spec,
        advice is Pinned ==> r->Refused_0@ == spec.name@
            + " is pinned; `p` unpins it, or name a version to re-pin"@,
        advice is Unreadable ==> r->Refused_0 == advice->Unreadable_0,
        r is Refused ==> *final(app) == *old(app),
{
}

/// A build begins exactly where the preflight is ready: the worker is ordered what
/// the intent asks for, and the slot is taken under the crate's name. Else nothing
/// begins: a report is told, and a sudo that keeps nothing hands over the same
/// work.
pub proof fn law_a_worker_is_ordered_what_was_asked(
    app: &mut App,
    req: PendingBuild,
    spec: InstallSpec,
    preflight: Preflight,
    now: u64,
    r: Begun,
)
    requires
        call_ensures(App::build_preflighted, (app, req, spec, preflight, now), r),
    ensures
        r is Worker <==> preflight is Ready,
        r is Not ==> *final(app) == *old(app),
        r is Worker ==> {
            let build = final(app).job->0->Build_0;
            &&& r->spec.name == spec.name && r->spec.version == spec.version
            &&& req.intent is Install ==> r->door == (Door::Install { locked: req.locked })
            &&& req.intent is Reinstall ==> r->door is Reinstall
            &&& req.intent is Update ==> r->door == (Door::Update {
                expected: req.intent->expected,
            })
            &&& req.intent is Downgrade && spec.version is Some ==> r->door == (Door::Downgrade {
                expected: req.intent->Downgrade_0,
                version: spec.version->0,
            })
            &&& final(app).job is Some && final(app).job->0 is Build
            &&& build.name@ == spec.name@
            &&& build.started == now
            &&& build.control is Single
            &&& build.units_started == 0 && build.warnings@.len() == 0
                && build.cancel_deadline is None
            &&& build.kind is Install <==> req.intent is Install
            &&& build.kind is Update <==> req.intent is Update
            &&& build.kind is Reinstall <==> req.intent is Reinstall
            &&& build.kind is Downgrade <==> req.intent is Downgrade
        },
        preflight is Reported ==> r->Not_0 == StartOutcome::Refused(preflight->Reported_0),
        preflight is NoCache ==> {
            let action = r->Not_0->action;
            &&& r->Not_0 is NeedsTerminal
            &&& req.intent is Install ==> action is Install && action->locked == req.locked
                && action->crates@ == seq![req.spec]
            &&& req.intent is Update ==> action is Update && action->Update_0@ == spec.name@
            &&& req.intent is Reinstall ==> action is Reinstall && action->Reinstall_0@
                == spec.name@
            &&& req.intent is Downgrade ==> action is Downgrade && action->Downgrade_0@
                == spec.name@
        },
{
}

/// What did not begin is told, or waits for the terminal as the action it is.
pub proof fn law_what_did_not_begin_is_told(app: &mut App, outcome: StartOutcome)
    requires
        call_ensures(App::take_outcome, (app, outcome), ()),
    ensures
        outcome is Started ==> *final(app) == *old(app),
        outcome is Refused ==> said(*final(app), outcome->Refused_0@)
            && final(app).message->0.kind is Error && final(app).pending == old(app).pending,
        outcome is NeedsTerminal ==> final(app).pending == Some(outcome->action) && said(
            *final(app),
            outcome->reason@,
        ),
        final(app).job == old(app).job,
{
}

/// A migration begins exactly where the preflight is ready and nothing runs, and
/// the worker is ordered exactly the confirmed plan: that crate, to that prefix,
/// with the facts that were frozen.
pub proof fn law_a_migration_is_ordered_as_planned(
    slot: &mut App,
    refused: Option<StartOutcome>,
    app: &mut App,
    req: PendingMigrate,
    preflight: Preflight,
    late: Option<&str>,
    now: u64,
    r: Result<MigrateOrders, StartOutcome>,
)
    requires
        call_ensures(App::start_migrate, (slot,), refused),
        call_ensures(App::migrate_preflighted, (app, req, preflight, late, now), r),
    ensures
        refused is Some <==> old(slot).job is Some,
        refused is Some ==> refused->0 is Refused && *final(slot) == *old(slot),
        r is Ok <==> preflight is Ready,
        r is Err ==> *final(app) == *old(app) && r->Err_0 is Refused,
        preflight is Reported ==> r->Err_0->Refused_0 == preflight->Reported_0,
        r is Ok ==> {
            let build = final(app).job->0->Build_0;
            &&& r->Ok_0.name == req.name
            &&& r->Ok_0.dest == req.dest
            &&& r->Ok_0.snap == req.snap
            &&& final(app).job is Some && final(app).job->0 is Build
            &&& build.name@ == req.name@
            &&& build.kind is Migrate
            &&& build.kind->Migrate_0.dest == req.dest
            &&& build.kind->Migrate_0.version == req.version
            &&& build.started == now
            &&& late is Some ==> said(*final(app), late->0@)
        },
{
}

/// From the manifest to the worker: the crate that is selected when the other
/// prefix is seen to lack it is asked about, and what a `y` then orders is that
/// entry as the manifest holds it, its version, its binaries, its `--locked` and
/// its pin.
pub proof fn law_a_migration_carries_the_entry_over(
    listed: &mut App,
    read: PrefixRead,
    loaded: Result<ReloadOutcome, String>,
    i: int,
    seen: &mut App,
    dest: String,
    row: Option<&Row>,
    asked: &mut App,
    c: char,
    now: u64,
    flow: Flow,
    taken: &mut App,
    step: Step,
    begun: &mut App,
    preflight: Preflight,
    late: Option<&str>,
    orders: MigrateOrders,
)
    requires
        call_ensures(App::reload, (listed, read), loaded),
        read.manifest is Loaded,
        0 <= i < read.manifest->manifest.crates.len(),
        *old(seen) == *final(listed),
        call_ensures(App::selected_row, (&*old(seen),), row),
        row is Some,
        *row->0 == old(seen).rows@[i],
        is_semver(row->0.version@),
        call_ensures(App::destination_seen, (seen, dest, None), ()),
        *old(asked) == *final(seen),
        !old(asked).show_help && old(asked).input is None,
        c == 'y' || c == 'Y',
        call_ensures(App::on_key, (asked, plain(KeyCode::Char(c)), now), flow),
        *old(taken) == *final(asked),
        call_ensures(App::next_step, (taken,), step),
        step is Migrate,
        *old(begun) == *final(taken),
        call_ensures(
            App::migrate_preflighted,
            (begun, step->Migrate_0, preflight, late, now),
            Ok(orders),
        ),
    ensures
        ({
            let (name, entry) = read.manifest->manifest.crates@[i];
            &&& orders.name@ == name@
            &&& orders.dest@ == dest@
            &&& orders.snap.version@ == entry.version@
            &&& orders.snap.bins@ == entry.bins@
            &&& orders.snap.locked == entry.locked
            &&& orders.snap.pinned == entry.pinned
            &&& orders.snap.built_with_rustc == entry.built_with_rustc
        }),
{
    super::law_a_reload_shows_what_was_read(listed, read, loaded, i);
}

/// A crate that is at the other prefix already is not asked about, nor is one
/// whose version does not parse; any other is, and both prefixes and what the
/// destination gets are named.
pub proof fn law_a_migration_is_asked_about_in_full(
    app: &mut App,
    dest: String,
    there: Option<String>,
    row: Option<&Row>,
)
    requires
        call_ensures(App::selected_row, (&*old(app),), row),
        call_ensures(App::destination_seen, (app, dest, there), ()),
    ensures
        row is None ==> *final(app) == *old(app),
        row is Some && (there is Some || !is_semver(row->0.version@)) ==> final(app).confirm == old(app).confirm && final(app).message is Some && final(app).message->0.kind is Error,
        row is Some && there is None && is_semver(row->0.version@) ==> {
            let plan = final(app).confirm->0.action->Migrate_0;
            &&& final(app).confirm is Some
            &&& final(app).confirm->0.action is Migrate
            &&& plan.name == row->0.name
            &&& plan.version == row->0.version
            &&& plan.dest@ == dest@
            &&& plan.snap.locked == row->0.locked && plan.snap.pinned == row->0.pinned
            &&& plan.snap.bins@ == row->0.bins@ && plan.snap.version@ == row->0.version@
            &&& plan.snap.built_with_rustc == row->0.built_with_rustc
            &&& final(app).confirm->0.prompt@ == sanitized(
                "migrate "@ + row->0.name@ + " "@ + row->0.version@ + ": "@ + old(app).prefix@
                    + " -> "@ + dest@ + "? "@ + (if row->0.pinned {
                    "the exact pinned version is rebuilt"@
                } else {
                    "the latest version is installed"@
                }) + " there, then retired here [y/N]"@,
            )
        },
{
}

/// A migration of everything asks about every entry of the fresh manifest, in its
/// order, each frozen as it stands; one version that does not parse leaves no
/// plan.
pub proof fn law_a_whole_migration_plans_every_entry(
    app: &mut App,
    dest: String,
    read: PrefixRead,
    r: Result<Flow, String>,
    i: int,
)
    requires
        read.manifest is Loaded,
        call_ensures(App::reloaded, (app, AfterReload::MigrateAll { dest }, read), r),
    ensures
        r is Ok && r->Ok_0 is Done,
        ({
            let crates = read.manifest->manifest.crates@;
            let plan = final(app).confirm->0.action->plan@;
            let whole = forall|k: int|
                0 <= k < crates.len() ==> is_semver((#[trigger] crates[k]).1.version@);
            &&& crates.len() == 0 || !whole ==> final(app).confirm == old(app).confirm
            &&& crates.len() > 0 && whole ==> {
                &&& final(app).confirm is Some
                &&& final(app).confirm->0.action is MigrateAll
                &&& final(app).confirm->0.action->dest == dest
                &&& plan.len() == crates.len()
                &&& 0 <= i < crates.len() ==> {
                    &&& plan[i].name@ == crates[i].0@
                    &&& plan[i].dest@ == dest@
                    &&& plan[i].version@ == crates[i].1.version@
                    &&& plan[i].snap.version@ == crates[i].1.version@
                    &&& plan[i].snap.bins@ == crates[i].1.bins@
                    &&& plan[i].snap.locked == crates[i].1.locked
                    &&& plan[i].snap.pinned == crates[i].1.pinned
                    &&& plan[i].snap.built_with_rustc == crates[i].1.built_with_rustc
                }
            }
        }),
{
    let crates = read.manifest->manifest.crates@;
    let rows = final(app).rows@;
    let report = read.usable_report();
    assert forall|k: int| 0 <= k < crates.len() implies (#[trigger] rows[k]).shows(
        crates[k].0@,
        crates[k].1,
        match report {
            Some(report) => Some(&report),
            None => None,
        },
        read.manifest->also@,
    ) by {}
    let whole = forall|k: int|
        0 <= k < crates.len() ==> is_semver((#[trigger] crates[k]).1.version@);
    if whole {
        assert forall|k: int| 0 <= k < rows.len() implies is_semver((#[trigger] rows[k]).version@) by {
            assert(is_semver(crates[k].1.version@));
        }
        if 0 <= i < crates.len() {
            let plan = final(app).confirm->0.action->plan@;
            assert(super::resume::plans(plan[i], rows[i], dest@));
        }
    } else {
        let k = choose|k: int|
            0 <= k < crates.len() && !is_semver((#[trigger] crates[k]).1.version@);
        assert(!is_semver(rows[k].version@));
    }
}

/// The search for the other prefix goes on only where there is one: to look for
/// the selected crate there, to plan everything, or to go there.
pub proof fn law_a_missing_pair_is_said(
    app: &mut App,
    why: PairFor,
    dest: Option<String>,
    flow: Flow,
    row: Option<&Row>,
)
    requires
        call_ensures(App::selected_row, (&*old(app),), row),
        call_ensures(App::pair_found, (app, why, dest), flow),
    ensures
        dest is None ==> flow is Done && *final(app) == (App {
            message: final(app).message,
            ..*old(app)
        }) && final(app).message is Some,
        dest is Some && why is Migrate && row is Some ==> flow == (Flow::LookAt {
            dest: dest->0,
            name: row->0.name,
        }),
        dest is Some && why is Migrate && row is None ==> flow is Done,
        dest is Some && why is MigrateAll ==> flow == Flow::Reload(
            AfterReload::MigrateAll { dest: dest->0 },
        ),
        dest is Some && why is Jump && !idle(*old(app)) ==> only_refused(
            *old(app),
            *final(app),
            flow,
        ),
        dest is Some && why is Jump && idle(*old(app)) ==> flow is Reload && final(app).prefix
            == dest->0,
        !(why is Jump) ==> final(app).prefix == old(app).prefix,
{
}

/// A jump goes to the other prefix and keeps the selected crate's name; it lands
/// on that crate where the other side shows it, and else on the first row. What
/// stood in the panels stays behind.
pub proof fn law_a_jump_lands_on_the_same_crate(
    app: &mut App,
    dest: String,
    flow: Flow,
    name: Option<String>,
    there: &mut App,
    read: PrefixRead,
    r: Result<Flow, String>,
    row: Option<&Row>,
    seen: Vec<&Row>,
    i: int,
)
    requires
        idle(*old(app)),
        call_ensures(App::selected_name, (&*old(app),), name),
        call_ensures(App::jump_to_prefix, (app, dest), flow),
        flow is Reload,
        *old(there) == *final(app),
        !(read.manifest is Locked),
        call_ensures(App::reloaded, (there, flow->Reload_0, read), r),
        call_ensures(App::selected_row, (&*final(there),), row),
        call_ensures(App::visible, (&*final(there),), seen),
    ensures
        final(app).prefix == dest,
        final(there).prefix == dest,
        r is Ok && r->Ok_0 is Done,
        final(there).search_result is None && final(there).downgrade_choice is None
            && final(there).build_report is None,
        final(there).filter == old(app).filter,
        name is Some && 0 <= i < seen.len() && seen@[i].name@ == name->0@ ==> row is Some
            && row->0.name@ == name->0@,
        (name is None || forall|k: int|
            0 <= k < seen.len() ==> (#[trigger] seen@[k]).name@ != name->0@) ==> final(there).selected == 0,
        read.manifest is Loaded ==> said(*final(there), "now at "@ + dest@),
{
    let rows = final(there).view_rows();
    if name is Some {
        let names = super::resume::row_names(rows);
        crate::text::lemma_first_named(names, name->0@);
        assert forall|k: int| 0 <= k < seen.len() implies names[k] == (#[trigger] seen@[k]).name@ by {
            assert(rows[k] == *seen@[k]);
        }
        if crate::text::first_named(names, name->0@) is Some {
            let at = crate::text::first_named(names, name->0@)->0;
            assert(seen@[at].name@ == names[at]);
        }
    }
}

/// A jump whose other side cannot be locked goes back: the old prefix is read
/// again, the search is there again, and the footer says what failed.
pub proof fn law_a_jump_that_fails_goes_back(
    app: &mut App,
    dest: String,
    flow: Flow,
    there: &mut App,
    read: PrefixRead,
    r: Result<Flow, String>,
    back: &mut App,
    again: PrefixRead,
    last: Result<Flow, String>,
)
    requires
        idle(*old(app)),
        call_ensures(App::jump_to_prefix, (app, dest), flow),
        flow is Reload,
        *old(there) == *final(app),
        read.manifest is Locked,
        call_ensures(App::reloaded, (there, flow->Reload_0, read), r),
        r is Ok && r->Ok_0 is Reload,
        *old(back) == *final(there),
        call_ensures(App::reloaded, (back, r->Ok_0->Reload_0, again), last),
    ensures
        final(there).prefix == old(app).prefix,
        final(back).prefix == old(app).prefix,
        final(back).search_result == old(app).search_result,
        final(back).build_report == old(app).build_report,
        said(
            *final(back),
            "cannot read "@ + dest@ + ": "@ + read.manifest->Locked_0@ + " — staying here"@,
        ),
{
}

/// A mutation that needs privilege waits for the door, one that does not is
/// applied as it is, and a probe that failed is told.
pub proof fn law_a_mutation_waits_only_for_privilege(
    app: &mut App,
    op: PendingInPlace,
    needs: Result<bool, String>,
    flow: Flow,
    door: &mut App,
    preflight: Preflight,
    then: Flow,
)
    requires
        call_ensures(App::privilege_probed, (app, op, needs), flow),
        call_ensures(App::run_in_place, (door, op, preflight), then),
    ensures
        needs == Ok::<bool, String>(true) ==> flow is Done && final(app).pending_in_place == Some(
            op,
        ),
        needs == Ok::<bool, String>(false) ==> flow == Flow::Apply(op) && *final(app) == *old(app),
        needs is Err ==> flow is Done && said(*final(app), needs->Err_0@)
            && final(app).pending_in_place == old(app).pending_in_place,
        preflight is Ready ==> then == Flow::Apply(op) && *final(door) == *old(door),
        !(preflight is Ready) ==> then is Done,
        preflight is Reported ==> said(*final(door), preflight->Reported_0@)
            && final(door).pending == old(door).pending,
        preflight is NoCache && op is Remove ==> final(door).pending == Some(
            PendingAction::Remove(op->Remove_0),
        ),
        preflight is NoCache && op is SetPinned ==> final(door).pending == Some(
            PendingAction::SetPinned { name: op->name, pinned: op->pinned },
        ),
{
}

/// A pin that changed, and one that had not to, are told after a reload, by the
/// crate's name; a busy prefix and a failure are told at once.
pub proof fn law_a_pin_is_told_after_a_reload(
    app: &mut App,
    name: String,
    pinned: bool,
    result: Result<TuiSetPinned, String>,
    flow: Flow,
    listed: &mut App,
    read: PrefixRead,
    r: Result<Flow, String>,
)
    requires
        call_ensures(App::pin_applied, (app, name, pinned, result), flow),
        flow is Reload ==> call_ensures(App::reloaded, (listed, flow->Reload_0, read), r),
    ensures
        flow is Reload <==> result is Ok && !(result->Ok_0 is PrefixBusy),
        result is Err ==> said(
            *final(app),
            (if pinned {
                "pinned"@
            } else {
                "unpinned"@
            }) + " failed for `"@ + name@ + "`: "@ + result->Err_0@,
        ) && final(app).message->0.kind is Error,
        flow is Reload && read.manifest is Loaded && result->Ok_0 is Changed ==> said(
            *final(listed),
            (if pinned {
                "pinned"@
            } else {
                "unpinned"@
            }) + " "@ + name@ + " at "@ + result->Ok_0->version@,
        ) && final(listed).rows.len() == read.manifest->manifest.crates.len(),
        flow is Reload && read.manifest is Loaded && result->Ok_0 is Already ==> said(
            *final(listed),
            name@ + " is already "@ + (if pinned {
                "pinned"@
            } else {
                "unpinned"@
            }),
        ),
{
}

/// A removal is told after a reload, by the crate's name and its binaries; a busy
/// prefix and a failure are told at once.
pub proof fn law_a_removal_is_told_after_a_reload(
    app: &mut App,
    name: String,
    result: Result<TuiRemove, String>,
    flow: Flow,
    listed: &mut App,
    read: PrefixRead,
    r: Result<Flow, String>,
)
    requires
        call_ensures(App::remove_applied, (app, name, result), flow),
        flow is Reload ==> call_ensures(App::reloaded, (listed, flow->Reload_0, read), r),
    ensures
        flow is Reload <==> result is Ok && result->Ok_0 is Removed,
        result is Err ==> said(
            *final(app),
            "removing `"@ + name@ + "` failed: "@ + result->Err_0@,
        ) && final(app).message->0.kind is Error,
        flow is Reload && read.manifest is Loaded ==> said(
            *final(listed),
            "removed "@ + name@ + " ("@ + joined(texts(result->Ok_0->Removed_0@), ", "@) + ")"@,
        ) && final(listed).rows.len() == read.manifest->manifest.crates.len(),
{
}

/// A command that had the terminal is told by its own words, as it ended; a
/// prefix that cannot be locked afterwards ends the session.
pub proof fn law_a_handover_is_told(
    app: &mut App,
    action: PendingAction,
    outcome: Result<(), String>,
    read: PrefixRead,
    r: Result<Flow, String>,
    retry: &mut App,
    retried: Result<Flow, String>,
)
    requires
        call_ensures(App::reloaded, (app, AfterReload::Terminal { action, outcome }, read), r),
        call_ensures(App::reloaded, (retry, AfterReload::Retry, read), retried),
    ensures
        r is Err <==> read.manifest is Locked,
        r is Ok && outcome is Ok ==> said(*final(app), action.label() + " finished"@),
        r is Ok && outcome is Err ==> said(
            *final(app),
            action.label() + " failed: "@ + outcome->Err_0@,
        ) && final(app).message->0.kind is Error,
        read.manifest is Loaded ==> final(retry).manifest_error is None && said(
            *final(retry),
            "the manifest loads again"@,
        ),
        read.manifest is Refused ==> final(retry).manifest_error is Some,
{
}

/// An accepted cancel has its grace, two seconds from when it was first accepted;
/// what the build answered is what is said, and a Ctrl-C leaves once the build is
/// over.
pub proof fn law_a_cancel_is_answered_in_full(
    app: &mut App,
    why: CancelFor,
    answer: ActiveCancel,
    now: u64,
)
    requires
        now <= u64::MAX - 2000,
        old(app).job is Some && old(app).job->0 is Build,
        call_ensures(App::cancel_answered, (app, why, answer, now), ()),
    ensures
        ({
            let (was, is) = (old(app).job->0->Build_0, final(app).job->0->Build_0);
            let accepted = answer == ActiveCancel::Build(CancelOutcome::Accepted) && !(
            why is Overdue);
            &&& final(app).job is Some && final(app).job->0 is Build
            &&& is.name == was.name && is.kind == was.kind && is.warnings == was.warnings
            &&& accepted && was.cancel_deadline is None ==> is.cancel_deadline == Some(
                (now + 2000) as u64,
            )
            &&& accepted && was.cancel_deadline is Some ==> is.cancel_deadline
                == was.cancel_deadline
            &&& !accepted ==> is.cancel_deadline == was.cancel_deadline
            &&& why is Quit ==> final(app).quit_after_build
            &&& !(why is Quit) ==> final(app).quit_after_build == old(app).quit_after_build
            &&& why is Key && answer is BatchBetweenMembers ==> said(
                *final(app),
                "stopping: no further crate will be started"@,
            )
            &&& why is Key && answer == ActiveCancel::Build(CancelOutcome::Killed) ==> said(
                *final(app),
                "SIGKILL sent to the "@ + was.name@ + " build"@,
            )
            &&& why is Key && answer == ActiveCancel::Build(CancelOutcome::TooLate) ==> said(
                *final(app),
                if was.control is Batch || (old(app).migrate_batch is Some
                    && old(app).migrate_batch->0.stopping
                    && old(app).migrate_batch->0.runner.queue@.len() > 0) {
                    "placement already started for this crate; the batch stops after it"@
                } else {
                    "placement already started; too late to cancel"@
                },
            )
            &&& why is Key && accepted ==> said(
                *final(app),
                "cancelling "@ + was.name@ + "… (c again sends SIGKILL)"@,
            )
            &&& why is Overdue && answer != ActiveCancel::Build(CancelOutcome::Killed) ==> final(app).message == old(app).message
        }),
        final(app).migrate_batch == old(app).migrate_batch,
        !final(app).should_quit || old(app).should_quit,
{
}

/// A turn of the run loop counts one frame; it asks for an overdue cancel exactly
/// where the grace has run out, and disarms it.
pub proof fn law_a_turn_escalates_an_overdue_cancel(app: &mut App, now: u64, flow: Flow)
    requires
        call_ensures(App::tick, (app, now), flow),
    ensures
        ({
            let due = old(app).job is Some && old(app).job->0 is Build
                && old(app).job->0->Build_0.cancel_deadline is Some && now >= old(app).job->0->Build_0.cancel_deadline->0;
            &&& due ==> flow == Flow::RequestCancel(CancelFor::Overdue) && final(app).job is Some
                && final(app).job->0 is Build && final(app).job->0->Build_0.cancel_deadline is None
            &&& !due ==> flow is Done && final(app).job == old(app).job
        }),
        old(app).ticks < usize::MAX ==> final(app).ticks == old(app).ticks + 1,
        final(app).rows == old(app).rows && final(app).message == old(app).message,
{
}

/// A worker that waits for a password is prompted for, with the prefix and the
/// step that it named; under a cancel it is refused without a prompt. It is
/// authorized exactly where the credentials hold after the prompt.
pub proof fn law_a_waiting_worker_is_answered(
    app: &mut App,
    cancelled: bool,
    ask: AuthAsk,
    then: &mut App,
    outcome: Result<Result<bool, String>, String>,
    answer: AuthAnswer,
)
    requires
        old(app).job is Some && old(app).job->0 is Build,
        call_ensures(App::answer_auth, (app, cancelled), ask),
        call_ensures(App::auth_prompted, (then, outcome), answer),
    ensures
        ({
            let needs = old(app).job->0->Build_0.needs_auth;
            &&& cancelled ==> ask is Answer && ask->Answer_0 is Refused
            &&& !cancelled && needs is Some ==> ask is Prompt && needs == Some(
                (ask->target, ask->purpose),
            )
            &&& !cancelled && needs is None ==> ask is Nothing
            &&& final(app).job is Some && final(app).job->0 is Build
                && final(app).job->0->Build_0.needs_auth is None
        }),
        answer is Authorized <==> outcome == Ok::<Result<bool, String>, String>(
            Ok::<bool, String>(true),
        ),
        answer is Refused && outcome is Err ==> answer->Refused_0 == outcome->Err_0,
        answer is Refused && outcome is Ok && outcome->Ok_0 is Err ==> answer->Refused_0
            == outcome->Ok_0->Err_0,
        answer is Refused ==> final(then).message is Some && final(then).message->0.kind is Warning,
{
}

/// A typed list and both sweeps begin exactly where the preflight is ready, as a
/// batch of their own shape with nobody tried yet and everybody still to come;
/// else the same work is handed over, or the report is told.
pub proof fn law_a_batch_begins_with_everybody_to_come(
    list: &mut App,
    crates: Vec<String>,
    locked: bool,
    rebuild: &mut App,
    frozen: Vec<(String, ReinstallPlan)>,
    update: &mut App,
    planned: Vec<PlannedUpdate>,
    preflight: Preflight,
    needs: Result<bool, String>,
    note: &str,
    now: u64,
    l: bool,
    r: bool,
    u: bool,
)
    requires
        call_ensures(
            App::start_install_batch,
            (list, crates, locked, preflight, &needs, note, now),
            l,
        ),
        call_ensures(
            App::start_confirmed_sweep,
            (rebuild, &frozen, preflight, &needs, note, now),
            r,
        ),
        call_ensures(
            App::start_confirmed_update_sweep,
            (update, &planned, preflight, &needs, note, now),
            u,
        ),
    ensures
        l == (preflight is Ready) && r == (preflight is Ready) && u == (preflight is Ready),
        l ==> begins_as(*final(list), BatchShape::List, crates.len() as nat, now)
            && final(list).job->0->Build_0.kind is Install,
        r ==> begins_as(*final(rebuild), BatchShape::Rebuild, frozen.len() as nat, now)
            && final(rebuild).job->0->Build_0.kind is Reinstall,
        u ==> begins_as(*final(update), BatchShape::Update, planned.len() as nat, now)
            && final(update).job->0->Build_0.kind is Update,
        preflight is NoCache ==> final(list).pending == Some(
            PendingAction::Install { crates, locked },
        ) && final(rebuild).pending == Some(PendingAction::ReinstallAll) && final(update).pending
            == Some(PendingAction::UpdateAll),
        preflight is Reported ==> said(*final(list), preflight->Reported_0@) && said(
            *final(rebuild),
            preflight->Reported_0@,
        ) && said(*final(update), preflight->Reported_0@),
        !(preflight is Ready) ==> final(list).job == old(list).job && final(list).install_batch
            == old(list).install_batch,
        preflight is Ready && needs == Ok::<bool, String>(true) ==> said(*final(list), note@),
{
}

/// Whether a batch of this shape has just begun: its job is a batch's, it counts
/// so many members, and none of them was tried, counted or filed.
pub open spec fn begins_as(app: App, shape: BatchShape, total: nat, now: u64) -> bool {
    &&& app.install_batch is Some
    &&& app.install_batch->0.shape == shape
    &&& app.install_batch->0.runner.total == total
    &&& app.install_batch->0.runner.succeeded == 0
    &&& app.install_batch->0.attempted == 0
    &&& app.install_batch->0.current is None
    &&& app.install_batch->0.plan_warnings@.len() == 0
    &&& forall|i: int|
        0 <= i < app.install_batch->0.runner.sections.len() ==> (
        #[trigger] app.install_batch->0.runner.sections@[i]).entries@.len() == 0
    &&& app.build_report is None
    &&& app.job is Some && app.job->0 is Build
    &&& app.job->0->Build_0.control is Batch
    &&& app.job->0->Build_0.name@ == decimal(total) + " crates"@
    &&& app.job->0->Build_0.started == now
}

/// A typed list is built from what its specs read as, in the order typed, and
/// refused as a whole where it is not one that an install takes.
pub proof fn law_a_typed_list_is_read_whole(
    app: &mut App,
    crates: Vec<String>,
    r: Option<Vec<InstallSpec>>,
    parsed: Result<Vec<InstallSpec>, Invalid>,
    i: int,
)
    requires
        call_ensures(InstallSpec::parse_all, (&crates,), parsed),
        call_ensures(App::install_batch_specs, (app, &crates), r),
    ensures
        r is Some <==> parsed is Ok,
        r is Some ==> r->0.len() == crates.len() && *final(app) == *old(app),
        r is Some && 0 <= i < crates.len() ==> r->0@[i].name@ == parsed->Ok_0@[i].name@ && (
        r->0@[i].version is Some <==> parsed->Ok_0@[i].version is Some) && (
        r->0@[i].version is Some ==> r->0@[i].version->0@ == parsed->Ok_0@[i].version->0@),
        r is None ==> final(app).message is Some && final(app).message->0.kind is Error && *final(app) == (App { message: final(app).message, ..*old(app) }),
{
    if r is Some && 0 <= i < crates.len() {
        assert(r->0@[i].reads(crates@[i]@));
        assert(parsed->Ok_0@[i].reads(crates@[i]@));
    }
}

/// The question about everything counts the crates and names both prefixes; a
/// prefix with nothing in it is asked nothing.
pub proof fn law_a_whole_migration_is_asked_about_in_full(
    app: &mut App,
    dest: String,
    read: PrefixRead,
    r: Result<Flow, String>,
)
    requires
        read.manifest is Loaded,
        old(app).confirm is None,
        call_ensures(App::reloaded, (app, AfterReload::MigrateAll { dest }, read), r),
    ensures
        final(app).confirm is Some ==> final(app).confirm->0.prompt@ == sanitized(
            "migrate all "@ + decimal(read.manifest->manifest.crates.len() as nat)
                + " crate(s): "@ + old(app).prefix@ + " -> "@ + dest@
                + "? pinned crates keep their exact version, unpinned get the latest, then retired here; c cancels the batch [y/N]"@,
        ),
        read.manifest->manifest.crates.len() == 0 ==> said(*final(app), "nothing to migrate"@),
{
}

/// A quit that waits for a build says what it waits for.
pub proof fn law_a_quit_says_what_it_waits_for(app: &mut App, answer: ActiveCancel, now: u64)
    requires
        now <= u64::MAX - 2000,
        old(app).job is Some && old(app).job->0 is Build,
        call_ensures(App::cancel_answered, (app, CancelFor::Quit, answer, now), ()),
    ensures
        final(app).quit_after_build,
        said(
            *final(app),
            match answer {
                ActiveCancel::BatchBetweenMembers => "stopping: quitting when the batch finishes"@,
                ActiveCancel::Build(
                    CancelOutcome::Accepted,
                ) => "cancelling; quitting when the build stops (Ctrl-C again: SIGKILL)"@,
                ActiveCancel::Build(
                    CancelOutcome::Killed,
                ) => "SIGKILL sent; quitting when the build stops"@,
                ActiveCancel::Build(
                    CancelOutcome::AlreadyStopping,
                ) => "the build is already stopping; quitting when it does"@,
                ActiveCancel::Build(
                    CancelOutcome::TooLate,
                ) => "placement in progress; quitting when it finishes"@,
            },
        ),
{
}

/// A note about the prefix is said only where nothing else was, and a cancel that
/// has nothing to reach changes nothing.
pub proof fn law_a_note_never_talks_over_a_message(
    app: &mut App,
    note: Option<&str>,
    idle_app: &mut App,
    why: CancelFor,
    answer: ActiveCancel,
    now: u64,
)
    requires
        call_ensures(App::note_prefix, (app, note), ()),
        now <= u64::MAX - 2000,
        !(old(idle_app).job is Some && old(idle_app).job->0 is Build),
        call_ensures(App::cancel_answered, (idle_app, why, answer, now), ()),
    ensures
        note is Some && old(app).message is None ==> said(*final(app), note->0@)
            && final(app).message->0.kind is Warning,
        note is None || old(app).message is Some ==> *final(app) == *old(app),
        *final(idle_app) == *old(idle_app),
{
}

/// What is said of a crate that is at the other prefix already names it, the
/// prefix and the version there.
pub proof fn law_a_copy_at_the_destination_is_named(
    app: &mut App,
    dest: String,
    there: String,
    row: Option<&Row>,
)
    requires
        call_ensures(App::selected_row, (&*old(app),), row),
        row is Some,
        call_ensures(App::destination_seen, (app, dest, Some(there)), ()),
    ensures
        said(
            *final(app),
            row->0.name@ + " is already installed at "@ + dest@ + " ("@ + there@
                + "); remove one side first (no --force by design)"@,
        ),
{
}

/// A whole migration that cannot be planned names the first row whose version does
/// not parse.
pub proof fn law_the_first_unparsable_row_is_named(
    app: &mut App,
    dest: String,
    read: PrefixRead,
    r: Result<Flow, String>,
    i: int,
)
    requires
        read.manifest is Loaded,
        call_ensures(App::reloaded, (app, AfterReload::MigrateAll { dest }, read), r),
        0 <= i < read.manifest->manifest.crates.len(),
        !is_semver(read.manifest->manifest.crates@[i].1.version@),
        forall|k: int|
            0 <= k < i ==> is_semver(
                (#[trigger] read.manifest->manifest.crates@[k]).1.version@,
            ),
    ensures
        said(
            *final(app),
            "manifest holds unparsable version for `"@ + read.manifest->manifest.crates@[i].0@
                + "`; verify says more"@,
        ),
        final(app).message->0.kind is Error,
{
    let crates = read.manifest->manifest.crates@;
    let rows = final(app).rows@;
    let report = read.usable_report();
    assert forall|k: int| 0 <= k < crates.len() implies (#[trigger] rows[k]).shows(
        crates[k].0@,
        crates[k].1,
        match report {
            Some(report) => Some(&report),
            None => None,
        },
        read.manifest->also@,
    ) by {}
    assert(!is_semver(rows[i].version@));
    let k = choose|k: int|
        #[trigger] super::resume::first_unparsable(rows, k) && final(app).says(
            crate::state::unparsable_version(rows[k].name@),
            crate::state::MessageKind::Error,
        );
    if k < i {
        assert(is_semver(crates[k].1.version@));
    } else if k > i {
        assert(is_semver(rows[i].version@));
    }
}

/// A jump onto a manifest that does not load says so there, and one that had to
/// turn back says what it said of the report.
pub proof fn law_a_jump_says_what_it_found(
    there: &mut App,
    keep: Option<String>,
    search: Option<crate::state::SearchResult>,
    back: String,
    read: PrefixRead,
    r: Result<Flow, String>,
)
    requires
        call_ensures(App::reloaded, (there, AfterReload::Jump { keep, search, back }, read), r),
    ensures
        read.manifest is Refused ==> said(*final(there), super::degraded_text())
            && final(there).rows.len() == 0 && final(there).manifest_error is Some,
        read.manifest is Locked && read.report is Err ==> said(
            *final(there),
            "update report unreadable: "@ + read.report->Err_0@,
        ),
        read.manifest is Locked && read.report is Ok ==> final(there).message == old(there).message,
        read.manifest is Locked ==> final(there).rows == old(there).rows && final(there).selected == old(there).selected && final(there).report_age == old(there).report_age,
{
}

/// What is said where there is no other prefix says what to do instead, and a busy
/// session says why it stays.
pub proof fn law_a_missing_pair_says_what_to_do(
    one: &mut App,
    all: &mut App,
    jump: &mut App,
    busy: &mut App,
    dest: String,
    m: Flow,
    w: Flow,
    j: Flow,
    b: Flow,
    gone: &mut App,
    name: String,
    r: Flow,
    pin: &mut App,
    pinned: bool,
    p: Flow,
)
    requires
        call_ensures(App::pair_found, (one, PairFor::Migrate, None), m),
        call_ensures(App::pair_found, (all, PairFor::MigrateAll, None), w),
        call_ensures(App::pair_found, (jump, PairFor::Jump, None), j),
        !idle(*old(busy)),
        call_ensures(App::pair_found, (busy, PairFor::Jump, Some(dest)), b),
        call_ensures(App::remove_applied, (gone, name, Ok(TuiRemove::PrefixBusy)), r),
        call_ensures(App::pin_applied, (pin, name, pinned, Ok(TuiSetPinned::PrefixBusy)), p),
    ensures
        said(
            *final(one),
            "TUI migrate covers the /usr/local <-> ~/.local pair; migrate elsewhere via the CLI: cargo lbin migrate NAME --to PREFIX"@,
        ),
        said(
            *final(all),
            "TUI migrate covers the /usr/local <-> ~/.local pair; migrate elsewhere via the CLI: cargo lbin migrate --all --to PREFIX"@,
        ),
        said(
            *final(jump),
            "TUI prefix switching covers the /usr/local <-> ~/.local pair; run with --prefix for anything else"@,
        ),
        said(
            *final(busy),
            "an operation is running or queued; finish or cancel it first"@,
        ),
        said(
            *final(gone),
            "the prefix is busy (another cargo-lbin holds its lock); try again"@,
        ) && r is Done,
        said(
            *final(pin),
            "the prefix is busy (another cargo-lbin holds its lock); try again"@,
        ) && p is Done,
{
}

/// What is said where sudo keeps no credentials says what happens instead.
pub proof fn law_a_sudo_that_keeps_nothing_is_said(
    build: &mut App,
    req: PendingBuild,
    spec: InstallSpec,
    now: u64,
    b: Begun,
    migrate: &mut App,
    plan: PendingMigrate,
    late: Option<&str>,
    m: Result<MigrateOrders, StartOutcome>,
    list: &mut App,
    crates: Vec<String>,
    locked: bool,
    needs: Result<bool, String>,
    note: &str,
    l: bool,
    door: &mut App,
    op: PendingInPlace,
    d: Flow,
    given: &mut App,
    answer: AuthAnswer,
)
    requires
        call_ensures(App::build_preflighted, (build, req, spec, Preflight::NoCache, now), b),
        call_ensures(
            App::migrate_preflighted,
            (migrate, plan, Preflight::NoCache, late, now),
            m,
        ),
        call_ensures(
            App::start_install_batch,
            (list, crates, locked, Preflight::NoCache, &needs, note, now),
            l,
        ),
        call_ensures(App::run_in_place, (door, op, Preflight::NoCache), d),
        call_ensures(App::auth_prompted, (given, Ok(Ok(false))), answer),
    ensures
        b->Not_0->reason@ == "sudo does not cache credentials here; handing the terminal over"@,
        m is Err && m->Err_0->Refused_0@
            == "sudo does not cache credentials here; migrate via the CLI, which prompts interactively"@,
        said(
            *final(list),
            "sudo does not cache credentials here; handing the terminal over"@,
        ),
        said(
            *final(door),
            "sudo does not cache credentials here; handing the terminal over"@,
        ),
        said(
            *final(given),
            "sudo did not retain credentials; noninteractive placement cannot proceed"@,
        ),
        answer is Refused && answer->Refused_0@
            == "sudo did not retain credentials; noninteractive placement cannot proceed"@,
{
}

/// What a cancel that was answered again says, and what an overdue one does.
pub proof fn law_a_repeated_cancel_says_where_it_stands(
    again: &mut App,
    overdue: &mut App,
    now: u64,
)
    requires
        now <= u64::MAX - 2000,
        old(again).job is Some && old(again).job->0 is Build,
        call_ensures(
            App::cancel_answered,
            (
                again,
                CancelFor::Key,
                ActiveCancel::Build(CancelOutcome::AlreadyStopping),
                now,
            ),
            (),
        ),
        old(overdue).job is Some && old(overdue).job->0 is Build,
        call_ensures(
            App::cancel_answered,
            (overdue, CancelFor::Overdue, ActiveCancel::Build(CancelOutcome::Killed), now),
            (),
        ),
    ensures
        said(*final(again), "the build is already stopping"@)
            && final(again).message->0.kind is Info,
        said(*final(overdue), "the build ignored the cancel; SIGKILL sent"@)
            && final(overdue).message->0.kind is Warning,
{
}

} // verus!
