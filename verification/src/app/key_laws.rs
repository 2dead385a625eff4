//! What each key is for: from the key and the screen to what is queued, started
//! or asked.
use super::keys::{crate_tokens, parse_install_input, parse_search_input, Key, KeyCode};
use super::{AfterReload, App, CancelFor, Flow, PairFor, Work};
use crate::job::{BuildIntent, Job};
use crate::state::{OnConfirm, PendingInPlace, Row};
use crate::text::{joined, sanitized, texts, words};
use crate::validate::{
    lemma_spec_parts, spec_name, spec_version, valid_name, valid_spec, valid_specs,
};
use crate::version::is_semver;
use vstd::prelude::*;

verus! {

/// A key without a modifier.
pub open spec fn plain(code: KeyCode) -> Key {
    Key { code, ctrl: false }
}

/// Whether a key goes to the list: nothing stands before it, and the manifest is
/// loaded.
pub open spec fn at_the_list(app: App) -> bool {
    &&& !app.show_help
    &&& app.build_report is None
    &&& app.confirm is None
    &&& app.input is None
    &&& app.manifest_error is None
}

/// Whether nothing runs and nothing is queued.
pub open spec fn idle(app: App) -> bool {
    &&& app.job is None
    &&& app.migrate_batch is None
    &&& app.install_batch is None
    &&& app.pending_install_batch is None
    &&& app.pending_reinstall_sweep is None
    &&& app.pending_update_sweep is None
    &&& app.pending_in_place is None
    &&& app.pending_migrate is None
    &&& app.pending_build is None
    &&& app.pending is None
}

/// Only the footer changed, and it says no.
pub open spec fn only_refused(before: App, after: App, flow: Flow) -> bool {
    &&& after == (App { message: after.message, ..before })
    &&& after.message is Some && after.message->0.kind is Error
    &&& flow is Done
}

/// A digit on an offer queues the crate of the offer at exactly the version with
/// that number, and takes the offer down; what was installed when the offer was
/// made goes along.
pub proof fn law_a_digit_picks_its_version(app: &mut App, c: char, d: int, now: u64, flow: Flow)
    requires
        at_the_list(*old(app)),
        idle(*old(app)),
        old(app).downgrade_choice is Some,
        1 <= d <= 9,
        c as int == '0' as int + d,
        d <= old(app).downgrade_choice->0.versions.len(),
        call_ensures(App::on_key, (app, plain(KeyCode::Char(c)), now), flow),
    ensures
        ({
            let choice = old(app).downgrade_choice->0;
            let version = choice.versions@[d - 1];
            &&& flow is Done
            &&& final(app).downgrade_choice is None
            &&& final(app).pending_build is Some
            &&& final(app).pending_build->0.intent == BuildIntent::Downgrade(choice.current)
            &&& !final(app).pending_build->0.locked
            &&& final(app).pending_build->0.spec@ == choice.name@ + "@"@ + version@
            &&& valid_name(choice.name@) && is_semver(version@) ==> {
                let spec = final(app).pending_build->0.spec@;
                valid_spec(spec) && spec_name(spec) == choice.name@ && spec_version(spec) == Some(
                    version@,
                )
            }
            &&& final(app).message is Some && final(app).message->0.text@ == sanitized(
                "downgrading "@ + choice.name@ + " "@ + choice.current@ + " -> "@ + version@,
            )
            &&& final(app).job is None
        }),
{
    let choice = old(app).downgrade_choice->0;
    let version = choice.versions@[d - 1];
    if valid_name(choice.name@) && is_semver(version@) {
        lemma_spec_parts(choice.name@, version@);
    }
}

/// On one offer of distinct versions, two digits queue two different builds.
pub proof fn law_two_digits_pick_two_versions(
    one: &mut App,
    two: &mut App,
    c: char,
    e: char,
    d: int,
    f: int,
    now: u64,
    first: Flow,
    second: Flow,
)
    requires
        at_the_list(*old(one)) && at_the_list(*old(two)),
        idle(*old(one)) && idle(*old(two)),
        old(one).downgrade_choice is Some,
        old(two).downgrade_choice == old(one).downgrade_choice,
        1 <= d <= 9 && 1 <= f <= 9,
        c as int == '0' as int + d && e as int == '0' as int + f,
        d <= old(one).downgrade_choice->0.versions.len(),
        f <= old(one).downgrade_choice->0.versions.len(),
        valid_name(old(one).downgrade_choice->0.name@),
        is_semver(old(one).downgrade_choice->0.versions@[d - 1]@),
        is_semver(old(one).downgrade_choice->0.versions@[f - 1]@),
        old(one).downgrade_choice->0.versions@[d - 1]@ != old(one).downgrade_choice->0.versions@[f - 1]@,
        call_ensures(App::on_key, (one, plain(KeyCode::Char(c)), now), first),
        call_ensures(App::on_key, (two, plain(KeyCode::Char(e)), now), second),
    ensures
        final(one).pending_build->0.spec@ != final(two).pending_build->0.spec@,
{
    law_a_digit_picks_its_version(one, c, d, now, first);
    law_a_digit_picks_its_version(two, e, f, now, second);
}

/// A digit past the offer queues nothing and leaves the offer up.
pub proof fn law_a_digit_past_the_offer_does_nothing(
    app: &mut App,
    c: char,
    now: u64,
    flow: Flow,
)
    requires
        at_the_list(*old(app)),
        idle(*old(app)),
        old(app).downgrade_choice is Some,
        '1' <= c <= '9',
        c as int - '0' as int > old(app).downgrade_choice->0.versions.len(),
        call_ensures(App::on_key, (app, plain(KeyCode::Char(c)), now), flow),
    ensures
        *final(app) == *old(app),
        flow is Done,
{
}

/// A digit on a search opens the install line with the name of the hit with that
/// number, and starts nothing.
pub proof fn law_a_digit_takes_its_hit(app: &mut App, c: char, d: int, now: u64, flow: Flow)
    requires
        at_the_list(*old(app)),
        old(app).downgrade_choice is None,
        old(app).search_result is Some,
        1 <= d <= 9,
        c as int == '0' as int + d,
        call_ensures(App::on_key, (app, plain(KeyCode::Char(c)), now), flow),
    ensures
        flow is Done,
        d <= old(app).search_result->0.hits.len() ==> final(app).input is Some
            && final(app).input->0.purpose is Install && final(app).input->0.buffer@ == old(app).search_result->0.hits@[d - 1].name@,
        d > old(app).search_result->0.hits.len() ==> final(app).input is None,
        *final(app) == (App { input: final(app).input, ..*old(app) }),
{
}

/// `u` and Enter look up an update of the selected crate, and of no other.
pub proof fn law_u_updates_the_selected_crate(
    app: &mut App,
    code: KeyCode,
    now: u64,
    flow: Flow,
    row: Option<&Row>,
)
    requires
        at_the_list(*old(app)),
        idle(*old(app)),
        code == KeyCode::Char('u') || code == KeyCode::Enter,
        call_ensures(App::selected_row, (&*old(app),), row),
        call_ensures(App::on_key, (app, plain(code), now), flow),
    ensures
        row is None ==> *final(app) == *old(app) && flow is Done,
        row is Some ==> {
            &&& flow is Start && flow->Start_0 is UpdatePlan
            &&& flow->Start_0->UpdatePlan_name == row->0.name
            &&& final(app).job is Some && final(app).job->0 is UpdatePlan
            &&& final(app).job->0->UpdatePlan_name == row->0.name
            &&& !final(app).job->0->UpdatePlan_cancel
            &&& final(app).pending_build is None && final(app).confirm is None
        },
{
}

/// `D` asks which versions precede the selected crate's, at the version that the
/// row shows; a version that is none is refused.
pub proof fn law_capital_d_looks_for_older_versions(
    app: &mut App,
    now: u64,
    flow: Flow,
    row: Option<&Row>,
)
    requires
        at_the_list(*old(app)),
        idle(*old(app)),
        call_ensures(App::selected_row, (&*old(app),), row),
        call_ensures(App::on_key, (app, plain(KeyCode::Char('D')), now), flow),
    ensures
        row is None ==> *final(app) == *old(app) && flow is Done,
        row is Some && !is_semver(row->0.version@) ==> only_refused(*old(app), *final(app), flow),
        row is Some && is_semver(row->0.version@) ==> {
            &&& flow is Start && flow->Start_0 is Downgrade
            &&& flow->Start_0->Downgrade_name == row->0.name
            &&& flow->Start_0->current@ == row->0.version@
            &&& final(app).job is Some && final(app).job->0 is Downgrade
            &&& final(app).job->0->Downgrade_name == row->0.name
            &&& final(app).job->0->Downgrade_current@ == row->0.version@
            &&& !final(app).job->0->Downgrade_cancel
        },
{
}

/// `t` queues a rebuild of the selected crate, by its name alone.
pub proof fn law_t_rebuilds_the_selected_crate(
    app: &mut App,
    now: u64,
    flow: Flow,
    row: Option<&Row>,
)
    requires
        at_the_list(*old(app)),
        idle(*old(app)),
        call_ensures(App::selected_row, (&*old(app),), row),
        call_ensures(App::on_key, (app, plain(KeyCode::Char('t')), now), flow),
    ensures
        flow is Done,
        row is None ==> *final(app) == *old(app),
        row is Some ==> final(app).pending_build is Some && final(app).pending_build->0.spec
            == row->0.name && final(app).pending_build->0.intent is Reinstall && !final(app).pending_build->0.locked && final(app).job is None,
{
}

/// `p` turns the selected crate's pin around, and asks nothing.
pub proof fn law_p_turns_the_pin_around(app: &mut App, now: u64, flow: Flow, row: Option<&Row>)
    requires
        at_the_list(*old(app)),
        idle(*old(app)),
        call_ensures(App::selected_row, (&*old(app),), row),
        call_ensures(App::on_key, (app, plain(KeyCode::Char('p')), now), flow),
    ensures
        *final(app) == *old(app),
        row is None ==> flow is Done,
        row is Some ==> flow is ProbePrivilege && flow->ProbePrivilege_0 is SetPinned
            && flow->ProbePrivilege_0->name == row->0.name && flow->ProbePrivilege_0->pinned
            == !row->0.pinned,
{
}

/// `x` asks whether to remove the selected crate, naming its binaries, and
/// removes nothing yet.
pub proof fn law_x_asks_before_it_removes(app: &mut App, now: u64, flow: Flow, row: Option<&Row>)
    requires
        at_the_list(*old(app)),
        call_ensures(App::selected_row, (&*old(app),), row),
        call_ensures(App::on_key, (app, plain(KeyCode::Char('x')), now), flow),
    ensures
        flow is Done,
        row is None ==> *final(app) == *old(app),
        row is Some ==> {
            &&& *final(app) == (App { confirm: final(app).confirm, ..*old(app) })
            &&& final(app).confirm is Some
            &&& final(app).confirm->0.action is Remove
            &&& final(app).confirm->0.action->Remove_name == row->0.name
            &&& final(app).confirm->0.prompt@ == sanitized(
                "remove "@ + row->0.name@ + " ("@ + joined(texts(row->0.bins@), ", "@)
                    + ")? [y/N]"@,
            )
        },
{
}

/// `m` looks for the other prefix for the selected crate, `M` for all of them,
/// `B` to go there; none of them changes anything yet.
pub proof fn law_the_other_prefix_is_looked_for(
    one: &mut App,
    all: &mut App,
    jump: &mut App,
    now: u64,
    m: Flow,
    capital_m: Flow,
    capital_b: Flow,
    row: Option<&Row>,
)
    requires
        at_the_list(*old(one)) && at_the_list(*old(all)) && at_the_list(*old(jump)),
        call_ensures(App::selected_row, (&*old(one),), row),
        call_ensures(App::on_key, (one, plain(KeyCode::Char('m')), now), m),
        call_ensures(App::on_key, (all, plain(KeyCode::Char('M')), now), capital_m),
        call_ensures(App::on_key, (jump, plain(KeyCode::Char('B')), now), capital_b),
    ensures
        *final(one) == *old(one) && *final(all) == *old(all) && *final(jump) == *old(jump),
        row is Some ==> m == Flow::FindPair(PairFor::Migrate),
        row is None ==> m is Done,
        capital_m == Flow::FindPair(PairFor::MigrateAll),
        capital_b == Flow::FindPair(PairFor::Jump),
{
}

/// `U` checks everything, `T` reads everything, `v` audits, `r` re-reads for a
/// check: each starts its own work and takes the slot for it.
pub proof fn law_sweeps_and_audits_start_their_work(
    update: &mut App,
    rebuild: &mut App,
    audit: &mut App,
    check: &mut App,
    now: u64,
    u: Flow,
    t: Flow,
    v: Flow,
    r: Flow,
)
    requires
        at_the_list(*old(update)) && idle(*old(update)),
        at_the_list(*old(rebuild)) && idle(*old(rebuild)),
        at_the_list(*old(audit)) && idle(*old(audit)),
        at_the_list(*old(check)) && idle(*old(check)),
        call_ensures(App::on_key, (update, plain(KeyCode::Char('U')), now), u),
        call_ensures(App::on_key, (rebuild, plain(KeyCode::Char('T')), now), t),
        call_ensures(App::on_key, (audit, plain(KeyCode::Char('v')), now), v),
        call_ensures(App::on_key, (check, plain(KeyCode::Char('r')), now), r),
    ensures
        u == Flow::Start(Work::UpdateSweepCheck) && final(update).job == Some(
            Job::UpdateSweepCheck { cancel: false },
        ),
        t == Flow::Start(Work::ReinstallPlan) && final(rebuild).job == Some(
            Job::ReinstallPlan { cancel: false },
        ),
        v == Flow::Start(Work::Verify) && final(audit).job == Some(
            Job::Verify { started: now, cancel: false },
        ),
        r == Flow::Reload(AfterReload::Check) && *final(check) == *old(check),
        final(update).confirm is None && final(rebuild).confirm is None,
{
}

/// While anything runs or is queued, the keys that would start or queue something
/// say so and change nothing else.
pub proof fn law_a_busy_session_refuses_more_work(
    app: &mut App,
    code: KeyCode,
    now: u64,
    flow: Flow,
    row: Option<&Row>,
)
    requires
        at_the_list(*old(app)),
        !idle(*old(app)),
        call_ensures(App::selected_row, (&*old(app),), row),
        call_ensures(App::on_key, (app, plain(code), now), flow),
    ensures
        code == KeyCode::Char('u') || code == KeyCode::Enter || code == KeyCode::Char('U') || code
            == KeyCode::Char('t') || code == KeyCode::Char('T') || code == KeyCode::Char('D')
            ==> only_refused(*old(app), *final(app), flow),
        code == KeyCode::Char('p') && row is Some ==> only_refused(*old(app), *final(app), flow),
        old(app).job is Some && (code == KeyCode::Char('v') || code == KeyCode::Char('r') || code
            == KeyCode::Char('i') || code == KeyCode::Char('s')) ==> only_refused(
            *old(app),
            *final(app),
            flow,
        ),
{
}

/// `i` opens an empty install line and `s` an empty search line; `?` opens the
/// help.
pub proof fn law_lines_open_empty(
    install: &mut App,
    search: &mut App,
    help: &mut App,
    now: u64,
    i: Flow,
    s: Flow,
    h: Flow,
)
    requires
        at_the_list(*old(install)) && old(install).job is None,
        at_the_list(*old(search)) && old(search).job is None,
        at_the_list(*old(help)),
        call_ensures(App::on_key, (install, plain(KeyCode::Char('i')), now), i),
        call_ensures(App::on_key, (search, plain(KeyCode::Char('s')), now), s),
        call_ensures(App::on_key, (help, plain(KeyCode::Char('?')), now), h),
    ensures
        i is Done && s is Done && h is Done,
        final(install).input is Some && final(install).input->0.purpose is Install
            && final(install).input->0.buffer@.len() == 0,
        final(search).input is Some && final(search).input->0.purpose is Search
            && final(search).input->0.buffer@.len() == 0,
        final(help).show_help,
        *final(help) == (App { show_help: true, ..*old(help) }),
{
}

/// Down and up, `j` and `k`, Home and End, `g` and `G` move the selection within
/// the rows on screen, and move nothing else.
pub proof fn law_keys_move_the_selection(
    app: &mut App,
    code: KeyCode,
    now: u64,
    flow: Flow,
    seen: Vec<&Row>,
)
    requires
        at_the_list(*old(app)),
        call_ensures(App::visible, (&*old(app),), seen),
        call_ensures(App::on_key, (app, plain(code), now), flow),
    ensures
        ({
            let down = code == KeyCode::Down || code == KeyCode::Char('j');
            let up = code == KeyCode::Up || code == KeyCode::Char('k');
            let first = code == KeyCode::Home || code == KeyCode::Char('g');
            let last = code == KeyCode::End || code == KeyCode::Char('G');
            &&& down || up || first || last ==> *final(app) == (App {
                selected: final(app).selected,
                ..*old(app)
            }) && flow is Done
            &&& down && old(app).selected + 1 < seen.len() ==> final(app).selected == old(app).selected + 1
            &&& down && old(app).selected + 1 >= seen.len() ==> final(app).selected == old(app).selected
            &&& up && old(app).selected > 0 ==> final(app).selected == old(app).selected - 1
            &&& up && old(app).selected == 0 ==> final(app).selected == 0
            &&& first ==> final(app).selected == 0
            &&& last && seen.len() > 0 ==> final(app).selected == seen.len() - 1
        }),
{
}

/// Tab goes on to the next view and Shift-Tab back to the one before; the
/// selection stays where it can.
pub proof fn law_tab_cycles_the_views(
    on: &mut App,
    back: &mut App,
    now: u64,
    next: Flow,
    prev: Flow,
    seen: Vec<&Row>,
)
    requires
        at_the_list(*old(on)) && at_the_list(*old(back)),
        call_ensures(App::on_key, (on, plain(KeyCode::Tab), now), next),
        call_ensures(App::on_key, (back, plain(KeyCode::BackTab), now), prev),
        call_ensures(App::visible, (&*final(on),), seen),
    ensures
        next is Done && prev is Done,
        old(on).filter is All ==> final(on).filter is Updates,
        old(on).filter is Updates ==> final(on).filter is Pinned,
        old(on).filter is Pinned ==> final(on).filter is All,
        old(back).filter is All ==> final(back).filter is Pinned,
        old(back).filter is Pinned ==> final(back).filter is Updates,
        old(back).filter is Updates ==> final(back).filter is All,
        final(on).rows == old(on).rows && final(back).rows == old(back).rows,
        old(on).selected < seen.len() ==> final(on).selected == old(on).selected,
        seen.len() > 0 ==> final(on).selected < seen.len(),
{
}

/// `q` leaves, and so does Esc with nothing to dismiss; Esc first takes down an
/// offer, then a search. A running build holds the exit back.
pub proof fn law_leaving_waits_for_a_build(app: &mut App, code: KeyCode, now: u64, flow: Flow)
    requires
        at_the_list(*old(app)),
        code == KeyCode::Char('q') || code == KeyCode::Esc,
        call_ensures(App::on_key, (app, plain(code), now), flow),
    ensures
        flow is Done,
        ({
            let dismisses = code == KeyCode::Esc && (old(app).downgrade_choice is Some || old(app).search_result is Some);
            let builds = old(app).job is Some && old(app).job->0 is Build;
            &&& !dismisses && !builds ==> final(app).should_quit
            &&& !dismisses && builds ==> only_refused(*old(app), *final(app), flow)
            &&& dismisses ==> final(app).should_quit == old(app).should_quit
            &&& dismisses && old(app).downgrade_choice is Some ==> final(app).downgrade_choice is None && final(app).search_result == old(app).search_result
            &&& dismisses && old(app).downgrade_choice is None ==> final(app).search_result is None
        }),
{
}

/// `c` asks a running build to stop, and a migration of everything to stop after
/// it; it flags any other job as cancelled and leaves it running; with no job it
/// does nothing.
pub proof fn law_c_cancels_what_runs(app: &mut App, now: u64, flow: Flow)
    requires
        at_the_list(*old(app)),
        call_ensures(App::on_key, (app, plain(KeyCode::Char('c')), now), flow),
    ensures
        old(app).job is None ==> *final(app) == *old(app) && flow is Done,
        old(app).job is Some && old(app).job->0 is Build ==> {
            &&& flow == Flow::RequestCancel(CancelFor::Key)
            &&& final(app).job == old(app).job
            &&& old(app).migrate_batch is Some ==> final(app).migrate_batch is Some
                && final(app).migrate_batch->0.stopping && final(app).migrate_batch->0.runner
                == old(app).migrate_batch->0.runner
            &&& old(app).migrate_batch is None ==> final(app).migrate_batch is None
        },
        old(app).job is Some && !(old(app).job->0 is Build) ==> {
            &&& flow is Done
            &&& final(app).job is Some
            &&& match old(app).job->0 {
                Job::Check { .. } => final(app).job == Some(Job::Check { cancel: true }),
                Job::Verify { started, .. } => final(app).job == Some(
                    Job::Verify { started, cancel: true },
                ),
                Job::Search { query, .. } => final(app).job == Some(
                    Job::Search { query, cancel: true },
                ),
                Job::UpdateSweepCheck { .. } => final(app).job == Some(
                    Job::UpdateSweepCheck { cancel: true },
                ),
                Job::ReinstallPlan { .. } => final(app).job == Some(
                    Job::ReinstallPlan { cancel: true },
                ),
                Job::UpdatePlan { name, .. } => final(app).job == Some(
                    Job::UpdatePlan { name, cancel: true },
                ),
                Job::Downgrade { name, current, .. } => final(app).job == Some(
                    Job::Downgrade { name, current, cancel: true },
                ),
                Job::Build(_) => true,
            }
        },
{
}

/// Ctrl-C leaves at once where nothing builds, whatever is on screen, and else
/// asks the build to stop first.
pub proof fn law_ctrl_c_never_orphans_a_build(app: &mut App, now: u64, flow: Flow)
    requires
        call_ensures(App::on_key, (app, Key { code: KeyCode::Char('c'), ctrl: true }, now), flow),
    ensures
        old(app).job is Some && old(app).job->0 is Build ==> flow == Flow::RequestCancel(
            CancelFor::Quit,
        ) && *final(app) == *old(app),
        !(old(app).job is Some && old(app).job->0 is Build) ==> flow is Done
            && final(app).should_quit,
{
}

/// Any key takes the help down, and does nothing else.
pub proof fn law_any_key_closes_the_help(app: &mut App, code: KeyCode, now: u64, flow: Flow)
    requires
        old(app).show_help,
        call_ensures(App::on_key, (app, plain(code), now), flow),
    ensures
        *final(app) == (App { show_help: false, ..*old(app) }),
        flow is Done,
{
}

/// With a report up, Esc and Enter take it down and the other moving keys scroll
/// it: by one, by five, to its top and to its end, never beyond.
pub proof fn law_a_report_is_scrolled_and_dismissed(
    app: &mut App,
    code: KeyCode,
    now: u64,
    flow: Flow,
)
    requires
        !old(app).show_help,
        old(app).build_report is Some,
        old(app).confirm is None && old(app).input is None,
        old(app).report_scroll <= old(app).report_scroll_max,
        call_ensures(App::on_key, (app, plain(code), now), flow),
    ensures
        ({
            let (at, end) = (old(app).report_scroll as int, old(app).report_scroll_max as int);
            let then = final(app).report_scroll as int;
            let moves = code == KeyCode::Up || code == KeyCode::Down || code == KeyCode::PageUp
                || code == KeyCode::PageDown || code == KeyCode::Home || code == KeyCode::End;
            let dismisses = code == KeyCode::Esc || code == KeyCode::Enter;
            &&& moves ==> *final(app) == (App {
                report_scroll: final(app).report_scroll,
                ..*old(app)
            }) && flow is Done
            &&& code == KeyCode::Up ==> then == if at > 0 {
                at - 1
            } else {
                0
            }
            &&& code == KeyCode::Down ==> then == if at < end {
                at + 1
            } else {
                end
            }
            &&& code == KeyCode::PageUp ==> then == if at > 5 {
                at - 5
            } else {
                0
            }
            &&& code == KeyCode::PageDown ==> then == if at + 5 < end {
                at + 5
            } else {
                end
            }
            &&& code == KeyCode::Home ==> then == 0
            &&& code == KeyCode::End ==> then == end
            &&& dismisses ==> final(app).build_report is None && flow is Done
                && final(app).should_quit == old(app).should_quit
        }),
{
}

/// A `y` does what was asked, to the letter: the crate that the question named
/// is removed or updated from the version it was read at, and a plan is handed on
/// as it was shown.
pub proof fn law_a_yes_does_what_was_asked(app: &mut App, c: char, now: u64, flow: Flow)
    requires
        !old(app).show_help,
        old(app).confirm is Some,
        old(app).input is None,
        c == 'y' || c == 'Y',
        call_ensures(App::on_key, (app, plain(KeyCode::Char(c)), now), flow),
    ensures
        final(app).confirm is None,
        match old(app).confirm->0.action {
            OnConfirm::Remove { name } => {
                &&& idle(*old(app)) ==> flow == Flow::ProbePrivilege(PendingInPlace::Remove(name))
                &&& !idle(*old(app)) ==> flow is Done && final(app).message is Some
                    && final(app).message->0.kind is Error
            },
            OnConfirm::Update { name, expected } => {
                &&& flow is Done
                &&& final(app).pending_build is Some
                &&& final(app).pending_build->0.spec == name
                &&& final(app).pending_build->0.intent == (BuildIntent::Update { expected })
            },
            OnConfirm::ReinstallAll { planned } => flow is Done
                && final(app).pending_reinstall_sweep == Some(planned)
                && final(app).build_report is None,
            OnConfirm::UpdateAll { planned } => flow is Done && final(app).pending_update_sweep
                == Some(planned) && final(app).build_report is None,
            OnConfirm::Migrate(plan) => flow is Done && final(app).pending_migrate == Some(plan)
                && final(app).migrate_batch == old(app).migrate_batch,
            OnConfirm::MigrateAll { dest, plan } => {
                &&& flow is Done
                &&& plan.len() == 0 ==> final(app).pending_migrate == old(app).pending_migrate
                &&& plan.len() > 0 ==> {
                    &&& final(app).pending_migrate == Some(plan@[0])
                    &&& final(app).migrate_batch is Some
                    &&& final(app).migrate_batch->0.dest == dest
                    &&& !final(app).migrate_batch->0.stopping
                    &&& final(app).migrate_batch->0.runner.total == plan.len()
                    &&& final(app).migrate_batch->0.runner.succeeded == 0
                    &&& final(app).migrate_batch->0.runner.queue@.len() == plan.len() - 1
                    &&& forall|i: int|
                        0 <= i < plan.len() - 1 ==> (
                        #[trigger] final(app).migrate_batch->0.runner.queue@[i]) == plan@[i + 1]
                }
            },
        },
{
}

/// Anything but a `y` takes the question down and does nothing, but for the keys
/// that scroll the plan above it.
pub proof fn law_anything_else_is_a_no(app: &mut App, code: KeyCode, now: u64, flow: Flow)
    requires
        !old(app).show_help,
        old(app).confirm is Some,
        old(app).input is None,
        code != KeyCode::Char('y') && code != KeyCode::Char('Y'),
        call_ensures(App::on_key, (app, plain(code), now), flow),
    ensures
        flow is Done,
        ({
            let scrolls = old(app).build_report is Some && (
            old(app).confirm->0.action is ReinstallAll || old(app).confirm->0.action is UpdateAll)
                && (code == KeyCode::Up || code == KeyCode::Down || code == KeyCode::PageUp || code
                == KeyCode::PageDown || code == KeyCode::Home || code == KeyCode::End);
            &&& scrolls ==> final(app).confirm == old(app).confirm
            &&& !scrolls ==> final(app).confirm is None && final(app).message is Some
                && final(app).message->0.text@ == sanitized("cancelled"@)
        }),
        final(app).pending_build == old(app).pending_build,
        final(app).pending_migrate == old(app).pending_migrate,
        final(app).migrate_batch == old(app).migrate_batch,
        final(app).pending_update_sweep == old(app).pending_update_sweep,
        final(app).pending_reinstall_sweep == old(app).pending_reinstall_sweep,
        final(app).pending_in_place == old(app).pending_in_place,
        final(app).job == old(app).job,
{
}

/// An open line takes characters at its end, gives the last one back on
/// Backspace, and goes away on Esc with nothing done.
pub proof fn law_a_line_is_typed_from_the_end(app: &mut App, code: KeyCode, now: u64, flow: Flow)
    requires
        !old(app).show_help,
        old(app).confirm is None,
        old(app).input is Some,
        code != KeyCode::Enter,
        call_ensures(App::on_key, (app, plain(code), now), flow),
    ensures
        flow is Done,
        *final(app) == (App { input: final(app).input, ..*old(app) }),
        code == KeyCode::Esc <==> final(app).input is None,
        code != KeyCode::Esc ==> final(app).input->0.purpose == old(app).input->0.purpose,
        code matches KeyCode::Char(c) ==> final(app).input->0.buffer@ == if c as u32 <= 0x1f || (
        0x7f <= c as u32 && c as u32 <= 0x9f) {
            old(app).input->0.buffer@
        } else {
            old(app).input->0.buffer@.push(c)
        },
        code == KeyCode::Backspace && old(app).input->0.buffer@.len() > 0
            ==> final(app).input->0.buffer@ == old(app).input->0.buffer@.drop_last(),
        code == KeyCode::Backspace && old(app).input->0.buffer@.len() == 0
            ==> final(app).input->0.buffer@.len() == 0,
{
}

/// An entered install line queues what it reads as: one crate as a build, several
/// as a list, with the line's own `--locked`; a line that reads as nothing is
/// refused with the reason.
pub proof fn law_an_entered_line_installs_what_it_says(
    app: &mut App,
    line: &str,
    read: Result<(Vec<String>, bool), String>,
    now: u64,
    flow: Flow,
)
    requires
        !old(app).show_help,
        old(app).confirm is None,
        old(app).input is Some,
        old(app).input->0.purpose is Install,
        line@ == old(app).input->0.buffer@,
        call_ensures(parse_install_input, (line,), read),
        call_ensures(App::on_key, (app, plain(KeyCode::Enter), now), flow),
    ensures
        flow is Done,
        final(app).input is None,
        read is Err ==> final(app).message is Some && final(app).message->0.kind is Error
            && final(app).pending_build == old(app).pending_build
            && final(app).pending_install_batch == old(app).pending_install_batch,
        read is Ok && read->Ok_0.0.len() == 1 ==> {
            &&& final(app).pending_build is Some
            &&& final(app).pending_build->0.spec@ == read->Ok_0.0@[0]@
            &&& final(app).pending_build->0.locked == read->Ok_0.1
            &&& final(app).pending_build->0.intent is Install
            &&& final(app).pending_install_batch == old(app).pending_install_batch
        },
        read is Ok && read->Ok_0.0.len() > 1 ==> {
            &&& final(app).pending_install_batch is Some
            &&& final(app).pending_install_batch matches Some((crates, locked)) && texts(crates@)
                == texts(read->Ok_0.0@) && locked == read->Ok_0.1
            &&& final(app).pending_build == old(app).pending_build
        },
        read is Ok ==> read->Ok_0.0.len() >= 1,
{
    if read is Ok {
        let crates = read->Ok_0.0;
        assert(texts(crates@).len() == crates.len());
        assert(texts(crates@)[0] == crates@[0]@);
        let typed = choose|r: Result<(Vec<String>, bool), String>|
            {
                &&& #[trigger] super::keys::install_line(line@, r)
                &&& match r {
                    Err(e) => super::poll::told(
                        App { input: None, ..*old(app) },
                        e@,
                        crate::state::MessageKind::Error,
                        *final(app),
                    ),
                    Ok((crates, locked)) => if crates@.len() > 1 {
                        *final(app) == (App {
                            pending_install_batch: Some((crates, locked)),
                            input: None,
                            ..*old(app)
                        })
                    } else {
                        final(app).pending_build is Some && final(app).pending_build->0.spec
                            == crates@[0] && final(app).pending_build->0.locked == locked
                    },
                }
            };
        assert(texts(typed->Ok_0.0@).len() == typed->Ok_0.0.len());
        assert(texts(typed->Ok_0.0@)[0] == typed->Ok_0.0@[0]@);
    }
}

/// An entered search line searches for its words; one without any is refused.
pub proof fn law_an_entered_line_searches_for_its_words(
    app: &mut App,
    line: &str,
    read: Result<String, String>,
    now: u64,
    flow: Flow,
)
    requires
        !old(app).show_help,
        old(app).confirm is None,
        old(app).input is Some,
        old(app).input->0.purpose is Search,
        line@ == old(app).input->0.buffer@,
        call_ensures(parse_search_input, (line,), read),
        call_ensures(App::on_key, (app, plain(KeyCode::Enter), now), flow),
    ensures
        final(app).input is None,
        read is Err ==> flow is Done && final(app).job == old(app).job && final(app).message is Some && final(app).message->0.kind is Error,
        read is Ok ==> {
            &&& flow is Start && flow->Start_0 is Search
            &&& flow->Start_0->query@ == read->Ok_0@
            &&& final(app).job is Some && final(app).job->0 is Search
            &&& final(app).job->0->query@ == read->Ok_0@
            &&& !final(app).job->0->Search_cancel
            &&& final(app).search_result is None
        },
{
}

/// An install line reads as its words: `--locked` wherever it stands, and every
/// other word a spec, in the order typed. It reads at all exactly where there is
/// a spec and the specs are ones that an install takes.
pub proof fn law_an_install_line_is_its_words(
    line: &str,
    tokens: Vec<String>,
    r: Result<(Vec<String>, bool), String>,
)
    requires
        call_ensures(words, (line,), tokens),
        call_ensures(parse_install_input, (line,), r),
    ensures
        ({
            let specs = texts(tokens@).filter(|t: Seq<char>| t != "--locked"@);
            &&& r is Ok <==> specs.len() > 0 && valid_specs(specs)
            &&& r is Ok ==> texts(r->Ok_0.0@) == specs && (r->Ok_0.1 <==> exists|i: int|
                0 <= i < tokens.len() && (#[trigger] tokens@[i])@ == "--locked"@)
            &&& specs.len() == 0 ==> r is Err && r->Err_0@ == "no crate name given"@
        }),
{
    let all = texts(tokens@);
    lemma_tokens_filtered(all);
    assert(all.len() == tokens.len());
    if r is Ok {
        if all.contains("--locked"@) {
            let i = choose|i: int| 0 <= i < all.len() && all[i] == "--locked"@;
            assert(tokens@[i]@ == "--locked"@);
        }
        if exists|i: int| 0 <= i < tokens.len() && (#[trigger] tokens@[i])@ == "--locked"@ {
            let i = choose|i: int|
                0 <= i < tokens.len() && (#[trigger] tokens@[i])@ == "--locked"@;
            assert(all[i] == "--locked"@);
        }
    }
}

proof fn lemma_tokens_filtered(tokens: Seq<Seq<char>>)
    ensures
        crate_tokens(tokens) == tokens.filter(|t: Seq<char>| t != "--locked"@),
    decreases tokens.len(),
{
    reveal(Seq::filter);
    if tokens.len() > 0 {
        lemma_tokens_filtered(tokens.drop_last());
    } else {
        assert(crate_tokens(tokens) =~= tokens.filter(|t: Seq<char>| t != "--locked"@));
    }
}

/// With a manifest that did not load, the keys that help still do: `r` retries,
/// `v` audits, `B` looks for the other prefix, `?` explains and `q` leaves. Every
/// key that would change something says why it does not.
pub proof fn law_the_degraded_list_helps_and_refuses(app: &mut App, code: KeyCode, now: u64, flow: Flow)
    requires
        !old(app).show_help,
        old(app).build_report is None && old(app).confirm is None && old(app).input is None,
        old(app).manifest_error is Some,
        old(app).job is None,
        call_ensures(App::on_key, (app, plain(code), now), flow),
    ensures
        code == KeyCode::Char('r') ==> flow == Flow::Reload(AfterReload::Retry) && *final(app)
            == *old(app),
        code == KeyCode::Char('v') ==> flow == Flow::Start(Work::Verify) && final(app).job == Some(
            Job::Verify { started: now, cancel: false },
        ),
        code == KeyCode::Char('B') ==> flow == Flow::FindPair(PairFor::Jump),
        code == KeyCode::Char('?') ==> final(app).show_help,
        code == KeyCode::Char('q') ==> final(app).should_quit,
        code == KeyCode::Char('u') || code == KeyCode::Char('U') || code == KeyCode::Char('i')
            || code == KeyCode::Char('s') || code == KeyCode::Char('x') || code == KeyCode::Char(
            'm',
        ) || code == KeyCode::Char('M') || code == KeyCode::Char('p') || code == KeyCode::Char('D')
            || code == KeyCode::Char('t') || code == KeyCode::Char('T') || code == KeyCode::Enter
            || code == KeyCode::Tab || code == KeyCode::Down ==> only_refused(
            *old(app),
            *final(app),
            flow,
        ),
{
}

/// A plan under a question is scrolled as a report is, and the question stays.
pub proof fn law_a_plan_is_scrolled_under_its_question(
    app: &mut App,
    code: KeyCode,
    now: u64,
    flow: Flow,
)
    requires
        !old(app).show_help,
        old(app).build_report is Some,
        old(app).input is None,
        old(app).confirm is Some,
        old(app).confirm->0.action is UpdateAll || old(app).confirm->0.action is ReinstallAll,
        old(app).report_scroll < old(app).report_scroll_max,
        call_ensures(App::on_key, (app, plain(code), now), flow),
    ensures
        code == KeyCode::Down ==> final(app).report_scroll == old(app).report_scroll + 1,
        code == KeyCode::Up && old(app).report_scroll > 0 ==> final(app).report_scroll == old(app).report_scroll - 1,
        code == KeyCode::End ==> final(app).report_scroll == old(app).report_scroll_max,
        code == KeyCode::Down || code == KeyCode::Up || code == KeyCode::End ==> final(app).confirm
            == old(app).confirm && flow is Done,
{
}

/// Ordinary characters that are no key of the list do nothing.
pub proof fn law_other_characters_do_nothing(app: &mut App, c: char, now: u64, flow: Flow)
    requires
        at_the_list(*old(app)),
        !('1' <= c <= '9'),
        c != 'q' && c != 'c' && c != '?' && c != 'j' && c != 'k' && c != 'g' && c != 'G' && c
            != 'r' && c != 'v' && c != 's' && c != 'i' && c != 'u' && c != 'U' && c != 'p' && c
            != 't' && c != 'T' && c != 'D' && c != 'x' && c != 'B' && c != 'm' && c != 'M',
        call_ensures(App::on_key, (app, plain(KeyCode::Char(c)), now), flow),
    ensures
        *final(app) == *old(app),
        flow is Done,
{
}

/// What a cancel of a lookup says names the lookup.
pub proof fn law_a_cancel_names_what_it_cancels(app: &mut App, now: u64, flow: Flow)
    requires
        at_the_list(*old(app)),
        old(app).job is Some,
        !(old(app).job->0 is Build),
        call_ensures(App::on_key, (app, plain(KeyCode::Char('c')), now), flow),
    ensures
        final(app).message is Some && final(app).message->0.kind is Info,
        final(app).message->0.text@ == sanitized(
            match old(app).job->0 {
                Job::Check { .. } => "cancelling the update check…"@,
                Job::Verify { .. } => "verify: cancel requested — the result will be discarded"@,
                Job::Search { query, .. } => "search `"@ + query@ + "`: cancel requested…"@,
                Job::UpdateSweepCheck { .. } => "update check: cancel requested…"@,
                Job::ReinstallPlan { .. } => "reading the prefix: cancel requested…"@,
                Job::UpdatePlan { name, .. } => "version lookup for `"@ + name@
                    + "`: cancel requested…"@,
                Job::Downgrade { name, .. } => "version lookup for `"@ + name@
                    + "`: cancel requested…"@,
                Job::Build(_) => Seq::empty(),
            },
        ),
{
}

/// What a request says as it is taken up names the crate it is about.
pub proof fn law_requests_name_their_crate(
    rebuild: &mut App,
    now: u64,
    t: Flow,
    row: Option<&Row>,
    asked: &mut App,
    y: Flow,
)
    requires
        at_the_list(*old(rebuild)) && idle(*old(rebuild)),
        call_ensures(App::selected_row, (&*old(rebuild),), row),
        row is Some,
        call_ensures(App::on_key, (rebuild, plain(KeyCode::Char('t')), now), t),
        !old(asked).show_help && old(asked).input is None,
        old(asked).confirm is Some && old(asked).confirm->0.action is Update,
        call_ensures(App::on_key, (asked, plain(KeyCode::Char('y')), now), y),
    ensures
        final(rebuild).message is Some && final(rebuild).message->0.text@ == sanitized(
            "rebuilding "@ + row->0.name@ + " as installed"@,
        ),
        final(asked).message is Some && final(asked).message->0.text@ == sanitized(
            "updating "@ + old(asked).confirm->0.action->Update_name@ + "…"@,
        ),
{
}

/// While anything runs or is queued, a digit on an offer queues nothing, says so,
/// and leaves the offer up.
pub proof fn law_a_busy_session_keeps_its_offer(app: &mut App, c: char, now: u64, flow: Flow)
    requires
        at_the_list(*old(app)),
        !idle(*old(app)),
        old(app).downgrade_choice is Some,
        '1' <= c <= '9',
        call_ensures(App::on_key, (app, plain(KeyCode::Char(c)), now), flow),
    ensures
        only_refused(*old(app), *final(app), flow),
{
}

/// What a refusal says: that a job runs, that something is queued, that a build
/// holds the exit, or that the manifest does not load.
pub proof fn law_a_refusal_says_what_is_in_the_way(
    app: &mut App,
    code: KeyCode,
    now: u64,
    flow: Flow,
    row: Option<&Row>,
    broken: &mut App,
    other: Flow,
)
    requires
        at_the_list(*old(app)),
        old(app).job is Some,
        call_ensures(App::selected_row, (&*old(app),), row),
        call_ensures(App::on_key, (app, plain(code), now), flow),
        !old(broken).show_help,
        old(broken).build_report is None && old(broken).confirm is None && old(broken).input is None,
        old(broken).manifest_error is Some,
        call_ensures(App::on_key, (broken, plain(KeyCode::Char('u')), now), other),
    ensures
        ({
            let text = final(app).message->0.text@;
            &&& code == KeyCode::Char('u') || code == KeyCode::Enter || code == KeyCode::Char('U')
                || code == KeyCode::Char('t') || code == KeyCode::Char('T') || code
                == KeyCode::Char('D') || code == KeyCode::Char('i') || code == KeyCode::Char('s')
                ==> text == sanitized("busy; wait for the current job to finish"@)
            &&& code == KeyCode::Char('v') ==> text == sanitized(
                "busy; wait for the current operation to finish"@,
            )
            &&& code == KeyCode::Char('r') ==> text == sanitized(
                "busy; wait for the current lookup to finish"@,
            )
            &&& code == KeyCode::Char('p') && row is Some ==> text == sanitized(
                "an operation is running or queued; finish or cancel it first"@,
            )
            &&& code == KeyCode::Char('q') && old(app).job->0 is Build ==> text == sanitized(
                "a build is running; c cancels it, Ctrl-C cancels and quits"@,
            )
        }),
        final(broken).message->0.text@ == sanitized(
            "the manifest cannot be loaded — repair it by hand (v lists the findings), then r retries the load"@,
        ),
{
}

} // verus!
