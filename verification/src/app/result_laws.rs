//! What the answers of the workers come to: what is shown, asked or recorded of
//! them.
use super::oneshot::{
    hit_named, installed_among, law_sweeps_plan_what_updates_shows, pairs, planned_view,
    update_plan_of, Recorded,
};
use super::poll::{chained, done_at, fits, heard, heard_all};
use super::{lemma_shown_filtered, AfterReload, App, Flow, PrefixRead};
use crate::decimal::decimal;
use crate::job::{BuildJob, Delivered, Job, JobEvent, VerifyReport};
use crate::state::{Checked, Filter, Hit, OnConfirm, ReinstallPlan, Report, Row, UpdatePlan};
use crate::text::{sanitized, texts};
use crate::version::Version;
use std::collections::VecDeque;
use vstd::prelude::*;

verus! {

/// The footer says this.
pub open spec fn said(app: App, text: Seq<char>) -> bool {
    app.message is Some && app.message->0.text@ == sanitized(text)
}

/// A check's answer is recorded as it came, and planned from only where it was
/// asked for by a sweep; a cancelled or failed one is said, and records nothing.
pub proof fn law_a_check_is_recorded_as_it_came(
    app: &mut App,
    result: Result<Option<Vec<Checked>>, String>,
    r: Result<Flow, String>,
)
    requires
        old(app).job == Some(Job::Check { cancel: false }) || old(app).job == Some(
            Job::UpdateSweepCheck { cancel: false },
        ),
        call_ensures(App::poll_job, (app, JobEvent::Checked(result)), r),
    ensures
        r is Ok,
        final(app).job is None,
        final(app).confirm == old(app).confirm,
        result is Ok && result->Ok_0 is Some ==> r->Ok_0 == (Flow::Record {
            checked: result->Ok_0->0,
            sweep: old(app).job->0 is UpdateSweepCheck,
        }),
        result is Ok && result->Ok_0 is None ==> r->Ok_0 is Done && said(
            *final(app),
            "update check cancelled"@,
        ),
        result is Err ==> r->Ok_0 is Done && said(
            *final(app),
            "update check failed: "@ + result->Err_0@,
        ) && final(app).message->0.kind is Error,
{
}

/// An audit that found nothing says so in the footer; one that found something
/// pins every finding, the errors first and then the warnings, and calls itself
/// failed exactly where there are errors.
pub proof fn law_an_audit_shows_every_finding(
    app: &mut App,
    started: u64,
    report: VerifyReport,
    r: Result<Flow, String>,
)
    requires
        old(app).job == Some(Job::Verify { started, cancel: false }),
        call_ensures(App::poll_job, (app, JobEvent::Verified(Ok(report))), r),
    ensures
        r is Ok && r->Ok_0 is Done,
        final(app).job is None,
        ({
            let (errors, warnings) = (report.errors@, report.warnings@);
            &&& errors.len() == 0 && warnings.len() == 0 ==> final(app).build_report == old(app).build_report && final(app).message is Some && final(app).message->0.kind is Info
            &&& errors.len() > 0 || warnings.len() > 0 ==> {
                let lines = final(app).build_report->0.lines@;
                &&& final(app).build_report is Some
                &&& final(app).build_report->0.failed == (errors.len() > 0)
                &&& final(app).report_scroll == 0
                &&& lines.len() >= errors.len() + warnings.len()
                &&& forall|i: int| 0 <= i < errors.len() ==> (#[trigger] lines[i])@
                    == errors[i].message@
                &&& forall|i: int|
                    0 <= i < warnings.len() ==> (#[trigger] lines[lines.len() - warnings.len()
                        + i])@ == warnings[i].message@
                &&& warnings.len() == 0 ==> lines.len() == errors.len()
                &&& warnings.len() > 0 ==> lines[lines.len() - warnings.len() - 1]@
                    == "warnings:"@
            }
            &&& errors.len() > 0 ==> final(app).message->0.kind is Error
            &&& errors.len() == 0 && warnings.len() > 0 ==> final(app).message->0.kind is Warning
        }),
{
    let (errors, warnings) = (report.errors@, report.warnings@);
    if errors.len() > 0 || warnings.len() > 0 {
        let lines = final(app).build_report->0.lines@;
        let shown = texts(lines);
        assert(shown.len() == lines.len());
        assert forall|i: int| 0 <= i < errors.len() implies (#[trigger] lines[i])@
            == errors[i].message@ by {
            assert(shown[i] == errors[i].message@);
        }
        assert forall|i: int| 0 <= i < warnings.len() implies (#[trigger] lines[lines.len()
            - warnings.len() + i])@ == warnings[i].message@ by {
            assert(shown[shown.len() - warnings.len() + i] == warnings[i].message@);
        }
        if warnings.len() > 0 {
            assert(shown[shown.len() - warnings.len() - 1] == "warnings:"@);
        }
    }
}

/// An audit that could not run says why.
pub proof fn law_a_failed_audit_says_why(
    app: &mut App,
    started: u64,
    e: String,
    r: Result<Flow, String>,
)
    requires
        old(app).job == Some(Job::Verify { started, cancel: false }),
        call_ensures(App::poll_job, (app, JobEvent::Verified(Err(e))), r),
    ensures
        said(*final(app), "verify failed: "@ + e@) && final(app).message->0.kind is Error,
        final(app).build_report == old(app).build_report,
        final(app).job is None,
{
}

/// The hits of a search wait for a reload before they are shown, under the query
/// that found them; a search without hits says so.
pub proof fn law_hits_wait_for_a_reload(
    app: &mut App,
    query: String,
    result: Result<Vec<Hit>, String>,
    r: Result<Flow, String>,
)
    requires
        old(app).job == Some(Job::Search { query, cancel: false }),
        call_ensures(App::poll_job, (app, JobEvent::Found(result)), r),
    ensures
        r is Ok,
        final(app).job is None,
        final(app).search_result == old(app).search_result,
        result is Ok && result->Ok_0.len() > 0 ==> r->Ok_0 == Flow::Reload(
            AfterReload::Search { query, hits: result->Ok_0 },
        ),
        result is Ok && result->Ok_0.len() == 0 ==> r->Ok_0 is Done && said(
            *final(app),
            "no crates match `"@ + query@ + "`"@,
        ),
        result is Err ==> r->Ok_0 is Done && said(*final(app), result->Err_0@) && final(app).message->0.kind is Error,
{
}

/// A rebuild of everything asks about exactly the plan that was frozen, and shows
/// it crate by crate; an empty prefix is asked nothing.
pub proof fn law_a_rebuild_asks_about_its_plan(
    app: &mut App,
    planned: Vec<(String, ReinstallPlan)>,
    r: Result<Flow, String>,
)
    requires
        old(app).job == Some(Job::ReinstallPlan { cancel: false }),
        call_ensures(App::poll_job, (app, JobEvent::Frozen(Ok(planned))), r),
    ensures
        r is Ok && r->Ok_0 is Done,
        final(app).job is None,
        planned.len() == 0 ==> final(app).confirm == old(app).confirm && final(app).build_report
            == old(app).build_report,
        planned.len() > 0 ==> {
            let lines = final(app).build_report->0.lines@;
            &&& final(app).confirm is Some
            &&& final(app).confirm->0.action == (OnConfirm::ReinstallAll { planned })
            &&& final(app).build_report is Some && !final(app).build_report->0.failed
            &&& lines.len() == planned.len()
            &&& forall|i: int|
                0 <= i < planned.len() ==> (#[trigger] lines[i])@ == sanitized(
                    planned@[i].0@ + " "@ + planned@[i].1.version@ + (if planned@[i].1.pinned {
                        " [pinned]"@
                    } else {
                        Seq::empty()
                    }) + (if planned@[i].1.locked {
                        " [locked]"@
                    } else {
                        Seq::empty()
                    }),
                )
        },
{
    if planned.len() > 0 {
        let lines = final(app).build_report->0.lines@;
        let shown = texts(lines);
        assert(shown.len() == lines.len());
        assert forall|i: int| 0 <= i < planned.len() implies (#[trigger] lines[i])@ == sanitized(
            planned@[i].0@ + " "@ + planned@[i].1.version@ + (if planned@[i].1.pinned {
                " [pinned]"@
            } else {
                Seq::empty()
            }) + (if planned@[i].1.locked {
                " [locked]"@
            } else {
                Seq::empty()
            }),
        ) by {
            assert(shown[i] == lines[i]@);
        }
    }
}

/// An update asks about the crate that was looked up, from the version it has to
/// the one that was found, and about nothing where it is up to date.
pub proof fn law_an_update_asks_about_its_crate(
    app: &mut App,
    name: String,
    plan: UpdatePlan,
    r: Result<Flow, String>,
)
    requires
        old(app).job == Some(Job::UpdatePlan { name, cancel: false }),
        call_ensures(App::poll_job, (app, JobEvent::Planned(Ok(plan))), r),
    ensures
        r is Ok && r->Ok_0 is Done,
        final(app).job is None,
        plan is UpToDate ==> final(app).confirm == old(app).confirm && said(
            *final(app),
            name@ + " "@ + plan->UpToDate_current@ + " is up to date"@,
        ),
        plan is Outdated ==> {
            &&& final(app).confirm is Some
            &&& final(app).confirm->0.action is Update
            &&& final(app).confirm->0.action->Update_name == name
            &&& final(app).confirm->0.action->expected == plan->Outdated_current
            &&& final(app).confirm->0.prompt@ == sanitized(
                "update "@ + name@ + " "@ + plan->Outdated_current@ + " -> "@ + plan->latest@
                    + "? [y/N]"@,
            )
        },
{
}

/// A lookup that failed is said, asks nothing and offers nothing.
pub proof fn law_a_failed_lookup_asks_nothing(
    app: &mut App,
    e: String,
    event: JobEvent,
    r: Result<Flow, String>,
)
    requires
        old(app).job is Some,
        fits(old(app).job->0, event),
        !old(app).job->0.cancel_asked(),
        event == JobEvent::Frozen(Err(e)) || event == JobEvent::Planned(Err(e)) || event
            == JobEvent::Candidates(Err(e)),
        call_ensures(App::poll_job, (app, event), r),
    ensures
        r is Ok && r->Ok_0 is Done,
        said(*final(app), e@) && final(app).message->0.kind is Error,
        *final(app) == (App { job: None, message: final(app).message, ..*old(app) }),
{
}

/// A downgrade offers the versions that were found, in the order found, as many
/// as a digit can name; it counts the others, and offers them for the crate that
/// was looked up.
pub proof fn law_an_offer_lists_what_was_found(
    app: &mut App,
    name: String,
    current: String,
    candidates: Vec<Version>,
    r: Result<Flow, String>,
)
    requires
        old(app).job == Some(Job::Downgrade { name, current, cancel: false }),
        call_ensures(App::poll_job, (app, JobEvent::Candidates(Ok(candidates))), r),
    ensures
        r is Ok && r->Ok_0 is Done,
        final(app).job is None,
        final(app).pending_build == old(app).pending_build,
        candidates.len() == 0 ==> final(app).downgrade_choice == old(app).downgrade_choice,
        candidates.len() > 0 ==> {
            let offer = final(app).downgrade_choice->0;
            &&& final(app).downgrade_choice is Some
            &&& offer.name == name
            &&& offer.current == current
            &&& offer.versions.len() == if candidates.len() < 9 {
                candidates.len() as int
            } else {
                9
            }
            &&& forall|i: int|
                0 <= i < offer.versions.len() ==> (#[trigger] offer.versions@[i]) == candidates@[i]
            &&& offer.older == candidates.len() - offer.versions.len()
        },
{
}

/// A worker that is gone without an answer ends the session with an error; a look
/// that brings nothing changes nothing.
pub proof fn law_a_lost_worker_ends_the_session(
    lost: &mut App,
    quiet: &mut App,
    error: Result<Flow, String>,
    nothing: Result<Flow, String>,
)
    requires
        old(lost).job is Some && !(old(lost).job->0 is Build),
        old(quiet).job is Some && !(old(quiet).job->0 is Build),
        call_ensures(App::poll_job, (lost, JobEvent::Gone), error),
        call_ensures(App::poll_job, (quiet, JobEvent::Nothing), nothing),
    ensures
        error is Err,
        final(lost).job is None,
        nothing is Ok && nothing->Ok_0 is Done,
        *final(quiet) == *old(quiet),
{
}

/// What a sweep's check leads to: a question about exactly the crates that the
/// list then shows as out of date and not pinned, each from its version to the
/// newer one, in the list's order; no question where there is none, and none
/// where no sweep asked.
pub proof fn law_a_sweep_asks_about_what_is_out_of_date(
    app: &mut App,
    sweep: bool,
    recorded: Recorded,
    i: int,
)
    requires
        recorded is Made,
        recorded->manifest is Loaded,
        call_ensures(App::check_recorded, (app, sweep, recorded), ()),
    ensures
        ({
            let due = final(app).rows@.filter(
                |row: Row| row.status is Outdated && !row.pinned,
            );
            &&& !sweep ==> final(app).confirm == old(app).confirm
            &&& due.len() == 0 ==> final(app).confirm == old(app).confirm
            &&& sweep && due.len() > 0 ==> {
                let planned = final(app).confirm->0.action->UpdateAll_planned@;
                &&& final(app).confirm is Some
                &&& final(app).confirm->0.action is UpdateAll
                &&& planned.len() == due.len()
                &&& 0 <= i < due.len() ==> {
                    &&& planned[i].name@ == due[i].name@
                    &&& planned[i].current@ == due[i].version@
                    &&& due[i].status is Outdated
                    &&& planned[i].latest@ == due[i].status->Outdated_0@
                    &&& final(app).build_report->0.lines@[i]@ == sanitized(
                        due[i].name@ + " "@ + due[i].version@ + " -> "@
                            + due[i].status->Outdated_0@,
                    )
                }
                &&& final(app).build_report is Some
                &&& final(app).build_report->0.lines.len() == due.len()
            }
        }),
{
    let rows = final(app).rows@;
    let due = rows.filter(|row: Row| row.status is Outdated && !row.pinned);
    lemma_shown_filtered(
        rows,
        Filter::Updates,
        |row: Row| row.status is Outdated && !row.pinned,
    );
    law_sweeps_plan_what_updates_shows(rows);
    let plan = update_plan_of(rows);
    assert(plan.len() == due.len());
    if sweep && due.len() > 0 {
        let planned = final(app).confirm->0.action->UpdateAll_planned@;
        assert(planned_view(planned) == plan);
        assert(planned_view(planned).len() == planned.len());
        let shown = texts(final(app).build_report->0.lines@);
        assert(shown.len() == final(app).build_report->0.lines.len());
        if 0 <= i < due.len() {
            assert(planned_view(planned)[i] == plan[i]);
            assert(shown[i] == final(app).build_report->0.lines@[i]@);
        }
    }
}

/// A recorded check shows the manifest that was read with it under that very
/// report; one that could not be made, or whose manifest did not load, asks
/// nothing.
pub proof fn law_a_recorded_check_is_shown(
    app: &mut App,
    sweep: bool,
    recorded: Recorded,
    i: int,
    name: &str,
    current: Version,
    verdict: Option<crate::state::Status>,
)
    requires
        call_ensures(App::check_recorded, (app, sweep, recorded), ()),
        recorded is Made ==> call_ensures(
            Report::status_for,
            (&recorded->report, name, &current),
            verdict,
        ),
    ensures
        recorded is Failed ==> *final(app) == (App { message: final(app).message, ..*old(app) })
            && final(app).message->0.kind is Error,
        recorded is Made && !(recorded->manifest is Loaded) ==> final(app).confirm == old(app).confirm,
        recorded is Made && recorded->manifest is Loaded ==> {
            let crates = recorded->manifest->manifest.crates@;
            &&& final(app).rows.len() == crates.len()
            &&& final(app).report_age == Some(recorded->report.age)
            &&& 0 <= i < crates.len() && name@ == crates[i].0@ && current@
                == crates[i].1.version@ && crate::version::is_semver(current@) ==> {
                let row = final(app).rows@[i];
                &&& row.name@ == crates[i].0@
                &&& row.version@ == crates[i].1.version@
                &&& row.pinned == crates[i].1.pinned
                &&& row.status is Unknown <==> verdict is None
                &&& row.status is UpToDate <==> verdict == Some(crate::state::Status::UpToDate)
                &&& row.status is Outdated ==> verdict is Some && verdict->0 is Outdated
                    && verdict->0->Outdated_0@ == row.status->Outdated_0@
            }
        },
        recorded is Made && recorded->manifest is Loaded && recorded->persisted is Err
            && !sweep ==> final(app).message->0.kind is Warning,
        recorded is Made && recorded->manifest is Loaded && recorded->persisted is Ok ==> final(app).message->0.kind is Info,
{
    if recorded is Made && recorded->manifest is Loaded {
        let crates = recorded->manifest->manifest.crates@;
        if 0 <= i < crates.len() {
            assert(final(app).rows@[i].shows(
                crates[i].0@,
                crates[i].1,
                Some(&recorded->report),
                recorded->manifest->also@,
            ));
        }
    }
}

/// A search shows the hits that were found under their query, and marks as
/// installed exactly the rows that one of them names, with the version that is
/// installed.
pub proof fn law_a_search_marks_what_is_installed(
    app: &mut App,
    query: String,
    hits: Vec<Hit>,
    read: PrefixRead,
    name: Seq<char>,
    version: Seq<char>,
)
    requires
        call_ensures(App::search_reloaded, (app, query, hits, read), ()),
    ensures
        !(read.manifest is Loaded) ==> final(app).search_result is None,
        read.manifest is Loaded ==> {
            &&& final(app).search_result is Some
            &&& final(app).search_result->0.query == query
            &&& final(app).search_result->0.hits == hits
            &&& pairs(final(app).search_result->0.installed@).contains((name, version))
                <==> exists|i: int, k: int|
                0 <= i < final(app).rows.len() && 0 <= k < hits.len() && (
                #[trigger] final(app).rows@[i]).name@ == name && final(app).rows@[i].version@
                    == version && (#[trigger] hits@[k]).name@ == name
        },
{
    if read.manifest is Loaded {
        let rows = final(app).rows@;
        lemma_installed(rows, hits@, name, version);
        if exists|i: int|
            0 <= i < rows.len() && (#[trigger] rows[i]).name@ == name && rows[i].version@ == version
                && hit_named(hits@, name) {
            let i = choose|i: int|
                0 <= i < rows.len() && (#[trigger] rows[i]).name@ == name && rows[i].version@
                    == version && hit_named(hits@, name);
            let k = choose|k: int| 0 <= k < hits.len() && (#[trigger] hits@[k]).name@ == name;
            assert(rows[i].name@ == name && hits@[k].name@ == name);
        }
        if exists|i: int, k: int|
            0 <= i < rows.len() && 0 <= k < hits.len() && (#[trigger] rows[i]).name@ == name
                && rows[i].version@ == version && (#[trigger] hits@[k]).name@ == name {
            let (i, k) = choose|i: int, k: int|
                0 <= i < rows.len() && 0 <= k < hits.len() && (#[trigger] rows[i]).name@ == name
                    && rows[i].version@ == version && (#[trigger] hits@[k]).name@ == name;
            assert(hit_named(hits@, name));
            assert(rows[i].name@ == name);
        }
    }
}

proof fn lemma_installed(rows: Seq<Row>, hits: Seq<Hit>, name: Seq<char>, version: Seq<char>)
    ensures
        installed_among(rows, hits).contains((name, version)) <==> exists|i: int|
            0 <= i < rows.len() && (#[trigger] rows[i]).name@ == name && rows[i].version@ == version
                && hit_named(hits, name),
    decreases rows.len(),
{
    if rows.len() > 0 {
        let front = rows.drop_last();
        let before = installed_among(front, hits);
        let all = installed_among(rows, hits);
        lemma_installed(front, hits, name, version);
        if exists|i: int|
            0 <= i < rows.len() && (#[trigger] rows[i]).name@ == name && rows[i].version@ == version
                && hit_named(hits, name) {
            let i = choose|i: int|
                0 <= i < rows.len() && (#[trigger] rows[i]).name@ == name && rows[i].version@
                    == version && hit_named(hits, name);
            if i < front.len() {
                assert(front[i].name@ == name);
                let k = choose|k: int| 0 <= k < before.len() && before[k] == (name, version);
                assert(all[k] == (name, version));
            } else {
                assert(all.last() == (name, version));
            }
        }
        if all.contains((name, version)) {
            let k = choose|k: int| 0 <= k < all.len() && all[k] == (name, version);
            if k < before.len() {
                assert(before[k] == (name, version));
                let i = choose|i: int|
                    0 <= i < front.len() && (#[trigger] front[i]).name@ == name
                        && front[i].version@ == version && hit_named(hits, name);
                assert(rows[i].name@ == name);
            } else {
                assert(rows[rows.len() - 1].name@ == name);
            }
        }
    }
}

/// A check asks the registry about every row of the fresh list, pinned ones too,
/// at the version that is installed; with nothing installed, or a manifest that
/// did not load, it asks nothing.
pub proof fn law_a_check_asks_about_every_crate(
    app: &mut App,
    read: PrefixRead,
    flow: Flow,
    i: int,
)
    requires
        old(app).job is None,
        call_ensures(App::check_reloaded, (app, read), flow),
    ensures
        flow is Start <==> read.manifest is Loaded && read.manifest->manifest.crates.len() > 0,
        flow is Start <==> final(app).job is Some,
        flow is Start ==> {
            let crates = read.manifest->manifest.crates@;
            let entries = flow->Start_0->entries@;
            &&& flow->Start_0 is Check
            &&& final(app).job == Some(Job::Check { cancel: false })
            &&& entries.len() == crates.len()
            &&& 0 <= i < crates.len() ==> entries[i].0@ == crates[i].0@ && entries[i].1.version@
                == crates[i].1.version@ && entries[i].1.pinned == crates[i].1.pinned
                && entries[i].1.locked == crates[i].1.locked
        },
        !(flow is Start) ==> flow is Done,
{
    if read.manifest is Loaded {
        let crates = read.manifest->manifest.crates@;
        if 0 <= i < crates.len() {
            let report = read.usable_report();
            assert(final(app).rows@[i].shows(
                crates[i].0@,
                crates[i].1,
                match report {
                    Some(report) => Some(&report),
                    None => None,
                },
                read.manifest->also@,
            ));
        }
    }
}

proof fn lemma_heard_one(before: App, job: BuildJob, d: Delivered, after: App, now: BuildJob)
    requires
        heard_all(before, job, seq![d], after, now),
    ensures
        heard(before, job, d, after, now),
{
    let (apps, jobs) = choose|apps: Seq<App>, jobs: Seq<BuildJob>|
        {
            &&& #[trigger] chained(seq![d], apps, jobs)
            &&& apps[0] == before
            &&& jobs[0] == job
            &&& apps.last() == after
            &&& jobs.last() == now
        };
    assert(heard(apps[0], jobs[0], seq![d][0], apps[1], jobs[1]));
}

/// A line of cargo's is kept as the newest of the last forty; a unit that it
/// announces is counted and named, and the pipeline's last notice gives way to
/// it. A notice is kept too, and is the live status.
pub proof fn law_a_builds_lines_are_kept(
    app: &mut App,
    job: BuildJob,
    d: Delivered,
    msgs: VecDeque<Delivered>,
    r: Result<Flow, String>,
)
    requires
        old(app).job == Some(Job::Build(job)),
        job.tail@.len() <= 40,
        d.msg is Cargo || d.msg is Notice,
        msgs@ == seq![d],
        call_ensures(App::poll_job, (app, JobEvent::Build { heard: msgs, gone: false }), r),
    ensures
        r is Ok && r->Ok_0 is Done,
        final(app).job is Some && final(app).job->0 is Build,
        *final(app) == (App { job: final(app).job, ..*old(app) }),
        ({
            let now = final(app).job->0->Build_0;
            let line = if d.msg is Cargo {
                d.msg->Cargo_0
            } else {
                d.msg->Notice_0
            };
            &&& now.tail@.len() <= 40
            &&& now.tail@.len() == if job.tail@.len() < 40 {
                job.tail@.len() + 1
            } else {
                40
            }
            &&& now.tail@.last() == line
            &&& forall|i: int|
                1 <= i < now.tail@.len() ==> (#[trigger] now.tail@[now.tail@.len() - 1 - i])
                    == job.tail@[job.tail@.len() - i]
            &&& now.warnings == job.warnings && now.name == job.name && now.kind == job.kind
            &&& d.msg is Notice ==> now.status_note == Some(line) && now.units_started
                == job.units_started && now.current == job.current
            &&& d.msg is Cargo ==> now.status_note is None
            &&& d.msg is Cargo && d.event is Compiling ==> now.units_started == job.units_started
                + 1 && now.current is Some && now.current->0@ == d.event->name@ + " "@
                + d.event->version@
            &&& d.msg is Cargo && d.event is Finished ==> now.current is None && now.units_started
                == job.units_started
            &&& d.msg is Cargo && (d.event is Error || d.event is Other) ==> now.current
                == job.current && now.units_started == job.units_started
        }),
{
    lemma_one_message(app, job, d, msgs, r);
}

/// One message that does not end a build leaves it running, changed as the
/// message says.
proof fn lemma_one_message(
    app: &mut App,
    job: BuildJob,
    d: Delivered,
    msgs: VecDeque<Delivered>,
    r: Result<Flow, String>,
)
    requires
        old(app).job == Some(Job::Build(job)),
        !(d.msg is Done),
        msgs@ == seq![d],
        call_ensures(App::poll_job, (app, JobEvent::Build { heard: msgs, gone: false }), r),
    ensures
        r is Ok && r->Ok_0 is Done,
        final(app).job is Some && final(app).job->0 is Build,
        heard(
            App { job: None, ..*old(app) },
            job,
            d,
            App { job: None, ..*final(app) },
            final(app).job->0->Build_0,
        ),
{
    let all = msgs@;
    reveal_with_fuel(done_at, 3);
    assert(all.drop_first() =~= Seq::empty());
    assert(done_at(all) == 1);
    assert(all.take(1) =~= all);
    let free = App { job: None, ..*old(app) };
    let (mid, now) = choose|mid: App, now: BuildJob|
        {
            &&& #[trigger] heard_all(free, job, all.take(1), mid, now)
            &&& *final(app) == (App { job: Some(Job::Build(now)), ..mid })
            &&& r is Ok && r->Ok_0 is Done
        };
    lemma_heard_one(free, job, d, mid, now);
    assert(mid == (App { job: None, ..*final(app) }));
}

/// A warning is kept behind those before it, and the panel shows it at once; a
/// request for a password waits in the job, with the prefix and the step it is
/// for.
pub proof fn law_warnings_and_requests_are_kept(
    app: &mut App,
    job: BuildJob,
    d: Delivered,
    msgs: VecDeque<Delivered>,
    r: Result<Flow, String>,
)
    requires
        old(app).job == Some(Job::Build(job)),
        d.msg is Warning || d.msg is NeedAuth,
        msgs@ == seq![d],
        call_ensures(App::poll_job, (app, JobEvent::Build { heard: msgs, gone: false }), r),
    ensures
        r is Ok && r->Ok_0 is Done,
        final(app).job is Some && final(app).job->0 is Build,
        ({
            let now = final(app).job->0->Build_0;
            &&& d.msg is Warning ==> now.warnings@ == job.warnings@.push(d.msg->Warning_0)
                && now.tail == job.tail && now.needs_auth == job.needs_auth
            &&& d.msg is NeedAuth ==> now.warnings == job.warnings && now.tail == job.tail
                && now.needs_auth == Some((d.msg->target, d.msg->purpose)) && *final(app) == (App {
                job: final(app).job,
                ..*old(app)
            })
        }),
{
    lemma_one_message(app, job, d, msgs, r);
}

/// A member that starts is the current one and one attempt more, with a blank
/// tail and no warnings; what was said before the first belongs to the plan.
pub proof fn law_a_started_member_has_its_own_lines(
    app: &mut App,
    job: BuildJob,
    d: Delivered,
    msgs: VecDeque<Delivered>,
    r: Result<Flow, String>,
)
    requires
        old(app).job == Some(Job::Build(job)),
        old(app).install_batch is Some,
        old(app).install_batch->0.attempted < usize::MAX,
        d.msg is MemberStarted,
        msgs@ == seq![d],
        call_ensures(App::poll_job, (app, JobEvent::Build { heard: msgs, gone: false }), r),
    ensures
        final(app).job is Some && final(app).job->0 is Build,
        final(app).install_batch is Some,
        ({
            let (was, is) = (old(app).install_batch->0, final(app).install_batch->0);
            let now = final(app).job->0->Build_0;
            &&& is.current is Some && is.current->0@ == d.msg->MemberStarted_name@
            &&& is.attempted == was.attempted + 1
            &&& is.runner == was.runner && is.shape == was.shape
            &&& was.attempted == 0 ==> is.plan_warnings@ == was.plan_warnings@ + job.warnings@
            &&& was.attempted > 0 ==> is.plan_warnings@ == was.plan_warnings@
            &&& now.tail@.len() == 0 && now.warnings@.len() == 0 && now.status_note is None
        }),
{
    lemma_one_message(app, job, d, msgs, r);
}

/// A member that is done counts as a success exactly where it was installed, is
/// nobody's lines any more, and leaves a blank tail and no warnings behind.
pub proof fn law_a_done_member_is_filed(
    app: &mut App,
    job: BuildJob,
    d: Delivered,
    msgs: VecDeque<Delivered>,
    r: Result<Flow, String>,
)
    requires
        old(app).job == Some(Job::Build(job)),
        old(app).install_batch is Some,
        d.msg is MemberDone,
        msgs@ == seq![d],
        call_ensures(App::poll_job, (app, JobEvent::Build { heard: msgs, gone: false }), r),
    ensures
        final(app).job is Some && final(app).job->0 is Build,
        final(app).install_batch is Some,
        ({
            let (was, is) = (old(app).install_batch->0, final(app).install_batch->0);
            let now = final(app).job->0->Build_0;
            &&& is.current is None
            &&& is.attempted == was.attempted
            &&& is.plan_warnings == was.plan_warnings && is.shape == was.shape
            &&& is.runner.total == was.runner.total
            &&& is.runner.succeeded == was.runner.succeeded + if d.msg->outcome is Installed {
                1int
            } else {
                0
            }
            &&& crate::batch::member_filed(
                was.runner,
                is.runner,
                d.msg->MemberDone_name@,
                d.msg->outcome,
                texts(job.warnings@),
                texts(job.tail@),
            )
            &&& now.tail@.len() == 0 && now.warnings@.len() == 0
        }),
{
    lemma_one_message(app, job, d, msgs, r);
}

/// A build that is over frees the slot, and the session leaves then exactly where
/// it was asked to leave, before or during the build. One whose worker is gone
/// without an end is an error.
pub proof fn law_a_build_that_is_over_frees_the_slot(
    app: &mut App,
    job: BuildJob,
    d: Delivered,
    msgs: VecDeque<Delivered>,
    r: Result<Flow, String>,
    lost: &mut App,
    none: VecDeque<Delivered>,
    error: Result<Flow, String>,
)
    requires
        old(app).job == Some(Job::Build(job)),
        d.msg is Done,
        msgs@ == seq![d],
        call_ensures(App::poll_job, (app, JobEvent::Build { heard: msgs, gone: true }), r),
        old(lost).job == Some(Job::Build(job)),
        none@.len() == 0,
        call_ensures(App::poll_job, (lost, JobEvent::Build { heard: none, gone: true }), error),
    ensures
        r is Ok,
        final(app).should_quit == (old(app).should_quit || old(app).quit_after_build),
        final(app).job is None,
        r->Ok_0 is Reload || r->Ok_0 is Done,
        error is Err,
        final(lost).job is None,
{
    let all = msgs@;
    reveal_with_fuel(done_at, 2);
    assert(done_at(all) == 0);
    assert(all.take(0) =~= Seq::empty());
    let free = App { job: None, ..*old(app) };
    lemma_nothing_heard(free, job);
    assert(none@.take(0) =~= Seq::empty());
    lemma_nothing_heard(App { job: None, ..*old(lost) }, job);
}

proof fn lemma_nothing_heard(before: App, job: BuildJob)
    ensures
        forall|after: App, now: BuildJob|
            #[trigger] heard_all(before, job, Seq::empty(), after, now) ==> after == before && now
                == job,
{
}

/// What a recorded check says: how many updates there are, and how many are held
/// back by a pin; a report that could not be saved is said too.
pub proof fn law_a_check_says_what_it_found(
    app: &mut App,
    recorded: Recorded,
    updates: usize,
    behind: usize,
)
    requires
        recorded is Made,
        recorded->manifest is Loaded,
        call_ensures(App::check_recorded, (app, false, recorded), ()),
        call_ensures(App::updates_available, (&*final(app),), updates),
        call_ensures(App::pinned_outdated, (&*final(app),), behind),
    ensures
        ({
            let found = "checked: "@ + (decimal(updates as nat) + " update(s) available"@ + if behind
                > 0 {
                "; "@ + decimal(behind as nat) + " pinned held back"@
            } else {
                Seq::empty()
            });
            &&& recorded->persisted is Ok ==> said(*final(app), found)
            &&& recorded->persisted is Err ==> said(
                *final(app),
                found + "; report not saved: "@ + recorded->persisted->Err_0@,
            )
        }),
{
    reveal_strlit(" update(s) available; ");
    reveal_strlit(" update(s) available");
    reveal_strlit("; ");
    let n = decimal(updates as nat);
    if behind > 0 {
        assert(" update(s) available; "@ =~= " update(s) available"@ + "; "@);
        assert(n + " update(s) available; "@ + decimal(behind as nat) + " pinned held back"@
            =~= n + " update(s) available"@ + ("; "@ + decimal(behind as nat)
            + " pinned held back"@));
    } else {
        assert(n + " update(s) available"@ + Seq::<char>::empty() =~= n
            + " update(s) available"@);
    }
}

/// A sweep that found nothing to update but something held back says so.
pub proof fn law_a_sweep_with_nothing_to_do_says_so(
    app: &mut App,
    recorded: Recorded,
    updates: usize,
    behind: usize,
)
    requires
        recorded is Made,
        recorded->manifest is Loaded,
        call_ensures(App::check_recorded, (app, true, recorded), ()),
        call_ensures(App::updates_available, (&*final(app),), updates),
        call_ensures(App::pinned_outdated, (&*final(app),), behind),
    ensures
        updates == 0 && behind > 0 ==> said(
            *final(app),
            "nothing to update; "@ + decimal(behind as nat) + " pinned crate(s) held back"@,
        ),
        updates > 0 ==> final(app).confirm is Some && final(app).confirm->0.prompt@ == sanitized(
            "update "@ + decimal(updates as nat) + " crate(s)? [y/N]"@,
        ),
        updates > 0 && behind == 0 ==> final(app).build_report->0.title@ == "update plan: "@
            + decimal(updates as nat) + " crate(s)"@,
        updates > 0 && behind > 0 ==> final(app).build_report->0.title@ == "update plan: "@
            + decimal(updates as nat) + " crate(s)"@ + (" ("@ + decimal(behind as nat)
            + " pinned held back)"@),
{
    let rows = final(app).rows@;
    law_sweeps_plan_what_updates_shows(rows);
    super::law_tabs_count_their_views(rows);
    let title = "update plan: "@ + decimal(updates as nat) + " crate(s)"@;
    assert(title + Seq::<char>::empty() =~= title);
}

/// What an audit says counts what it found, and the crates that it looked at.
pub proof fn law_an_audit_counts_its_findings(
    app: &mut App,
    started: u64,
    report: VerifyReport,
    r: Result<Flow, String>,
)
    requires
        old(app).job == Some(Job::Verify { started, cancel: false }),
        report.crates is Some,
        call_ensures(App::poll_job, (app, JobEvent::Verified(Ok(report))), r),
    ensures
        ({
            let crates = decimal(report.crates->0 as nat);
            let (errors, warnings) = (
                decimal(report.errors.len() as nat),
                decimal(report.warnings.len() as nat),
            );
            &&& report.errors.len() == 0 && report.warnings.len() == 0 ==> said(
                *final(app),
                "verify: ok — "@ + crates + " managed crate(s)"@,
            )
            &&& report.errors.len() > 0 ==> said(
                *final(app),
                "verify: "@ + crates + " crate(s), "@ + errors
                    + " error(s) — details in the panel; Esc/Enter dismisses"@,
            ) && final(app).build_report->0.title@ == "verify: "@ + errors
                + " verification error(s), "@ + warnings + " warning(s)"@
            &&& report.errors.len() == 0 && report.warnings.len() > 0 ==> said(
                *final(app),
                "verify: "@ + crates + " crate(s) ok, "@ + warnings
                    + " warning(s) in the panel; Esc/Enter dismisses"@,
            ) && final(app).build_report->0.title@ == "verify: "@ + warnings + " warning(s)"@
        }),
{
}

/// The questions of a rebuild and the offer of a downgrade say how many they are
/// about, and where.
pub proof fn law_questions_count_what_they_are_about(
    rebuild: &mut App,
    planned: Vec<(String, ReinstallPlan)>,
    r: Result<Flow, String>,
    offer: &mut App,
    name: String,
    current: String,
    candidates: Vec<Version>,
    o: Result<Flow, String>,
    found: &mut App,
    query: String,
    hits: Vec<Hit>,
    read: PrefixRead,
)
    requires
        old(rebuild).job == Some(Job::ReinstallPlan { cancel: false }),
        planned.len() > 0,
        call_ensures(App::poll_job, (rebuild, JobEvent::Frozen(Ok(planned))), r),
        old(offer).job == Some(Job::Downgrade { name, current, cancel: false }),
        call_ensures(App::poll_job, (offer, JobEvent::Candidates(Ok(candidates))), o),
        read.manifest is Loaded,
        call_ensures(App::search_reloaded, (found, query, hits, read), ()),
    ensures
        final(rebuild).confirm->0.prompt@ == sanitized(
            "rebuild all "@ + decimal(planned.len() as nat) + " managed crate(s) under "@ + old(rebuild).prefix@ + "? [y/N]"@,
        ),
        final(rebuild).build_report->0.title@ == "rebuild plan: "@ + decimal(planned.len() as nat)
            + " crate(s)"@,
        candidates.len() == 0 ==> said(
            *final(offer),
            name@ + " "@ + current@ + " is installed; no older version to go back to"@,
        ),
        0 < candidates.len() <= 9 ==> said(
            *final(offer),
            "1-"@ + decimal(candidates.len() as nat) + " installs, Esc dismisses"@,
        ),
        candidates.len() > 9 ==> said(
            *final(offer),
            "1-"@ + decimal(9) + " installs, Esc dismisses"@,
        ),
        said(
            *final(found),
            decimal(hits.len() as nat) + " hit(s); 1-"@ + decimal(hits.len() as nat)
                + " to install, Esc to dismiss"@,
        ),
{
}

/// What is said of an answer that comes after its cancel, and of a worker that is
/// gone, names the lookup.
pub proof fn law_discarded_answers_are_named(
    app: &mut App,
    event: JobEvent,
    r: Result<Flow, String>,
    lost: &mut App,
    error: Result<Flow, String>,
)
    requires
        old(app).job is Some && old(app).job->0.cancel_asked(),
        fits(old(app).job->0, event),
        !(event is Nothing) && !(event is Gone),
        call_ensures(App::poll_job, (app, event), r),
        old(lost).job is Some && !(old(lost).job->0 is Build),
        call_ensures(App::poll_job, (lost, JobEvent::Gone), error),
    ensures
        r is Ok && r->Ok_0 is Done,
        *final(app) == (App { job: None, message: final(app).message, ..*old(app) }),
        said(
            *final(app),
            match old(app).job->0 {
                Job::Check { .. } => "update check cancelled"@,
                Job::UpdateSweepCheck { .. } => "update check cancelled"@,
                Job::ReinstallPlan { .. } => "rebuild cancelled"@,
                Job::UpdatePlan { name, .. } => "version lookup for `"@ + name@ + "` cancelled"@,
                Job::Downgrade { name, .. } => "version lookup for `"@ + name@ + "` cancelled"@,
                Job::Verify { .. } => "verify cancelled — the result was discarded"@,
                Job::Search { query, .. } => "search for `"@ + query@ + "` cancelled"@,
                Job::Build(_) => Seq::empty(),
            },
        ),
        error is Err && error->Err_0@ == (match old(lost).job->0 {
            Job::Check { .. } => "update check worker"@,
            Job::UpdateSweepCheck { .. } => "update check worker"@,
            Job::ReinstallPlan { .. } => "prefix reader"@,
            Job::UpdatePlan { .. } => "version lookup worker"@,
            Job::Downgrade { .. } => "version lookup worker"@,
            Job::Verify { .. } => "verify worker"@,
            Job::Search { .. } => "search worker"@,
            Job::Build(_) => "build worker"@,
        }) + " aborted; the terminal was reset by the panic"@,
{
}

/// The warnings among messages, in order.
pub open spec fn warnings_among(msgs: Seq<Delivered>) -> Seq<String>
    decreases msgs.len(),
{
    if msgs.len() == 0 {
        Seq::empty()
    } else if msgs.last().msg is Warning {
        warnings_among(msgs.drop_last()).push(msgs.last().msg->Warning_0)
    } else {
        warnings_among(msgs.drop_last())
    }
}

/// How many units messages announce.
pub open spec fn units_among(msgs: Seq<Delivered>) -> nat
    decreases msgs.len(),
{
    if msgs.len() == 0 {
        0
    } else {
        units_among(msgs.drop_last()) + if msgs.last().msg is Cargo
            && msgs.last().event is Compiling {
            1nat
        } else {
            0
        }
    }
}

/// Every message of a look is heard, in order: all the warnings are kept, every
/// unit is counted, and the last line heard is the newest of the tail.
pub proof fn law_every_message_is_heard(
    app: &mut App,
    job: BuildJob,
    msgs: VecDeque<Delivered>,
    r: Result<Flow, String>,
)
    requires
        old(app).job == Some(Job::Build(job)),
        forall|i: int|
            0 <= i < msgs@.len() ==> (#[trigger] msgs@[i]).msg is Cargo || msgs@[i].msg is Notice
                || msgs@[i].msg is Warning || msgs@[i].msg is NeedAuth,
        call_ensures(App::poll_job, (app, JobEvent::Build { heard: msgs, gone: false }), r),
    ensures
        r is Ok && r->Ok_0 is Done,
        final(app).job is Some && final(app).job->0 is Build,
        final(app).job->0->Build_0.warnings@ == job.warnings@ + warnings_among(msgs@),
        final(app).job->0->Build_0.units_started == job.units_started + units_among(msgs@),
        msgs@.len() > 0 && msgs@.last().msg is Cargo ==> final(app).job->0->Build_0.tail@.last() == msgs@.last().msg->Cargo_0,
        final(app).install_batch == old(app).install_batch,
{
    let all = msgs@;
    assert forall|i: int| 0 <= i < all.len() implies !((#[trigger] all[i]).msg is Done) by {
        assert(all[i].msg is Cargo || all[i].msg is Notice || all[i].msg is Warning
            || all[i].msg is NeedAuth);
    }
    lemma_none_done(all);
    assert(all.take(all.len() as int) =~= all);
    let free = App { job: None, ..*old(app) };
    let (mid, now) = choose|mid: App, now: BuildJob|
        {
            &&& #[trigger] heard_all(free, job, all.take(done_at(all)), mid, now)
            &&& *final(app) == (App { job: Some(Job::Build(now)), ..mid })
            &&& r is Ok && r->Ok_0 is Done
        };
    let (apps, jobs) = choose|apps: Seq<App>, jobs: Seq<BuildJob>|
        {
            &&& #[trigger] chained(all, apps, jobs)
            &&& apps[0] == free
            &&& jobs[0] == job
            &&& apps.last() == mid
            &&& jobs.last() == now
        };
    lemma_heard_sum(all, apps, jobs, all.len() as int);
}

proof fn lemma_none_done(msgs: Seq<Delivered>)
    requires
        forall|i: int| 0 <= i < msgs.len() ==> !((#[trigger] msgs[i]).msg is Done),
    ensures
        done_at(msgs) == msgs.len(),
    decreases msgs.len(),
{
    if msgs.len() > 0 {
        let rest = msgs.drop_first();
        assert(!(msgs[0].msg is Done));
        assert forall|i: int| 0 <= i < rest.len() implies !((#[trigger] rest[i]).msg is Done) by {
            assert(rest[i] == msgs[i + 1]);
        }
        lemma_none_done(rest);
    }
}

proof fn lemma_heard_sum(msgs: Seq<Delivered>, apps: Seq<App>, jobs: Seq<BuildJob>, k: int)
    requires
        chained(msgs, apps, jobs),
        0 <= k <= msgs.len(),
        forall|i: int|
            0 <= i < msgs.len() ==> (#[trigger] msgs[i]).msg is Cargo || msgs[i].msg is Notice
                || msgs[i].msg is Warning || msgs[i].msg is NeedAuth,
    ensures
        jobs[k].warnings@ == jobs[0].warnings@ + warnings_among(msgs.take(k)),
        jobs[k].units_started == jobs[0].units_started + units_among(msgs.take(k)),
        k > 0 && msgs[k - 1].msg is Cargo ==> jobs[k].tail@.last() == msgs[k - 1].msg->Cargo_0,
        apps[k].install_batch == apps[0].install_batch,
    decreases k,
{
    if k == 0 {
        assert(msgs.take(0) =~= Seq::empty());
        assert(jobs[0].warnings@ + warnings_among(msgs.take(0)) =~= jobs[0].warnings@);
    } else {
        lemma_heard_sum(msgs, apps, jobs, k - 1);
        assert(heard(apps[k - 1], jobs[k - 1], msgs[k - 1], apps[k - 1 + 1], jobs[k - 1 + 1]));
        assert(msgs.take(k).drop_last() =~= msgs.take(k - 1));
        assert(msgs.take(k).last() == msgs[k - 1]);
        assert(jobs[k].warnings@ =~= jobs[0].warnings@ + warnings_among(msgs.take(k)));
    }
}

/// The message that ends a build ends it with its own outcome, and what comes
/// after it is not heard: the build that is finished is the one that ran, with
/// what it said up to there.
pub proof fn law_a_build_ends_with_its_outcome(
    app: &mut App,
    job: BuildJob,
    d: Delivered,
    msgs: VecDeque<Delivered>,
    gone: bool,
    r: Result<Flow, String>,
)
    requires
        old(app).job == Some(Job::Build(job)),
        old(app).migrate_batch is None && old(app).install_batch is None,
        msgs@.len() > 0,
        msgs@[0] == d,
        d.msg is Done,
        call_ensures(App::poll_job, (app, JobEvent::Build { heard: msgs, gone }), r),
    ensures
        r is Ok,
        !(d.msg->Done_0 is Cancelled) ==> {
            let fin = r->Ok_0->Reload_0->Build_0;
            &&& r->Ok_0 is Reload && r->Ok_0->Reload_0 is Build
            &&& fin.outcome == d.msg->Done_0
            &&& fin.name == job.name && fin.kind == job.kind
            &&& fin.tail == job.tail && fin.warnings == job.warnings
        },
        d.msg->Done_0 is Cancelled ==> r->Ok_0 is Done && said(
            *final(app),
            job.kind.word() + " "@ + job.name@ + " cancelled"@,
        ),
{
    let all = msgs@;
    assert(done_at(all) == 0);
    assert(all.take(0) =~= Seq::empty());
    lemma_nothing_heard(App { job: None, ..*old(app) }, job);
}

/// A warning reaches the panel at once, with all those before it, under the build
/// that said it.
pub proof fn law_a_warning_reaches_the_panel(
    app: &mut App,
    job: BuildJob,
    d: Delivered,
    msgs: VecDeque<Delivered>,
    r: Result<Flow, String>,
)
    requires
        old(app).job == Some(Job::Build(job)),
        d.msg is Warning,
        msgs@ == seq![d],
        call_ensures(App::poll_job, (app, JobEvent::Build { heard: msgs, gone: false }), r),
    ensures
        final(app).build_report is Some && !final(app).build_report->0.failed,
        final(app).build_report->0.lines.len() == job.warnings.len() + 1,
        final(app).build_report->0.lines@.last()@ == d.msg->Warning_0@,
        forall|i: int|
            0 <= i < job.warnings.len() ==> (#[trigger] final(app).build_report->0.lines@[i])@
                == job.warnings@[i]@,
        old(app).install_batch is None ==> final(app).build_report->0.title@ == job.kind.word()
            + " "@ + job.name@ + ": warnings"@,
        old(app).install_batch is Some && old(app).install_batch->0.current is Some ==> final(app).build_report->0.title@ == job.kind.word() + " "@ + ("["@ + decimal(
            old(app).install_batch->0.attempted as nat,
        ) + "/"@ + decimal(old(app).install_batch->0.runner.total as nat) + "] "@ + old(app).install_batch->0.current->0@) + ": warnings"@,
        final(app).message == old(app).message,
{
    lemma_one_message(app, job, d, msgs, r);
    let lines = final(app).build_report->0.lines@;
    let now = final(app).job->0->Build_0.warnings@;
    let (shown, kept) = (texts(lines), texts(now));
    assert(shown.len() == lines.len() && kept.len() == now.len());
    assert(shown[shown.len() - 1] == kept[kept.len() - 1]);
    assert forall|i: int| 0 <= i < job.warnings.len() implies (#[trigger] lines[i])@
        == job.warnings@[i]@ by {
        assert(shown[i] == kept[i]);
    }
}

/// What waits for a reload goes on with what it waited with: a search shows its
/// hits under its query, a check asks the registry, a failed build pins its
/// failure, and a member of a migration is followed by the next.
pub proof fn law_a_reload_goes_on_with_what_waited(
    search: &mut App,
    query: String,
    hits: Vec<Hit>,
    found: Result<Flow, String>,
    check: &mut App,
    asked: Result<Flow, String>,
    build: &mut App,
    fin: super::Finished,
    told: Result<Flow, String>,
    step: &mut App,
    member: super::Finished,
    next: Result<Flow, String>,
    read: PrefixRead,
)
    requires
        read.manifest is Loaded,
        call_ensures(App::reloaded, (search, AfterReload::Search { query, hits }, read), found),
        old(check).job is None,
        call_ensures(App::reloaded, (check, AfterReload::Check, read), asked),
        fin.outcome is Failed,
        call_ensures(App::reloaded, (build, AfterReload::Build(fin), read), told),
        member.kind is Migrate && !(member.outcome is Cancelled),
        old(step).migrate_batch is Some && !old(step).migrate_batch->0.stopping
            && old(step).migrate_batch->0.runner.queue@.len() > 0,
        call_ensures(App::reloaded, (step, AfterReload::BatchStep(member), read), next),
    ensures
        final(search).search_result is Some && final(search).search_result->0.query == query
            && final(search).search_result->0.hits == hits,
        read.manifest->manifest.crates.len() > 0 ==> asked is Ok && asked->Ok_0 is Start
            && final(check).job == Some(Job::Check { cancel: false }),
        read.manifest->manifest.crates.len() == 0 ==> asked is Ok && asked->Ok_0 is Done && said(
            *final(check),
            "nothing installed; nothing to check"@,
        ),
        final(build).build_report is Some && final(build).build_report->0.failed
            && final(build).build_report->0.title@ == fin.kind.word() + " "@ + fin.name@
            + " failed"@,
        final(step).pending_migrate == Some(old(step).migrate_batch->0.runner.queue@[0]),
        found is Ok && told is Ok && next is Ok,
{
}

/// A lock that is not to be had is said by whatever waited, and nothing is shown,
/// asked or started on an old list.
pub proof fn law_a_lock_that_fails_stops_what_waited(
    search: &mut App,
    query: String,
    hits: Vec<Hit>,
    found: Result<Flow, String>,
    check: &mut App,
    asked: Result<Flow, String>,
    retry: &mut App,
    retried: Result<Flow, String>,
    whole: &mut App,
    dest: String,
    planned: Result<Flow, String>,
    pin: &mut App,
    name: String,
    pinned: bool,
    version: String,
    set: Result<Flow, String>,
    gone: &mut App,
    bins: Vec<String>,
    removed: Result<Flow, String>,
    made: &mut App,
    recorded: Recorded,
    read: PrefixRead,
)
    requires
        read.manifest is Locked,
        call_ensures(App::reloaded, (search, AfterReload::Search { query, hits }, read), found),
        call_ensures(App::reloaded, (check, AfterReload::Check, read), asked),
        call_ensures(App::reloaded, (retry, AfterReload::Retry, read), retried),
        call_ensures(App::reloaded, (whole, AfterReload::MigrateAll { dest }, read), planned),
        call_ensures(
            App::reloaded,
            (pin, AfterReload::PinChanged { name, pinned, version }, read),
            set,
        ),
        call_ensures(App::reloaded, (gone, AfterReload::Removed { name, bins }, read), removed),
        recorded is Made && recorded->manifest == read.manifest,
        call_ensures(App::check_recorded, (made, true, recorded), ()),
    ensures
        ({
            let e = read.manifest->Locked_0@;
            &&& said(*final(search), "reload failed: "@ + e) && final(search).search_result is None
            &&& said(*final(check), "reload failed: "@ + e) && asked is Ok && asked->Ok_0 is Done
            &&& said(*final(retry), "reload failed: "@ + e)
            &&& said(*final(whole), "cannot plan the batch: "@ + e) && final(whole).confirm == old(whole).confirm
            &&& said(
                *final(pin),
                (if pinned {
                    "pinned"@
                } else {
                    "unpinned"@
                }) + " "@ + name@ + ", but the reload failed: "@ + e,
            )
            &&& said(*final(gone), "removed "@ + name@ + ", but the reload failed: "@ + e)
            &&& said(*final(made), "reload failed: "@ + e) && final(made).confirm == old(made).confirm
        }),
{
}

/// With a manifest that does not load, whatever waited says so and goes no further:
/// no check starts, no hits are shown, nothing is asked.
pub proof fn law_a_degraded_manifest_stops_what_waited(
    search: &mut App,
    query: String,
    hits: Vec<Hit>,
    found: Result<Flow, String>,
    check: &mut App,
    asked: Result<Flow, String>,
    whole: &mut App,
    dest: String,
    planned: Result<Flow, String>,
    made: &mut App,
    recorded: Recorded,
    read: PrefixRead,
)
    requires
        read.manifest is Refused,
        call_ensures(App::reloaded, (search, AfterReload::Search { query, hits }, read), found),
        call_ensures(App::reloaded, (check, AfterReload::Check, read), asked),
        call_ensures(App::reloaded, (whole, AfterReload::MigrateAll { dest }, read), planned),
        recorded is Made && recorded->manifest == read.manifest,
        call_ensures(App::check_recorded, (made, true, recorded), ()),
    ensures
        said(*final(search), super::degraded_text()) && final(search).search_result is None,
        said(*final(check), super::degraded_text()) && final(check).job == old(check).job && asked
            is Ok && asked->Ok_0 is Done,
        said(*final(whole), super::degraded_text()) && final(whole).confirm == old(whole).confirm,
        said(*final(made), super::degraded_text()) && final(made).confirm == old(made).confirm
            && final(made).build_report == old(made).build_report,
        final(search).rows.len() == 0 && final(check).rows.len() == 0 && final(whole).rows.len()
            == 0 && final(made).rows.len() == 0,
        final(search).report_age is None && final(check).report_age is None,
{
}

/// A sweep that has nothing to ask leaves the panel as it was, and so does a check
/// that no sweep asked for.
pub proof fn law_a_check_without_a_plan_leaves_the_panel(
    app: &mut App,
    sweep: bool,
    recorded: Recorded,
    updates: usize,
)
    requires
        recorded is Made,
        recorded->manifest is Loaded,
        call_ensures(App::check_recorded, (app, sweep, recorded), ()),
        call_ensures(App::updates_available, (&*final(app),), updates),
        !sweep || updates == 0,
    ensures
        final(app).build_report == old(app).build_report,
        final(app).report_scroll == old(app).report_scroll,
        final(app).confirm == old(app).confirm,
{
    let rows = final(app).rows@;
    law_sweeps_plan_what_updates_shows(rows);
    super::law_tabs_count_their_views(rows);
}

} // verus!
