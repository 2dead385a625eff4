//! The read-only and planning jobs: how each is started, and what its answer
//! changes.
use super::{
    list_reread, listed, read_answer, relisted, shown, tally, AfterReload, App, Flow, ManifestRead,
    PrefixRead, Tally, Work, DOWNGRADE_CHOICES,
};
use crate::batch::{space, spaced};
use crate::decimal::{count_of, decimal};
use crate::job::{BuildIntent, Finding, Job, PendingBuild, VerifyReport};
use crate::state::{
    unparsable_version, BuildReport, Checked, Confirm, DowngradeChoice, Entry, Filter, Hit,
    MessageKind, OnConfirm, PlannedUpdate, ReinstallPlan, ReloadOutcome, Report, Row, RowStatus,
    SearchResult, UpdatePlan,
};
use crate::text::{cat, cat3, cat4, cat5, cat6, copied, same, sanitize, sanitized, texts};
use crate::version::{is_semver, Version};
use vstd::prelude::*;

verus! {

/// The messages of findings.
pub open spec fn messages(findings: Seq<Finding>) -> Seq<Seq<char>> {
    Seq::new(findings.len(), |i: int| findings[i].message@)
}

/// The panel of an audit: the errors, then the warnings under their heading.
pub open spec fn audit_lines(report: VerifyReport) -> Seq<Seq<char>> {
    let errors = messages(report.errors@);
    if report.warnings@.len() == 0 {
        errors
    } else {
        spaced(errors).push("warnings:"@) + messages(report.warnings@)
    }
}

/// How many crates an audit counted; none where it could not count.
pub open spec fn audited(report: VerifyReport) -> nat {
    match report.crates {
        Some(crates) => crates as nat,
        None => 0,
    }
}

/// What a finished audit changes: errors are a failed sticky panel, warnings a
/// non-failed one, a clean prefix one footer line. An uncounted manifest
/// reports its errors without inventing a count.
pub open spec fn verify_finished(before: App, result: Result<VerifyReport, String>, after: App) -> bool {
    match result {
        Err(e) => {
            &&& after == (App { message: after.message, ..before })
            &&& after.says("verify failed: "@ + e@, MessageKind::Error)
        },
        Ok(report) => {
            let errors = decimal(report.errors@.len());
            let warnings = decimal(report.warnings@.len());
            if report.errors@.len() == 0 && report.warnings@.len() == 0 {
                &&& after == (App { message: after.message, ..before })
                &&& after.says(
                    "verify: ok — "@ + decimal(audited(report)) + " managed crate(s)"@,
                    MessageKind::Info,
                )
            } else if report.errors@.len() > 0 {
                &&& after == (App {
                    message: after.message,
                    build_report: after.build_report,
                    report_scroll: 0,
                    ..before
                })
                &&& after.pins(
                    "verify: "@ + errors + " verification error(s), "@ + warnings + " warning(s)"@,
                    audit_lines(report),
                    true,
                )
                &&& after.says(
                    (match report.crates {
                        Some(crates) => "verify: "@ + decimal(crates as nat) + " crate(s), "@,
                        None => "verify: "@,
                    }) + errors + " error(s) — details in the panel; Esc/Enter dismisses"@,
                    MessageKind::Error,
                )
            } else {
                &&& after == (App {
                    message: after.message,
                    build_report: after.build_report,
                    report_scroll: 0,
                    ..before
                })
                &&& after.pins("verify: "@ + warnings + " warning(s)"@, audit_lines(report), false)
                &&& after.says(
                    "verify: "@ + decimal(audited(report)) + " crate(s) ok, "@ + warnings
                        + " warning(s) in the panel; Esc/Enter dismisses"@,
                    MessageKind::Warning,
                )
            }
        },
    }
}

/// What a finished update check changes at once, and what it asks for: an answer
/// is recorded, a cancel between requests leaves nothing to record.
pub open spec fn check_finished(
    before: App,
    result: Result<Option<Vec<Checked>>, String>,
    sweep: bool,
    after: App,
    flow: Flow,
) -> bool {
    match result {
        Ok(None) => {
            &&& after == (App { message: after.message, ..before })
            &&& after.says("update check cancelled"@, MessageKind::Info)
            &&& flow is Done
        },
        Ok(Some(checked)) => after == before && flow == (Flow::Record { checked, sweep }),
        Err(e) => {
            &&& after == (App { message: after.message, ..before })
            &&& after.says("update check failed: "@ + e@, MessageKind::Error)
            &&& flow is Done
        },
    }
}

/// What became of recording an update check.
pub enum Recorded {
    /// No report could be made of it.
    Failed(String),
    /// A report, whether it could be stored, and the manifest read with it.
    Made { report: Report, persisted: Result<(), String>, manifest: ManifestRead },
}

/// How many updates a check found: the count matches the Updates tab, the pinned
/// backlog is reported alongside, never folded in.
pub open spec fn check_summary(rows: Seq<Row>) -> Seq<char> {
    let n = decimal(tally(Tally::Updates, rows));
    let held = tally(Tally::PinnedOutdated, rows);
    if held > 0 {
        n + " update(s) available; "@ + decimal(held) + " pinned held back"@
    } else {
        n + " update(s) available"@
    }
}

/// A planned update, as its texts.
pub open spec fn planned_view(planned: Seq<PlannedUpdate>) -> Seq<
    (Seq<char>, Seq<char>, Seq<char>),
> {
    Seq::new(
        planned.len(),
        |i: int| (planned[i].name@, planned[i].current@, planned[i].latest@),
    )
}

/// The plan of an update sweep: what the report says, minus the pins, which are
/// a standing instruction.
pub open spec fn update_plan_of(rows: Seq<Row>) -> Seq<(Seq<char>, Seq<char>, Seq<char>)>
    decreases rows.len(),
{
    if rows.len() == 0 {
        Seq::empty()
    } else {
        let before = update_plan_of(rows.drop_last());
        let row = rows.last();
        match row.status {
            RowStatus::Outdated(latest) => if row.pinned {
                before
            } else {
                before.push((row.name@, row.version@, latest@))
            },
            _ => before,
        }
    }
}

/// A plan's lines: what each crate is at, and what it would become.
pub open spec fn update_lines(plan: Seq<(Seq<char>, Seq<char>, Seq<char>)>) -> Seq<Seq<char>> {
    Seq::new(
        plan.len(),
        |i: int| sanitized(plan[i].0 + " "@ + plan[i].1 + " -> "@ + plan[i].2),
    )
}

/// What a recorded check of a sweep leads to, once the list shows it: nothing to
/// do, or a plan to read and answer, shown in full, because a count is not a
/// plan.
pub open spec fn sweep_planned(rows: Seq<Row>, before: App, after: App) -> bool {
    let plan = update_plan_of(rows);
    let held = tally(Tally::PinnedOutdated, rows);
    if plan.len() == 0 {
        &&& after.build_report == before.build_report
        &&& after.report_scroll == before.report_scroll
        &&& after.confirm == before.confirm
    } else {
        &&& after.pins(
            "update plan: "@ + decimal(plan.len()) + " crate(s)"@ + (if held > 0 {
                " ("@ + decimal(held) + " pinned held back)"@
            } else {
                Seq::empty()
            }),
            update_lines(plan),
            false,
        )
        &&& after.confirm matches Some(c) && c.prompt@ == sanitized(
            "update "@ + decimal(plan.len()) + " crate(s)? [y/N]"@,
        ) && (c.action matches OnConfirm::UpdateAll { planned } && planned_view(planned@) == plan)
    }
}

/// What the footer says once a check is recorded and the list shows it.
pub open spec fn check_says(
    rows: Seq<Row>,
    sweep: bool,
    persisted: Result<(), String>,
    after: App,
) -> bool {
    let held = tally(Tally::PinnedOutdated, rows);
    if sweep && update_plan_of(rows).len() == 0 && held > 0 {
        after.says(
            "nothing to update; "@ + decimal(held) + " pinned crate(s) held back"@,
            MessageKind::Info,
        )
    } else {
        match persisted {
            Ok(()) => after.says("checked: "@ + check_summary(rows), MessageKind::Info),
            Err(e) => after.says(
                "checked: "@ + check_summary(rows) + "; report not saved: "@ + e@,
                MessageKind::Warning,
            ),
        }
    }
}

/// What a recorded check changes. Reaching the index is success even if the
/// report could not persist. A failure, a lock or a degraded manifest plans
/// nothing: the rows still hold the previous check, and a plan made from it
/// would be about a world nobody just looked at.
pub open spec fn check_recorded_as(before: App, sweep: bool, recorded: Recorded, after: App) -> bool {
    match recorded {
        Recorded::Failed(e) => {
            &&& after == (App { message: after.message, ..before })
            &&& after.says("update check failed: "@ + e@, MessageKind::Error)
        },
        Recorded::Made { report, persisted, manifest } => {
            &&& listed(before, manifest, Some(&report), after)
            &&& after == (App {
                message: after.message,
                build_report: after.build_report,
                report_scroll: after.report_scroll,
                confirm: after.confirm,
                rows: after.rows,
                report_age: after.report_age,
                selected: after.selected,
                manifest_error: after.manifest_error,
                ..before
            })
            &&& match read_answer(manifest) {
                Ok(ReloadOutcome::Loaded) => {
                    &&& check_says(after.rows@, sweep, persisted, after)
                    &&& if sweep {
                        sweep_planned(after.rows@, before, after)
                    } else {
                        after.confirm == before.confirm && after.build_report
                            == before.build_report && after.report_scroll == before.report_scroll
                    }
                },
                Ok(ReloadOutcome::Degraded) => {
                    &&& after.says(super::degraded_text(), MessageKind::Error)
                    &&& after.confirm == before.confirm
                    &&& after.build_report == before.build_report
                    &&& after.report_scroll == before.report_scroll
                },
                Err(e) => {
                    &&& after.says("reload failed: "@ + e@, MessageKind::Error)
                    &&& after.confirm == before.confirm
                    &&& after.build_report == before.build_report
                    &&& after.report_scroll == before.report_scroll
                },
            }
        },
    }
}

/// A rebuild plan's lines: each entry as it stands.
pub open spec fn rebuild_lines(planned: Seq<(String, ReinstallPlan)>) -> Seq<Seq<char>> {
    Seq::new(
        planned.len(),
        |i: int|
            sanitized(
                planned[i].0@ + " "@ + planned[i].1.version@ + (if planned[i].1.pinned {
                    " [pinned]"@
                } else {
                    Seq::empty()
                }) + (if planned[i].1.locked {
                    " [locked]"@
                } else {
                    Seq::empty()
                }),
            ),
    )
}

/// What the read behind a rebuild of everything leads to: nothing to do, or a
/// question naming the whole set the sweep will touch, with the plan shown in
/// full.
pub open spec fn rebuild_planned(
    before: App,
    planned: Vec<(String, ReinstallPlan)>,
    after: App,
) -> bool {
    if planned@.len() == 0 {
        &&& after == (App { message: after.message, ..before })
        &&& after.says("nothing installed under "@ + before.prefix@, MessageKind::Info)
    } else {
        &&& after == (App {
            build_report: after.build_report,
            report_scroll: 0,
            confirm: after.confirm,
            ..before
        })
        &&& after.pins(
            "rebuild plan: "@ + decimal(planned@.len()) + " crate(s)"@,
            rebuild_lines(planned@),
            false,
        )
        &&& after.confirm matches Some(c) && c.prompt@ == sanitized(
            "rebuild all "@ + decimal(planned@.len()) + " managed crate(s) under "@
                + before.prefix@ + "? [y/N]"@,
        ) && c.action == (OnConfirm::ReinstallAll { planned })
    }
}

/// What the lookup behind an update leads to: say there is nothing, or show the
/// plan and ask. The plan is one line because one crate is one line.
pub open spec fn update_planned(before: App, name: String, plan: UpdatePlan, after: App) -> bool {
    match plan {
        UpdatePlan::UpToDate { current } => {
            &&& after == (App { message: after.message, ..before })
            &&& after.says(name@ + " "@ + current@ + " is up to date"@, MessageKind::Info)
        },
        UpdatePlan::Outdated { current, latest } => {
            &&& after == (App { confirm: after.confirm, ..before })
            &&& after.confirm matches Some(c) && c.prompt@ == sanitized(
                "update "@ + name@ + " "@ + current@ + " -> "@ + latest@ + "? [y/N]"@,
            ) && c.action == (OnConfirm::Update { name, expected: current })
        },
    }
}

/// The lesser of two numbers.
pub open spec fn least(a: nat, b: nat) -> nat {
    if a <= b {
        a
    } else {
        b
    }
}

/// What the lookup behind a downgrade leads to: the offer, as many versions as a
/// digit can name, or the reason there is none.
pub open spec fn downgrade_offered(
    before: App,
    name: String,
    current: String,
    candidates: Seq<Version>,
    after: App,
) -> bool {
    if candidates.len() == 0 {
        &&& after == (App { message: after.message, ..before })
        &&& after.says(
            name@ + " "@ + current@ + " is installed; no older version to go back to"@,
            MessageKind::Info,
        )
    } else {
        let n = least(candidates.len(), DOWNGRADE_CHOICES as nat);
        &&& after == (App {
            message: after.message,
            downgrade_choice: after.downgrade_choice,
            ..before
        })
        &&& after.downgrade_choice matches Some(choice) && choice.name == name && choice.current
            == current && choice.versions@ == candidates.take(n as int) && choice.older
            == candidates.len() - n
        &&& after.says("1-"@ + decimal(n) + " installs, Esc dismisses"@, MessageKind::Info)
    }
}

/// Whether one of the hits has this name.
pub open spec fn hit_named(hits: Seq<Hit>, name: Seq<char>) -> bool {
    exists|i: int| 0 <= i < hits.len() && (#[trigger] hits[i]).name@ == name
}

/// The installed crates among the hits, with their versions, in the order of the
/// list.
pub open spec fn installed_among(rows: Seq<Row>, hits: Seq<Hit>) -> Seq<(Seq<char>, Seq<char>)>
    decreases rows.len(),
{
    if rows.len() == 0 {
        Seq::empty()
    } else {
        let before = installed_among(rows.drop_last(), hits);
        if hit_named(hits, rows.last().name@) {
            before.push((rows.last().name@, rows.last().version@))
        } else {
            before
        }
    }
}

/// The texts of a list of pairs.
pub open spec fn pairs(list: Seq<(String, String)>) -> Seq<(Seq<char>, Seq<char>)> {
    Seq::new(list.len(), |i: int| (list[i].0@, list[i].1@))
}

/// What a finished search changes at once, and what it asks for: hits are shown
/// only after a reload, because their marks state installation as a fact.
pub open spec fn search_finished(
    before: App,
    query: String,
    result: Result<Vec<Hit>, String>,
    after: App,
    flow: Flow,
) -> bool {
    match result {
        Ok(hits) => if hits@.len() == 0 {
            &&& after == (App { message: after.message, ..before })
            &&& after.says("no crates match `"@ + query@ + "`"@, MessageKind::Info)
            &&& flow is Done
        } else {
            after == before && flow == Flow::Reload(AfterReload::Search { query, hits })
        },
        Err(e) => {
            &&& after == (App { message: after.message, ..before })
            &&& after.says(e@, MessageKind::Error)
            &&& flow is Done
        },
    }
}

/// What a search with hits changes, reloaded. The hits are real, but marks from
/// a manifest that did not load would not be: the degraded message outranks
/// them.
pub open spec fn search_shown(
    before: App,
    query: String,
    hits: Vec<Hit>,
    read: PrefixRead,
    after: App,
) -> bool {
    &&& after.downgrade_choice is None
    &&& list_reread(before, read, after)
    &&& after == (App {
        message: after.message,
        search_result: after.search_result,
        downgrade_choice: None,
        rows: after.rows,
        report_age: after.report_age,
        selected: after.selected,
        manifest_error: after.manifest_error,
        ..before
    })
    &&& match read_answer(read.manifest) {
        Err(e) => after.search_result is None && after.says(
            "reload failed: "@ + e@,
            MessageKind::Error,
        ),
        Ok(ReloadOutcome::Degraded) => after.search_result is None && after.says(
            super::degraded_text(),
            MessageKind::Error,
        ),
        Ok(ReloadOutcome::Loaded) => {
            let n = decimal(hits@.len());
            &&& after.search_result matches Some(found) && found.query == query && found.hits
                == hits && pairs(found.installed@) == installed_among(after.rows@, hits@)
            &&& after.says(
                n + " hit(s); 1-"@ + n + " to install, Esc to dismiss"@,
                MessageKind::Info,
            )
        },
    }
}

/// Push the messages of findings.
fn push_messages(lines: &mut Vec<String>, findings: &Vec<Finding>)
    ensures
        texts(final(lines)@) == texts(old(lines)@) + messages(findings@),
{
    let ghost head = texts(lines@);
    let ghost all = messages(findings@);
    let mut i: usize = 0;
    assert(head + all.take(0) =~= head);
    while i < findings.len()
        invariant
            i <= findings.len(),
            all == messages(findings@),
            texts(lines@) == head + all.take(i as int),
        decreases findings.len() - i,
    {
        let ghost was = texts(lines@);
        lines.push(findings[i].message.clone());
        assert(texts(lines@) =~= was.push(all[i as int]));
        assert(head + all.take(i + 1) =~= was.push(all[i as int]));
        i = i + 1;
    }
    assert(all.take(i as int) =~= all);
}

/// Whether one of the hits has this name.
fn has_hit(hits: &Vec<Hit>, name: &str) -> (r: bool)
    ensures
        r == hit_named(hits@, name@),
{
    let mut i: usize = 0;
    while i < hits.len()
        invariant
            i <= hits.len(),
            forall|j: int| 0 <= j < i ==> (#[trigger] hits@[j]).name@ != name@,
        decreases hits.len() - i,
    {
        if same(hits[i].name.as_str(), name) {
            assert(hits@[i as int].name@ == name@);
            return true;
        }
        i = i + 1;
    }
    false
}

/// The manifest entries behind the rows.
pub open spec fn entries_of(rows: Seq<Row>, entries: Seq<(String, Entry)>) -> bool {
    &&& entries.len() == rows.len()
    &&& forall|i: int|
        0 <= i < rows.len() ==> {
            &&& (#[trigger] entries[i]).0 == rows[i].name
            &&& entries[i].1.version == rows[i].version
            &&& entries[i].1.bins@ == rows[i].bins@
            &&& entries[i].1.locked == rows[i].locked
            &&& entries[i].1.pinned == rows[i].pinned
            &&& entries[i].1.built_with_rustc == rows[i].built_with_rustc
        }
}

fn row_entries(rows: &Vec<Row>) -> (r: Vec<(String, Entry)>)
    ensures
        entries_of(rows@, r@),
{
    let mut out: Vec<(String, Entry)> = Vec::new();
    let mut i: usize = 0;
    while i < rows.len()
        invariant
            i <= rows.len(),
            out.len() == i,
            forall|j: int|
                0 <= j < i ==> {
                    &&& (#[trigger] out@[j]).0 == rows@[j].name
                    &&& out@[j].1.version == rows@[j].version
                    &&& out@[j].1.bins@ == rows@[j].bins@
                    &&& out@[j].1.locked == rows@[j].locked
                    &&& out@[j].1.pinned == rows@[j].pinned
                    &&& out@[j].1.built_with_rustc == rows@[j].built_with_rustc
                },
        decreases rows.len() - i,
    {
        let row = &rows[i];
        out.push(
            (
                row.name.clone(),
                Entry {
                    version: row.version.clone(),
                    bins: copied(&row.bins),
                    locked: row.locked,
                    pinned: row.pinned,
                    built_with_rustc: match &row.built_with_rustc {
                        Some(rustc) => Some(rustc.clone()),
                        None => None,
                    },
                },
            ),
        );
        i = i + 1;
    }
    out
}

/// The plan of an update sweep.
fn plan_updates(rows: &Vec<Row>) -> (r: Vec<PlannedUpdate>)
    ensures
        planned_view(r@) == update_plan_of(rows@),
{
    let mut out: Vec<PlannedUpdate> = Vec::new();
    let mut i: usize = 0;
    assert(planned_view(out@) =~= update_plan_of(rows@.take(0)));
    while i < rows.len()
        invariant
            i <= rows.len(),
            planned_view(out@) == update_plan_of(rows@.take(i as int)),
        decreases rows.len() - i,
    {
        let row = &rows[i];
        let ghost before = planned_view(out@);
        assert(rows@.take(i + 1).drop_last() =~= rows@.take(i as int));
        assert(rows@.take(i + 1).last() == row);
        match &row.status {
            RowStatus::Outdated(latest) => {
                if !row.pinned {
                    out.push(
                        PlannedUpdate {
                            name: row.name.clone(),
                            current: row.version.clone(),
                            latest: latest.clone(),
                        },
                    );
                    assert(planned_view(out@) =~= before.push(
                        (row.name@, row.version@, latest@),
                    ));
                }
            },
            _ => {},
        }
        i = i + 1;
    }
    assert(rows@.take(i as int) =~= rows@);
    out
}

/// A plan's lines.
fn plan_lines(planned: &Vec<PlannedUpdate>) -> (r: Vec<String>)
    ensures
        texts(r@) == update_lines(planned_view(planned@)),
{
    let ghost all = update_lines(planned_view(planned@));
    let mut out: Vec<String> = Vec::new();
    let mut i: usize = 0;
    assert(texts(out@) =~= all.take(0));
    while i < planned.len()
        invariant
            i <= planned.len(),
            all == update_lines(planned_view(planned@)),
            texts(out@) == all.take(i as int),
        decreases planned.len() - i,
    {
        let ghost was = texts(out@);
        let p = &planned[i];
        out.push(
            sanitize(
                cat5(
                    p.name.as_str(),
                    " ",
                    p.current.as_str(),
                    " -> ",
                    p.latest.as_str(),
                ).as_str(),
            ),
        );
        assert(planned_view(planned@)[i as int] == (p.name@, p.current@, p.latest@));
        assert(texts(out@) =~= was.push(all[i as int]));
        assert(all.take(i + 1) =~= all.take(i as int).push(all[i as int]));
        i = i + 1;
    }
    assert(all.take(i as int) =~= all);
    out
}

/// The plan of an update sweep is exactly what the Updates view shows: as many
/// crates, and none of them pinned.
pub proof fn law_sweeps_plan_what_updates_shows(rows: Seq<Row>)
    ensures
        update_plan_of(rows).len() == shown(rows, Filter::Updates).len(),
        forall|i: int|
            0 <= i < update_plan_of(rows).len() ==> {
                let row = shown(rows, Filter::Updates)[i];
                &&& (#[trigger] update_plan_of(rows)[i]).0 == row.name@
                &&& update_plan_of(rows)[i].1 == row.version@
                &&& row.status matches RowStatus::Outdated(latest) && update_plan_of(rows)[i].2
                    == latest@
                &&& !row.pinned
            },
    decreases rows.len(),
{
    if rows.len() > 0 {
        let front = rows.drop_last();
        law_sweeps_plan_what_updates_shows(front);
        assert forall|i: int| 0 <= i < update_plan_of(rows).len() implies {
            let row = shown(rows, Filter::Updates)[i];
            &&& (#[trigger] update_plan_of(rows)[i]).0 == row.name@
            &&& update_plan_of(rows)[i].1 == row.version@
            &&& row.status matches RowStatus::Outdated(latest) && update_plan_of(rows)[i].2
                == latest@
            &&& !row.pinned
        } by {
            if i < update_plan_of(front).len() {
                assert(update_plan_of(rows)[i] == update_plan_of(front)[i]);
                assert(shown(rows, Filter::Updates)[i] == shown(front, Filter::Updates)[i]);
            }
        }
    }
}

/// An offer names as many versions as a digit can pick, and what it leaves out
/// is counted: shown and counted make up everything that was found.
pub proof fn law_offers_are_complete(
    before: App,
    name: String,
    current: String,
    candidates: Seq<Version>,
    after: App,
)
    requires
        candidates.len() > 0,
        downgrade_offered(before, name, current, candidates, after),
    ensures
        after.downgrade_choice->0.versions@.len() <= 9,
        after.downgrade_choice->0.versions@.len() + after.downgrade_choice->0.older
            == candidates.len(),
{
}

impl App {
    /// The CLI's severity split in the interface's shape.
    pub fn finish_verify(&mut self, result: Result<VerifyReport, String>)
        ensures
            verify_finished(*old(self), result, *final(self)),
    {
        let report = match result {
            Ok(report) => report,
            Err(e) => {
                self.error(cat("verify failed: ", e.as_str()).as_str());
                return ;
            },
        };
        let crates: usize = match report.crates {
            Some(crates) => crates,
            None => 0,
        };
        if report.errors.len() == 0 && report.warnings.len() == 0 {
            self.info(
                cat3("verify: ok — ", count_of(crates).as_str(), " managed crate(s)").as_str(),
            );
            return ;
        }
        let failed = report.errors.len() > 0;
        let errors = count_of(report.errors.len());
        let warnings = count_of(report.warnings.len());
        let mut lines: Vec<String> = Vec::new();
        push_messages(&mut lines, &report.errors);
        assert(texts(lines@) =~= messages(report.errors@));
        if report.warnings.len() > 0 {
            space(&mut lines);
            let ghost head = texts(lines@).push("warnings:"@);
            lines.push("warnings:".to_owned());
            assert(texts(lines@) =~= head);
            push_messages(&mut lines, &report.warnings);
        }
        let title = if failed {
            cat5(
                "verify: ",
                errors.as_str(),
                " verification error(s), ",
                warnings.as_str(),
                " warning(s)",
            )
        } else {
            cat3("verify: ", warnings.as_str(), " warning(s)")
        };
        self.pin_report(BuildReport { title, lines, failed });
        if failed {
            let head = match report.crates {
                Some(crates) => cat3("verify: ", count_of(crates).as_str(), " crate(s), "),
                None => "verify: ".to_owned(),
            };
            self.error(
                cat3(
                    head.as_str(),
                    errors.as_str(),
                    " error(s) — details in the panel; Esc/Enter dismisses",
                ).as_str(),
            );
        } else {
            self.warn(
                cat5(
                    "verify: ",
                    count_of(crates).as_str(),
                    " crate(s) ok, ",
                    warnings.as_str(),
                    " warning(s) in the panel; Esc/Enter dismisses",
                ).as_str(),
            );
        }
    }

    /// The update check answered.
    pub fn finish_check(&mut self, result: Result<Option<Vec<Checked>>, String>, sweep: bool) -> (r:
        Flow)
        ensures
            check_finished(*old(self), result, sweep, *final(self), r),
    {
        match result {
            Ok(None) => {
                self.info("update check cancelled");
                Flow::Done
            },
            Ok(Some(checked)) => Flow::Record { checked, sweep },
            Err(e) => {
                self.error(cat("update check failed: ", e.as_str()).as_str());
                Flow::Done
            },
        }
    }

    /// The update check is recorded: shown, told, and for a sweep turned into a
    /// plan.
    pub fn check_recorded(&mut self, sweep: bool, recorded: Recorded)
        ensures
            check_recorded_as(*old(self), sweep, recorded, *final(self)),
    {
        match recorded {
            Recorded::Failed(e) => {
                self.error(cat("update check failed: ", e.as_str()).as_str());
            },
            Recorded::Made { report, persisted, manifest } => {
                match self.apply_report(manifest, Some(&report)) {
                    Err(e) => {
                        self.error(cat("reload failed: ", e.as_str()).as_str());
                        return ;
                    },
                    Ok(ReloadOutcome::Degraded) => {
                        return ;
                    },
                    Ok(ReloadOutcome::Loaded) => {},
                }
                let n = self.updates_available();
                let held = self.pinned_outdated();
                let summary = if held > 0 {
                    cat4(
                        count_of(n).as_str(),
                        " update(s) available; ",
                        count_of(held).as_str(),
                        " pinned held back",
                    )
                } else {
                    cat(count_of(n).as_str(), " update(s) available")
                };
                match &persisted {
                    Ok(()) => self.info(cat("checked: ", summary.as_str()).as_str()),
                    Err(e) => self.warn(
                        cat4(
                            "checked: ",
                            summary.as_str(),
                            "; report not saved: ",
                            e.as_str(),
                        ).as_str(),
                    ),
                }
                if sweep {
                    self.plan_sweep(held);
                }
            },
        }
    }

    /// What a fresh report offers to update: nothing to do, or a plan to read
    /// and answer.
    fn plan_sweep(&mut self, held: usize)
        requires
            held == tally(Tally::PinnedOutdated, old(self).rows@),
        ensures
            sweep_planned(old(self).rows@, *old(self), *final(self)),
            if update_plan_of(old(self).rows@).len() == 0 && held > 0 {
                final(self).says(
                    "nothing to update; "@ + decimal(held as nat) + " pinned crate(s) held back"@,
                    MessageKind::Info,
                )
            } else {
                final(self).message == old(self).message
            },
            *final(self) == (App {
                message: final(self).message,
                build_report: final(self).build_report,
                report_scroll: final(self).report_scroll,
                confirm: final(self).confirm,
                ..*old(self)
            }),
    {
        let planned = plan_updates(&self.rows);
        if planned.len() == 0 {
            if held > 0 {
                self.info(
                    cat3(
                        "nothing to update; ",
                        count_of(held).as_str(),
                        " pinned crate(s) held back",
                    ).as_str(),
                );
            }
            return ;
        }
        let lines = plan_lines(&planned);
        let n = count_of(planned.len());
        let prompt = cat3("update ", n.as_str(), " crate(s)? [y/N]");
        let backlog = if held > 0 {
            cat3(" (", count_of(held).as_str(), " pinned held back)")
        } else {
            String::new()
        };
        self.pin_report(
            BuildReport {
                title: cat4("update plan: ", n.as_str(), " crate(s)", backlog.as_str()),
                lines,
                failed: false,
            },
        );
        self.confirm = Some(Confirm::new(prompt.as_str(), OnConfirm::UpdateAll { planned }));
    }

    /// The prefix read: nothing to do, or a question naming the whole set the
    /// sweep will touch.
    pub fn finish_reinstall_plan(&mut self, planned: Vec<(String, ReinstallPlan)>)
        ensures
            rebuild_planned(*old(self), planned, *final(self)),
    {
        if planned.len() == 0 {
            self.info(cat("nothing installed under ", self.prefix.as_str()).as_str());
            return ;
        }
        let ghost all = rebuild_lines(planned@);
        let mut lines: Vec<String> = Vec::new();
        let mut i: usize = 0;
        assert(texts(lines@) =~= all.take(0));
        while i < planned.len()
            invariant
                i <= planned.len(),
                all == rebuild_lines(planned@),
                texts(lines@) == all.take(i as int),
            decreases planned.len() - i,
        {
            let ghost was = texts(lines@);
            let plan = &planned[i].1;
            let pinned = if plan.pinned {
                " [pinned]".to_owned()
            } else {
                String::new()
            };
            let locked = if plan.locked {
                " [locked]".to_owned()
            } else {
                String::new()
            };
            lines.push(
                sanitize(
                    cat5(
                        planned[i].0.as_str(),
                        " ",
                        plan.version.as_str(),
                        pinned.as_str(),
                        locked.as_str(),
                    ).as_str(),
                ),
            );
            assert(texts(lines@) =~= was.push(all[i as int]));
            assert(all.take(i + 1) =~= all.take(i as int).push(all[i as int]));
            i = i + 1;
        }
        assert(all.take(i as int) =~= all);
        let n = count_of(planned.len());
        let prompt = cat5(
            "rebuild all ",
            n.as_str(),
            " managed crate(s) under ",
            self.prefix.as_str(),
            "? [y/N]",
        );
        self.pin_report(
            BuildReport {
                title: cat3("rebuild plan: ", n.as_str(), " crate(s)"),
                lines,
                failed: false,
            },
        );
        self.confirm = Some(Confirm::new(prompt.as_str(), OnConfirm::ReinstallAll { planned }));
    }

    /// The lookup answered.
    pub fn finish_update_plan(&mut self, name: String, plan: UpdatePlan)
        ensures
            update_planned(*old(self), name, plan, *final(self)),
    {
        match plan {
            UpdatePlan::UpToDate { current } => {
                self.info(
                    cat4(name.as_str(), " ", current.as_str(), " is up to date").as_str(),
                );
            },
            UpdatePlan::Outdated { current, latest } => {
                let mut prompt = cat6(
                    "update ",
                    name.as_str(),
                    " ",
                    current.as_str(),
                    " -> ",
                    latest.as_str(),
                );
                prompt.append("? [y/N]");
                self.confirm = Some(
                    Confirm::new(prompt.as_str(), OnConfirm::Update { name, expected: current }),
                );
            },
        }
    }

    /// The offer, or the reason there is none.
    pub fn finish_downgrade(&mut self, name: String, current: String, candidates: Vec<Version>)
        ensures
            downgrade_offered(*old(self), name, current, candidates@, *final(self)),
    {
        if candidates.len() == 0 {
            self.info(
                cat4(
                    name.as_str(),
                    " ",
                    current.as_str(),
                    " is installed; no older version to go back to",
                ).as_str(),
            );
            return ;
        }
        let older: usize = if candidates.len() <= DOWNGRADE_CHOICES {
            0
        } else {
            candidates.len() - DOWNGRADE_CHOICES
        };
        let ghost all = candidates@;
        let mut versions = candidates;
        if versions.len() > DOWNGRADE_CHOICES {
            versions.truncate(DOWNGRADE_CHOICES);
        }
        assert(versions@ =~= all.take(least(all.len(), DOWNGRADE_CHOICES as nat) as int));
        let n = versions.len();
        self.downgrade_choice = Some(DowngradeChoice { name, current, versions, older });
        self.info(cat3("1-", count_of(n).as_str(), " installs, Esc dismisses").as_str());
    }

    /// The search answered.
    pub fn finish_search(&mut self, query: String, result: Result<Vec<Hit>, String>) -> (r: Flow)
        ensures
            search_finished(*old(self), query, result, *final(self), r),
    {
        match result {
            Ok(hits) => if hits.len() == 0 {
                self.info(cat3("no crates match `", query.as_str(), "`").as_str());
                Flow::Done
            } else {
                Flow::Reload(AfterReload::Search { query, hits })
            },
            Err(e) => {
                self.error(e.as_str());
                Flow::Done
            },
        }
    }

    /// The hits, with their installed marks read from the manifest now.
    pub fn search_reloaded(&mut self, query: String, hits: Vec<Hit>, read: PrefixRead)
        ensures
            search_shown(*old(self), query, hits, read, *final(self)),
    {
        match self.reload(read) {
            Err(e) => {
                self.error(cat("reload failed: ", e.as_str()).as_str());
                return ;
            },
            Ok(ReloadOutcome::Degraded) => {
                return ;
            },
            Ok(ReloadOutcome::Loaded) => {},
        }
        let mut installed: Vec<(String, String)> = Vec::new();
        let mut i: usize = 0;
        assert(pairs(installed@) =~= installed_among(self.rows@.take(0), hits@));
        while i < self.rows.len()
            invariant
                i <= self.rows.len(),
                pairs(installed@) == installed_among(self.rows@.take(i as int), hits@),
            decreases self.rows.len() - i,
        {
            let row = &self.rows[i];
            let ghost before = pairs(installed@);
            assert(self.rows@.take(i + 1).drop_last() =~= self.rows@.take(i as int));
            assert(self.rows@.take(i + 1).last() == row);
            if has_hit(&hits, row.name.as_str()) {
                installed.push((row.name.clone(), row.version.clone()));
                assert(pairs(installed@) =~= before.push((row.name@, row.version@)));
            }
            i = i + 1;
        }
        assert(self.rows@.take(i as int) =~= self.rows@);
        let n = count_of(hits.len());
        self.search_result = Some(SearchResult { query, hits, installed });
        self.info(
            cat4(n.as_str(), " hit(s); 1-", n.as_str(), " to install, Esc to dismiss").as_str(),
        );
    }
}

/// What a request that is refused changes: only what the footer says.
pub open spec fn refused_with(before: App, text: Seq<char>, after: App, flow: Flow) -> bool {
    &&& after == (App { message: after.message, ..before })
    &&& after.says(text, MessageKind::Error)
    &&& flow is Done
}

/// What starting an audit changes: a fresh audit supersedes whatever report was
/// up, and the panel shows one thing at a time.
pub open spec fn verify_started(before: App, now: u64, after: App, flow: Flow) -> bool {
    if before.job is Some {
        refused_with(before, "busy; wait for the current operation to finish"@, after, flow)
    } else {
        &&& after == (App {
            build_report: None,
            downgrade_choice: None,
            job: Some(Job::Verify { started: now, cancel: false }),
            ..before
        })
        &&& flow == Flow::Start(Work::Verify)
    }
}

/// What asking for an update check changes.
pub open spec fn check_started(before: App, after: App, flow: Flow) -> bool {
    if before.job is Some {
        refused_with(before, "busy; wait for the current lookup to finish"@, after, flow)
    } else {
        after == before && flow == Flow::Reload(AfterReload::Check)
    }
}

/// What an update check that was asked for changes, reloaded. Degraded is not
/// "nothing installed": the count is unknown.
pub open spec fn check_begun(before: App, read: PrefixRead, after: App, flow: Flow) -> bool {
    &&& relisted(before, read, after)
    &&& after == (App {
        message: after.message,
        job: after.job,
        search_result: None,
        downgrade_choice: None,
        rows: after.rows,
        report_age: after.report_age,
        selected: after.selected,
        manifest_error: after.manifest_error,
        ..before
    })
    &&& match read_answer(read.manifest) {
        Err(e) => {
            &&& after.says("reload failed: "@ + e@, MessageKind::Error)
            &&& after.job == before.job
            &&& flow is Done
        },
        Ok(ReloadOutcome::Degraded) => {
            &&& after.says(super::degraded_text(), MessageKind::Error)
            &&& after.job == before.job
            &&& flow is Done
        },
        Ok(ReloadOutcome::Loaded) => if after.rows@.len() == 0 {
            &&& after.says("nothing installed; nothing to check"@, MessageKind::Info)
            &&& after.job == before.job
            &&& flow is Done
        } else {
            &&& after.message is None
            &&& after.job == Some(Job::Check { cancel: false })
            &&& flow matches Flow::Start(Work::Check { entries }) && entries_of(
                after.rows@,
                entries@,
            )
        },
    }
}

/// What asking for a rebuild of the selected crate changes: the request carries
/// a bare name, because version, pin and `--locked` are read by the worker under
/// the lock that commits them.
pub open spec fn reinstall_asked(before: App, after: App, flow: Flow) -> bool {
    if before.occupied() {
        refused_with(before, "busy; wait for the current job to finish"@, after, flow)
    } else {
        &&& flow is Done
        &&& match before.chosen() {
            None => after == before,
            Some(row) => {
                &&& after == (App {
                    message: after.message,
                    pending_build: Some(
                        PendingBuild {
                            spec: row.name,
                            locked: false,
                            intent: BuildIntent::Reinstall,
                        },
                    ),
                    ..before
                })
                &&& after.says("rebuilding "@ + row.name@ + " as installed"@, MessageKind::Info)
            },
        }
    }
}

/// What starting a one-shot that plans changes: the slot is taken, and what the
/// panel and the footer said is gone.
pub open spec fn planning_started(before: App, job: Job, after: App) -> bool {
    after == (App {
        search_result: None,
        downgrade_choice: None,
        message: None,
        job: Some(job),
        ..before
    })
}

/// What starting an update of everything changes.
pub open spec fn update_sweep_started(before: App, after: App, flow: Flow) -> bool {
    if before.occupied() {
        refused_with(before, "busy; wait for the current job to finish"@, after, flow)
    } else {
        &&& planning_started(before, Job::UpdateSweepCheck { cancel: false }, after)
        &&& flow == Flow::Start(Work::UpdateSweepCheck)
    }
}

/// What starting a rebuild of everything changes.
pub open spec fn reinstall_sweep_started(before: App, after: App, flow: Flow) -> bool {
    if before.occupied() {
        refused_with(before, "busy; wait for the current job to finish"@, after, flow)
    } else {
        &&& planning_started(before, Job::ReinstallPlan { cancel: false }, after)
        &&& flow == Flow::Start(Work::ReinstallPlan)
    }
}

/// What starting an update of the selected crate changes.
pub open spec fn update_started(before: App, after: App, flow: Flow) -> bool {
    if before.occupied() {
        refused_with(before, "busy; wait for the current job to finish"@, after, flow)
    } else {
        match before.chosen() {
            None => after == before && flow is Done,
            Some(row) => {
                &&& planning_started(
                    before,
                    Job::UpdatePlan { name: row.name, cancel: false },
                    after,
                )
                &&& flow == Flow::Start(Work::UpdatePlan { name: row.name })
            },
        }
    }
}

/// What starting a downgrade of the selected crate changes. A pinned crate is
/// offered the list like any other: an exact version is how a pin is restated.
pub open spec fn downgrade_started(before: App, after: App, flow: Flow) -> bool {
    if before.occupied() {
        refused_with(before, "busy; wait for the current job to finish"@, after, flow)
    } else {
        match before.chosen() {
            None => after == before && flow is Done,
            Some(row) => if !is_semver(row.version@) {
                refused_with(before, unparsable_version(row.name@), after, flow)
            } else {
                &&& planning_started(
                    before,
                    Job::Downgrade { name: row.name, current: row.version, cancel: false },
                    after,
                )
                &&& flow matches Flow::Start(Work::Downgrade { name, current }) && name == row.name
                    && current@ == row.version@
            },
        }
    }
}

/// What answering an offer changes: an install of that exact version is queued,
/// with the version the offer was computed against as its premise. The
/// single-flight rule is checked here too, because an offer can outlive the
/// lookup that produced it.
pub open spec fn downgrade_picked(before: App, index: int, after: App, flow: Flow) -> bool {
    if before.occupied() {
        refused_with(before, "busy; wait for the current job to finish"@, after, flow)
    } else {
        &&& flow is Done
        &&& if before.downgrade_choice is Some && index
            < before.downgrade_choice->0.versions@.len() {
            let choice = before.downgrade_choice->0;
            let version = choice.versions@[index];
            &&& after == (App {
                message: after.message,
                downgrade_choice: None,
                pending_build: after.pending_build,
                ..before
            })
            &&& after.says(
                "downgrading "@ + choice.name@ + " "@ + choice.current@ + " -> "@ + version@,
                MessageKind::Info,
            )
            &&& after.pending_build matches Some(build) && build.spec@ == choice.name@ + "@"@
                + version@ && !build.locked && build.intent == BuildIntent::Downgrade(
                choice.current,
            )
        } else {
            after == before
        }
    }
}

/// What starting a search changes: a failed search must not leave the previous
/// query's hits under a footer about a different one.
pub open spec fn search_started(before: App, query: Seq<char>, after: App, flow: Flow) -> bool {
    &&& after == (App {
        search_result: None,
        downgrade_choice: None,
        message: None,
        job: after.job,
        ..before
    })
    &&& after.job matches Some(Job::Search { query: q, cancel }) && q@ == query && !cancel
    &&& flow matches Flow::Start(Work::Search { query: q }) && q@ == query
}

impl App {
    /// The read-only audit on a worker.
    pub fn start_verify(&mut self, now: u64) -> (r: Flow)
        ensures
            verify_started(*old(self), now, *final(self), r),
    {
        if self.job.is_some() {
            self.error("busy; wait for the current operation to finish");
            return Flow::Done;
        }
        self.build_report = None;
        self.downgrade_choice = None;
        self.job = Some(Job::Verify { started: now, cancel: false });
        Flow::Start(Work::Verify)
    }

    /// The update check: the prefix is read first.
    pub fn start_check(&mut self) -> (r: Flow)
        ensures
            check_started(*old(self), *final(self), r),
    {
        if self.job.is_some() {
            self.error("busy; wait for the current lookup to finish");
            return Flow::Done;
        }
        Flow::Reload(AfterReload::Check)
    }

    /// The update check on a worker, over the entries just read.
    pub fn check_reloaded(&mut self, read: PrefixRead) -> (r: Flow)
        ensures
            check_begun(*old(self), read, *final(self), r),
    {
        match self.reload(read) {
            Err(e) => {
                self.error(cat("reload failed: ", e.as_str()).as_str());
                return Flow::Done;
            },
            Ok(ReloadOutcome::Degraded) => {
                return Flow::Done;
            },
            Ok(ReloadOutcome::Loaded) => {},
        }
        if self.rows.len() == 0 {
            self.info("nothing installed; nothing to check");
            return Flow::Done;
        }
        let entries = row_entries(&self.rows);
        self.job = Some(Job::Check { cancel: false });
        self.message = None;
        Flow::Start(Work::Check { entries })
    }

    /// Rebuild the selected crate from its own entry.
    pub fn start_reinstall(&mut self) -> (r: Flow)
        ensures
            reinstall_asked(*old(self), *final(self), r),
    {
        if self.anything_running() {
            self.error("busy; wait for the current job to finish");
            return Flow::Done;
        }
        match self.selected_name() {
            None => {},
            Some(name) => {
                self.info(cat3("rebuilding ", name.as_str(), " as installed").as_str());
                self.pending_build = Some(
                    PendingBuild { spec: name, locked: false, intent: BuildIntent::Reinstall },
                );
            },
        }
        Flow::Done
    }

    /// Ask the registry about every entry, then ask the person about what can be
    /// updated.
    pub fn start_update_sweep(&mut self) -> (r: Flow)
        ensures
            update_sweep_started(*old(self), *final(self), r),
    {
        if self.anything_running() {
            self.error("busy; wait for the current job to finish");
            return Flow::Done;
        }
        self.search_result = None;
        self.downgrade_choice = None;
        self.job = Some(Job::UpdateSweepCheck { cancel: false });
        self.message = None;
        Flow::Start(Work::UpdateSweepCheck)
    }

    /// Read what is installed here, then ask about rebuilding it.
    pub fn start_reinstall_sweep(&mut self) -> (r: Flow)
        ensures
            reinstall_sweep_started(*old(self), *final(self), r),
    {
        if self.anything_running() {
            self.error("busy; wait for the current job to finish");
            return Flow::Done;
        }
        self.search_result = None;
        self.downgrade_choice = None;
        self.job = Some(Job::ReinstallPlan { cancel: false });
        self.message = None;
        Flow::Start(Work::ReinstallPlan)
    }

    /// Plan the update against the registry, then ask. Not against the row: that
    /// is the last recorded check, and an update is worth planning against what
    /// the registry says now.
    pub fn start_update(&mut self) -> (r: Flow)
        ensures
            update_started(*old(self), *final(self), r),
    {
        if self.anything_running() {
            self.error("busy; wait for the current job to finish");
            return Flow::Done;
        }
        let name = match self.selected_name() {
            None => {
                return Flow::Done;
            },
            Some(name) => name,
        };
        self.search_result = None;
        self.downgrade_choice = None;
        self.job = Some(Job::UpdatePlan { name: name.clone(), cancel: false });
        self.message = None;
        Flow::Start(Work::UpdatePlan { name })
    }

    /// Ask the index which older versions exist for the selected crate. Read-only
    /// and cancellable: the mutation is the build that a chosen version starts.
    pub fn start_downgrade(&mut self) -> (r: Flow)
        ensures
            downgrade_started(*old(self), *final(self), r),
    {
        if self.anything_running() {
            self.error("busy; wait for the current job to finish");
            return Flow::Done;
        }
        let (name, current) = match self.selected_row() {
            None => {
                return Flow::Done;
            },
            Some(row) => (row.name.clone(), row.version.clone()),
        };
        let parsed = match Version::parse(current.as_str()) {
            Ok(parsed) => parsed,
            Err(_) => {
                self.error(
                    cat3(
                        "manifest holds unparsable version for `",
                        name.as_str(),
                        "`; verify says more",
                    ).as_str(),
                );
                return Flow::Done;
            },
        };
        self.search_result = None;
        self.downgrade_choice = None;
        self.job = Some(Job::Downgrade { name: name.clone(), current, cancel: false });
        self.message = None;
        Flow::Start(Work::Downgrade { name, current: parsed })
    }

    /// The offer answered: install that exact version, in the panel.
    pub fn pick_downgrade(&mut self, index: usize) -> (r: Flow)
        ensures
            downgrade_picked(*old(self), index as int, *final(self), r),
    {
        if self.anything_running() {
            self.error("busy; wait for the current job to finish");
            return Flow::Done;
        }
        let (said, spec, current) = match &self.downgrade_choice {
            None => {
                return Flow::Done;
            },
            Some(choice) => {
                if index >= choice.versions.len() {
                    return Flow::Done;
                }
                let version = &choice.versions[index];
                (
                    cat6(
                        "downgrading ",
                        choice.name.as_str(),
                        " ",
                        choice.current.as_str(),
                        " -> ",
                        version.as_str(),
                    ),
                    cat3(choice.name.as_str(), "@", version.as_str()),
                    choice.current.clone(),
                )
            },
        };
        self.downgrade_choice = None;
        self.info(said.as_str());
        self.pending_build = Some(
            PendingBuild { spec, locked: false, intent: BuildIntent::Downgrade(current) },
        );
        Flow::Done
    }

    /// Search the registry on a worker.
    pub fn start_search(&mut self, query: String) -> (r: Flow)
        ensures
            search_started(*old(self), query@, *final(self), r),
    {
        self.search_result = None;
        self.downgrade_choice = None;
        self.job = Some(Job::Search { query: query.clone(), cancel: false });
        self.message = None;
        Flow::Start(Work::Search { query })
    }
}

} // verus!
