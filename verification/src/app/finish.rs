//! How builds and batches end: what is told, what is pinned, what comes next.
use super::{
    read_answer, reload_says, relisted, App, AfterReload, BatchClose, Finished, Flow, PrefixRead,
};
use crate::batch::{
    accounted, closing_lines, declared, failure_lines, failure_of, filed, filed_one, left_over,
    left_over_text, lemma_slots_stay, none_filed, processed, slot, space, spaced, BatchRunner,
    BatchShape, InstallBatch, InstallSection, MigrateBatch, MigrateSection,
};
use crate::decimal::{count_of, decimal};
use crate::job::{BuildError, BuildKind, BuildOutcome};

use crate::state::{AuthPurpose, BuildReport, MessageKind, PendingMigrate, ReloadOutcome};
use crate::text::{
    cat, cat3, cat4, cat5, cat6, copied, sanitize, sanitized, stands_at, starts_with, texts,
};
use std::collections::VecDeque;
use vstd::prelude::*;

verus! {

/// What a panel's summary line ends with.
pub open spec fn in_the_panel(summary: Seq<char>) -> Seq<char> {
    summary + " — details in the panel; Esc/Enter dismisses"@
}

/// The line about a reload that failed beside something else.
pub open spec fn reload_failed(e: Seq<char>) -> Seq<char> {
    sanitized("(and the list reload failed: "@ + e + ")"@)
}

/// The error of a read, as a panel's last lines: set apart by an empty line.
pub open spec fn with_reload_error(lines: Seq<Seq<char>>, read: PrefixRead) -> Seq<Seq<char>> {
    match read_answer(read.manifest) {
        Ok(_) => lines,
        Err(e) => lines.push(Seq::empty()).push(reload_failed(e@)),
    }
}

/// The last line that tells of an installed crate.
pub open spec fn installed_line(tail: Seq<Seq<char>>) -> Option<Seq<char>>
    decreases tail.len(),
{
    if tail.len() == 0 {
        None
    } else if stands_at(tail.last(), "installed "@, 0) {
        Some(tail.last())
    } else {
        installed_line(tail.drop_last())
    }
}

/// What is said of a build that ended well: the pipeline's own words where it
/// left any, and for a migration the version that the destination committed,
/// never the frozen plan's.
pub open spec fn success_note(fin: Finished) -> Seq<char> {
    match fin.kind {
        BuildKind::Migrate(target) => match fin.outcome {
            BuildOutcome::Migrated(installed) => "migrated "@ + fin.name@ + " "@ + installed@
                + " to "@ + target.dest@,
            _ => "migrated "@ + fin.name@ + " to "@ + target.dest@,
        },
        _ => match installed_line(texts(fin.tail@)) {
            Some(line) => line,
            None => fin.kind.word() + " "@ + fin.name@ + " finished"@,
        },
    }
}

/// What a finished single build leaves in the panel and in the footer, beside
/// the reloaded list.
pub open spec fn build_told(before: App, fin: Finished, read: PrefixRead, after: App) -> bool {
    let verb = fin.kind.word();
    let warnings = texts(fin.warnings@);
    match fin.outcome {
        BuildOutcome::CompletedWithWarning(reason) => {
            let said = if warnings.len() == 0 {
                seq![sanitized(reason@)]
            } else {
                seq![sanitized(reason@), Seq::empty()] + warnings
            };
            &&& after.pins(
                verb + " "@ + fin.name@ + ": completed with a warning"@,
                with_reload_error(said, read),
                false,
            )
            &&& after.says(
                verb + " "@ + fin.name@
                    + " finished with a warning — details in the panel; Esc/Enter dismisses"@,
                MessageKind::Warning,
            )
        },
        BuildOutcome::Failed(e) => {
            let said = failure_of(e.text(), texts(fin.tail@));
            &&& after.pins(
                verb + " "@ + fin.name@ + " failed"@,
                match read_answer(read.manifest) {
                    Ok(_) => said,
                    Err(re) => said.push(reload_failed(re@)),
                },
                true,
            )
            &&& after.says(
                verb + " "@ + fin.name@ + " failed — details in the panel; Esc/Enter dismisses"@,
                MessageKind::Error,
            )
        },
        _ => if warnings.len() == 0 {
            &&& after.build_report == before.build_report
            &&& after.report_scroll == before.report_scroll
            &&& match read_answer(read.manifest) {
                Ok(_) => after.says(success_note(fin), MessageKind::Info),
                Err(e) => after.says(
                    success_note(fin) + " — but reload failed: "@ + e@,
                    MessageKind::Error,
                ),
            }
        } else {
            &&& after.pins(
                verb + " "@ + fin.name@ + ": warnings"@,
                with_reload_error(warnings, read),
                false,
            )
            &&& after.says(
                success_note(fin) + " — with warnings in the panel; Esc/Enter dismisses"@,
                MessageKind::Warning,
            )
        },
    }
}

/// Lines under the plan's own heading, after what stands already.
pub open spec fn with_plan(lines: Seq<Seq<char>>, block: Seq<Seq<char>>) -> Seq<Seq<char>> {
    spaced(lines).push("the plan:"@) + Seq::new(
        block.len(),
        |i: int| sanitized("  "@ + block[i]),
    )
}

/// The panel of a batch: the members' sections, then anything that belongs to
/// the plan rather than to any of them, under a heading that says so.
pub open spec fn batch_lines(
    sections: Seq<Seq<char>>,
    plan_failure: Option<Seq<Seq<char>>>,
    plan_warnings: Seq<Seq<char>>,
) -> Seq<Seq<char>> {
    let failed = match plan_failure {
        Some(block) => with_plan(sections, block),
        None => sections,
    };
    if plan_warnings.len() > 0 {
        with_plan(failed, plan_warnings)
    } else {
        failed
    }
}

/// The lines of an optional block.
pub open spec fn block_view(block: Option<Vec<String>>) -> Option<Seq<Seq<char>>> {
    match block {
        Some(lines) => Some(texts(lines@)),
        None => None,
    }
}

/// What a member still in flight when the worker returned files: its own lines,
/// under its own name.
pub open spec fn last_filing(
    outcome: BuildOutcome,
    warnings: Seq<Seq<char>>,
    tail: Seq<Seq<char>>,
) -> Option<(InstallSection, Seq<Seq<char>>)> {
    match outcome {
        BuildOutcome::Failed(e) => Some((InstallSection::Failed, failure_of(e.text(), tail))),
        BuildOutcome::CompletedWithWarning(reason) => Some(
            (InstallSection::Failed, seq![sanitized(reason@)]),
        ),
        _ => if warnings.len() > 0 {
            Some((InstallSection::Noticed, warnings))
        } else {
            None
        },
    }
}

/// Whether `close` is the batch once its worker returned. A failure with no
/// member in flight is the operation's, not anyone's, and with nobody building
/// whatever is still in hand was said about the plan.
pub open spec fn closes(
    batch: InstallBatch,
    outcome: BuildOutcome,
    tail: Seq<Seq<char>>,
    warnings: Seq<String>,
    close: BatchClose,
) -> bool {
    let runner = close.batch.runner;
    &&& close.batch == (InstallBatch {
        runner,
        plan_warnings: close.batch.plan_warnings,
        ..batch
    })
    &&& close.cancelled == (outcome is Cancelled)
    &&& match batch.current {
        None => {
            &&& block_view(close.plan_failure) == match outcome {
                BuildOutcome::Failed(e) => Some(failure_of(e.text(), tail)),
                BuildOutcome::CompletedWithWarning(reason) => Some(seq![sanitized(reason@)]),
                _ => None,
            }
            &&& close.batch.plan_warnings@ == batch.plan_warnings@ + warnings
            &&& runner == batch.runner
        },
        Some(name) => {
            &&& close.plan_failure is None
            &&& close.batch.plan_warnings@ == batch.plan_warnings@
            &&& runner == (BatchRunner { sections: runner.sections, ..batch.runner })
            &&& match last_filing(outcome, texts(warnings), tail) {
                Some((key, lines)) => filed_one(
                    batch.runner.sections@,
                    runner.sections@,
                    key,
                    name@,
                    lines,
                ),
                None => runner.sections == batch.runner.sections,
            }
        },
    }
}

/// How a batch stopped, if it did. A sweep asked about every member; what did
/// not install is counted there, not a place where the run stopped.
pub open spec fn stop_words(close: BatchClose) -> Option<Seq<char>> {
    let sections = close.batch.runner.sections@;
    if close.cancelled {
        Some("cancelled"@)
    } else if close.plan_failure is Some {
        Some("stopped before the first member"@)
    } else if close.batch.shape != BatchShape::List {
        None
    } else if filed(sections, InstallSection::Refused).len() > 0 {
        Some("stopped: a member was built but could not be placed"@)
    } else if filed(sections, InstallSection::Failed).len() > 0 {
        Some("stopped at a failure"@)
    } else {
        None
    }
}

/// Members of the plan that were never attempted.
pub open spec fn unattempted(batch: InstallBatch) -> nat {
    if batch.attempted >= batch.runner.total {
        0
    } else {
        (batch.runner.total - batch.attempted) as nat
    }
}

/// What a batch comes to: how many of how many.
pub open spec fn batch_count(batch: InstallBatch) -> Seq<char> {
    batch.shape.word() + " "@ + decimal(batch.runner.succeeded as nat) + " of "@ + decimal(
        batch.runner.total as nat,
    )
}

/// A batch's one summary.
pub open spec fn batch_summary(close: BatchClose) -> Seq<char> {
    batch_count(close.batch) + match stop_words(close) {
        Some(how) => left_over(how, unattempted(close.batch)),
        None => Seq::empty(),
    }
}

/// The panel of a batch that ended, with the reload's error if there was one.
pub open spec fn batch_panel_lines(close: BatchClose, read: PrefixRead) -> Seq<Seq<char>> {
    batch_lines(
        closing_lines(
            close.batch.runner.sections@,
            match read_answer(read.manifest) {
                Err(e) => Some(e),
                Ok(_) => close.batch.runner.reload_error,
            },
        ),
        block_view(close.plan_failure),
        texts(close.batch.plan_warnings@),
    )
}

/// What a batch that ended leaves in the panel and in the footer, beside the
/// reloaded list: one summary.
pub open spec fn batch_told(before: App, close: BatchClose, read: PrefixRead, after: App) -> bool {
    let lines = batch_panel_lines(close, read);
    if lines.len() == 0 {
        &&& after.build_report == before.build_report
        &&& after.report_scroll == before.report_scroll
        &&& after.says(
            batch_summary(close),
            if stop_words(close) is Some {
                MessageKind::Warning
            } else {
                MessageKind::Info
            },
        )
    } else {
        &&& after.pins(
            batch_count(close.batch),
            lines,
            filed(close.batch.runner.sections@, InstallSection::Failed).len() > 0
                || close.plan_failure is Some,
        )
        &&& after.says(in_the_panel(batch_summary(close)), MessageKind::Warning)
    }
}

/// What a migration batch comes to.
pub open spec fn migrated_count(batch: MigrateBatch) -> Seq<char> {
    "migrated "@ + decimal(batch.runner.succeeded as nat) + " of "@ + decimal(
        batch.runner.total as nat,
    ) + " to "@ + batch.dest@
}

/// A migration batch's one summary.
pub open spec fn migrate_summary(batch: MigrateBatch, ended_early: Option<Seq<char>>) -> Seq<char> {
    migrated_count(batch) + match ended_early {
        Some(how) => left_over(how, batch.runner.queue@.len()),
        None => Seq::empty(),
    }
}

/// What a migration batch that ended leaves in the panel and in the footer.
pub open spec fn migration_told(
    before: App,
    batch: MigrateBatch,
    ended_early: Option<Seq<char>>,
    after: App,
) -> bool {
    let summary = migrate_summary(batch, ended_early);
    if batch.runner.reload_error is None && none_filed(batch.runner.sections@) {
        &&& after.build_report == before.build_report
        &&& after.report_scroll == before.report_scroll
        &&& after.says(
            summary,
            if ended_early is Some {
                MessageKind::Warning
            } else {
                MessageKind::Info
            },
        )
    } else {
        &&& after.pins(
            "migrate --all: "@ + decimal(batch.runner.succeeded as nat) + " of "@ + decimal(
                batch.runner.total as nat,
            ) + " migrated"@,
            closing_lines(batch.runner.sections@, batch.runner.reload_error),
            filed(batch.runner.sections@, MigrateSection::Failed).len() > 0,
        )
        &&& after.says(in_the_panel(summary), MessageKind::Warning)
    }
}

/// The section under which a migration's member is filed, and its lines.
pub open spec fn step_filing(
    outcome: BuildOutcome,
    warnings: Seq<Seq<char>>,
    tail: Seq<Seq<char>>,
) -> Option<(MigrateSection, Seq<Seq<char>>)> {
    match outcome {
        BuildOutcome::Success | BuildOutcome::Migrated(_) => if warnings.len() > 0 {
            Some((MigrateSection::Noticed, warnings))
        } else {
            None
        },
        BuildOutcome::Cancelled => None,
        BuildOutcome::CompletedWithWarning(reason) => Some(
            (MigrateSection::Incomplete, seq![sanitized(reason@)] + warnings),
        ),
        BuildOutcome::Failed(e) => match e {
            BuildError::Refused(refused) => if refused.purpose == AuthPurpose::Placement {
                Some((MigrateSection::Refused, seq![sanitized(refused.reason@)]))
            } else {
                Some((MigrateSection::Failed, failure_of(e.text(), tail)))
            },
            BuildError::Other(_) => Some((MigrateSection::Failed, failure_of(e.text(), tail))),
        },
    }
}

/// Whether `after` is the runner once a member of a migration batch ended.
pub open spec fn step_filed(
    before: BatchRunner<PendingMigrate, MigrateSection>,
    fin: Finished,
    read: PrefixRead,
    after: BatchRunner<PendingMigrate, MigrateSection>,
) -> bool {
    &&& after == (BatchRunner {
        sections: after.sections,
        succeeded: after.succeeded,
        reload_error: after.reload_error,
        ..before
    })
    &&& after.succeeded == before.succeeded + if fin.outcome is Success || fin.outcome is Migrated {
        1int
    } else {
        0
    }
    &&& after.reload_error == match read_answer(read.manifest) {
        Err(e) => Some(e),
        Ok(_) => before.reload_error,
    }
    &&& match step_filing(fin.outcome, texts(fin.warnings@), texts(fin.tail@)) {
        None => after.sections == before.sections,
        Some((key, lines)) => filed_one(before.sections@, after.sections@, key, fin.name@, lines),
    }
}

/// What is said of a member of a migration batch: the version that arrived where
/// there is one, none for a move that names none, and else the version it was
/// confirmed at.
pub open spec fn spoken_version(fin: Finished) -> Seq<char> {
    match fin.outcome {
        BuildOutcome::Migrated(installed) => " "@ + installed@,
        BuildOutcome::Success => Seq::empty(),
        _ => match fin.kind {
            BuildKind::Migrate(target) => " "@ + target.version@,
            _ => Seq::empty(),
        },
    }
}

/// Whether a migration batch ends with this member: the person cancelled it, or
/// cancelled while members were still to go.
pub open spec fn step_stops(batch: MigrateBatch, outcome: BuildOutcome) -> bool {
    outcome is Cancelled || (batch.stopping && batch.runner.queue@.len() > 0)
}

/// What the end of a migration batch's member changes, beside the reloaded
/// list: the member is filed; then the batch ends, or the next member waits for
/// the run loop.
pub open spec fn step_done(before: App, fin: Finished, read: PrefixRead, after: App) -> bool {
    match before.migrate_batch {
        None => {
            &&& after.migrate_batch is None
            &&& after.pending_migrate == before.pending_migrate
            &&& after.build_report == before.build_report
            &&& after.report_scroll == before.report_scroll
            &&& reload_says(before, read, after)
        },
        Some(batch) => exists|filed: BatchRunner<PendingMigrate, MigrateSection>|
            {
                let now = MigrateBatch { runner: filed, ..batch };
                &&& #[trigger] step_filed(batch.runner, fin, read, filed)
                &&& if step_stops(batch, fin.outcome) {
                    &&& after.migrate_batch is None
                    &&& after.pending_migrate == before.pending_migrate
                    &&& migration_told(before, now, Some("cancelled"@), after)
                } else if batch.runner.queue@.len() == 0 {
                    &&& after.migrate_batch is None
                    &&& after.pending_migrate == before.pending_migrate
                    &&& migration_told(before, now, None, after)
                } else {
                    &&& after.pending_migrate == Some(batch.runner.queue@[0])
                    &&& after.migrate_batch matches Some(b) && b == (MigrateBatch {
                        runner: b.runner,
                        ..batch
                    }) && b.runner == (BatchRunner { queue: b.runner.queue, ..filed })
                        && b.runner.queue@ == batch.runner.queue@.drop_first()
                    &&& after.build_report == before.build_report
                    &&& after.report_scroll == before.report_scroll
                    &&& after.says(
                        "["@ + decimal(processed(filed)) + "/"@ + decimal(
                            batch.runner.total as nat,
                        ) + "] "@ + fin.name@ + spoken_version(fin) + " processed"@,
                        MessageKind::Info,
                    )
                }
            },
    }
}

/// Whether `flow` is what a finished build asks for, and `after` the state in
/// between. The live warning panel was the build's running record, and goes
/// with it; a batch owns its members' presentation; a cancelled build ended
/// exactly as asked, with nothing to reload.
pub open spec fn build_finished(before: App, fin: Finished, after: App, flow: Flow) -> bool {
    if before.migrate_batch is Some && fin.kind is Migrate {
        &&& after == (App { build_report: None, ..before })
        &&& flow == Flow::Reload(AfterReload::BatchStep(fin))
    } else if before.install_batch is Some {
        &&& after == (App { build_report: None, install_batch: None, ..before })
        &&& flow matches Flow::Reload(AfterReload::InstallBatch(close)) && closes(
            before.install_batch->0,
            fin.outcome,
            texts(fin.tail@),
            fin.warnings@,
            close,
        )
    } else if fin.outcome is Cancelled {
        &&& after == (App { build_report: None, message: after.message, ..before })
        &&& after.says(fin.kind.word() + " "@ + fin.name@ + " cancelled"@, MessageKind::Info)
        &&& flow is Done
    } else {
        &&& after == (App { build_report: None, ..before })
        &&& flow == Flow::Reload(AfterReload::Build(fin))
    }
}

/// The last line that tells of an installed crate.
fn find_installed(tail: &VecDeque<String>) -> (r: Option<String>)
    ensures
        match installed_line(texts(tail@)) {
            Some(line) => r matches Some(l) && l@ == line,
            None => r is None,
        },
{
    let ghost all = texts(tail@);
    let mut i: usize = tail.len();
    assert(all.take(i as int) =~= all);
    while i > 0
        invariant
            i <= tail@.len(),
            all == texts(tail@),
            installed_line(all) == installed_line(all.take(i as int)),
        decreases i,
    {
        let line = &tail[i - 1];
        assert(all.take(i as int).last() == line@);
        assert(all.take(i as int).drop_last() =~= all.take(i - 1));
        if starts_with(line.as_str(), "installed ") {
            return Some(line.clone());
        }
        i = i - 1;
    }
    None
}

/// What is said of a build that ended well.
fn note_of(fin: &Finished) -> (r: String)
    ensures
        r@ == success_note(*fin),
{
    match &fin.kind {
        BuildKind::Migrate(target) => match &fin.outcome {
            BuildOutcome::Migrated(installed) => cat6(
                "migrated ",
                fin.name.as_str(),
                " ",
                installed.as_str(),
                " to ",
                target.dest.as_str(),
            ),
            _ => cat4("migrated ", fin.name.as_str(), " to ", target.dest.as_str()),
        },
        _ => match find_installed(&fin.tail) {
            Some(line) => line,
            None => cat4(fin.kind.verb(), " ", fin.name.as_str(), " finished"),
        },
    }
}

/// The line about a reload that failed beside something else.
fn reload_failed_line(e: &str) -> (r: String)
    ensures
        r@ == reload_failed(e@),
{
    sanitize(cat3("(and the list reload failed: ", e, ")").as_str())
}

/// A panel's lines, with the error of a read set apart.
fn add_reload_error(lines: &mut Vec<String>, reload: &Result<ReloadOutcome, String>)
    ensures
        texts(final(lines)@) == match *reload {
            Ok(_) => texts(old(lines)@),
            Err(e) => texts(old(lines)@).push(Seq::empty()).push(reload_failed(e@)),
        },
{
    match reload {
        Ok(_) => {},
        Err(e) => {
            let ghost before = texts(lines@);
            lines.push(String::new());
            lines.push(reload_failed_line(e.as_str()));
            assert(texts(lines@) =~= before.push(Seq::empty()).push(reload_failed(e@)));
        },
    }
}

/// Lines under the plan's own heading.
fn add_plan(lines: &mut Vec<String>, block: &Vec<String>)
    ensures
        texts(final(lines)@) == with_plan(texts(old(lines)@), texts(block@)),
{
    space(lines);
    let ghost head = texts(lines@).push("the plan:"@);
    lines.push("the plan:".to_owned());
    assert(texts(lines@) =~= head);
    let ghost all = Seq::new(block@.len(), |i: int| sanitized("  "@ + texts(block@)[i]));
    let mut i: usize = 0;
    assert(head + all.take(0) =~= head);
    while i < block.len()
        invariant
            i <= block.len(),
            all == Seq::new(block@.len(), |i: int| sanitized("  "@ + texts(block@)[i])),
            texts(lines@) == head + all.take(i as int),
        decreases block.len() - i,
    {
        let ghost was = texts(lines@);
        lines.push(sanitize(cat("  ", block[i].as_str()).as_str()));
        assert(texts(lines@) =~= was.push(all[i as int]));
        assert(head + all.take(i + 1) =~= was.push(all[i as int]));
        i = i + 1;
    }
    assert(all.take(i as int) =~= all);
    assert(all =~= Seq::new(
        texts(block@).len(),
        |i: int| sanitized("  "@ + texts(block@)[i]),
    ));
}

/// The members' sections, then anything that belongs to the plan rather than to
/// any of them, under a heading that says so.
pub fn batch_panel(
    runner: &BatchRunner<(), InstallSection>,
    plan_failure: &Option<Vec<String>>,
    plan_warnings: &Vec<String>,
) -> (r: Vec<String>)
    ensures
        texts(r@) == batch_lines(
            closing_lines(runner.sections@, runner.reload_error),
            block_view(*plan_failure),
            texts(plan_warnings@),
        ),
{
    let mut lines = runner.report_lines();
    match plan_failure {
        Some(block) => add_plan(&mut lines, block),
        None => {},
    }
    if plan_warnings.len() > 0 {
        add_plan(&mut lines, plan_warnings);
    }
    lines
}

impl App {
    /// Warnings as they arrive, not as a post-mortem. The panel is updated in
    /// place rather than re-pinned, so a growing list does not yank a reader's
    /// scroll back to the top.
    ///
    /// In a batch the lines belong to the member building as they arrive, named
    /// and numbered as the gauge names it.
    pub fn show_live_warnings(&mut self, name: &str, kind: &BuildKind, warnings: &Vec<String>)
        ensures
            live_warnings_shown(*old(self), name@, *kind, texts(warnings@), *final(self)),
    {
        let subject = super::subject_text(&self.install_batch, name);
        let report = BuildReport {
            title: cat4(kind.verb(), " ", subject.as_str(), ": warnings"),
            lines: copied(warnings),
            failed: false,
        };
        if self.build_report.is_none() {
            self.report_scroll = 0;
        }
        self.build_report = Some(report);
    }

    /// A finished captured build: what has to be reloaded, or said at once.
    pub fn finish_build(&mut self, fin: Finished) -> (r: Flow)
        requires
            old(self).valid(),
        ensures
            build_finished(*old(self), fin, *final(self), r),
    {
        self.build_report = None;
        if self.migrate_batch.is_some() && matches!(fin.kind, BuildKind::Migrate(_)) {
            return Flow::Reload(AfterReload::BatchStep(fin));
        }
        if self.install_batch.is_some() {
            return self.finish_install_batch(&fin.outcome, &fin.tail, fin.warnings);
        }
        if matches!(fin.outcome, BuildOutcome::Cancelled) {
            self.info(cat4(fin.kind.verb(), " ", fin.name.as_str(), " cancelled").as_str());
            return Flow::Done;
        }
        Flow::Reload(AfterReload::Build(fin))
    }

    /// A finished single build, reloaded: speak in the pipeline's own words when
    /// it left any.
    ///
    /// The pipeline's error outranks a reload error. On success the roles flip:
    /// the reload is the remaining work. No warnings are shown for a failure:
    /// they described binaries the rollback removed.
    pub fn build_reloaded(&mut self, fin: Finished, read: PrefixRead)
        requires
            !(fin.outcome is Cancelled),
        ensures
            relisted(*old(self), read, *final(self)),
            build_told(*old(self), fin, read, *final(self)),
            *final(self) == (App {
                message: final(self).message,
                build_report: final(self).build_report,
                report_scroll: final(self).report_scroll,
                search_result: None,
                downgrade_choice: None,
                rows: final(self).rows,
                report_age: final(self).report_age,
                selected: final(self).selected,
                manifest_error: final(self).manifest_error,
                ..*old(self)
            }),
    {
        let verb = fin.kind.verb();
        let reload = self.reload(read);
        match &fin.outcome {
            BuildOutcome::CompletedWithWarning(reason) => {
                let mut lines: Vec<String> = vec![sanitize(reason.as_str())];
                assert(texts(lines@) =~= seq![sanitized(reason@)]);
                if fin.warnings.len() > 0 {
                    lines.push(String::new());
                    let mut more = copied(&fin.warnings);
                    lines.append(&mut more);
                    assert(texts(lines@) =~= seq![sanitized(reason@), Seq::empty()] + texts(
                        fin.warnings@,
                    ));
                }
                add_reload_error(&mut lines, &reload);
                self.pin_report(
                    BuildReport {
                        title: cat4(verb, " ", fin.name.as_str(), ": completed with a warning"),
                        lines,
                        failed: false,
                    },
                );
                self.warn(
                    cat4(
                        verb,
                        " ",
                        fin.name.as_str(),
                        " finished with a warning — details in the panel; Esc/Enter dismisses",
                    ).as_str(),
                );
            },
            BuildOutcome::Failed(e) => {
                let mut lines = failure_lines(e.chain().as_str(), &fin.tail);
                match &reload {
                    Ok(_) => {},
                    Err(re) => {
                        let ghost before = texts(lines@);
                        lines.push(reload_failed_line(re.as_str()));
                        assert(texts(lines@) =~= before.push(reload_failed(re@)));
                    },
                }
                self.pin_report(
                    BuildReport {
                        title: cat4(verb, " ", fin.name.as_str(), " failed"),
                        lines,
                        failed: true,
                    },
                );
                self.error(
                    cat4(
                        verb,
                        " ",
                        fin.name.as_str(),
                        " failed — details in the panel; Esc/Enter dismisses",
                    ).as_str(),
                );
            },
            _ => {
                let note = note_of(&fin);
                if fin.warnings.len() == 0 {
                    match &reload {
                        Ok(_) => self.info(note.as_str()),
                        Err(e) => self.error(
                            cat3(note.as_str(), " — but reload failed: ", e.as_str()).as_str(),
                        ),
                    }
                } else {
                    let mut lines = copied(&fin.warnings);
                    add_reload_error(&mut lines, &reload);
                    self.pin_report(
                        BuildReport {
                            title: cat4(verb, " ", fin.name.as_str(), ": warnings"),
                            lines,
                            failed: false,
                        },
                    );
                    self.warn(
                        cat(
                            note.as_str(),
                            " — with warnings in the panel; Esc/Enter dismisses",
                        ).as_str(),
                    );
                }
            },
        }
    }

    /// The install batch is over: everything is filed but the reload, which
    /// waits for this moment because the worker held the exclusive lock until it
    /// returned.
    pub fn finish_install_batch(
        &mut self,
        outcome: &BuildOutcome,
        tail: &VecDeque<String>,
        warnings: Vec<String>,
    ) -> (r: Flow)
        requires
            old(self).valid(),
        ensures
            *final(self) == (App { install_batch: None, ..*old(self) }),
            match old(self).install_batch {
                None => r is Done,
                Some(batch) => r matches Flow::Reload(AfterReload::InstallBatch(close)) && closes(
                    batch,
                    *outcome,
                    texts(tail@),
                    warnings@,
                    close,
                ),
            },
    {
        let mut batch = match self.install_batch.take() {
            None => {
                return Flow::Done;
            },
            Some(batch) => batch,
        };
        let ghost was = batch;
        let ghost said = warnings@;
        let cancelled = matches!(outcome, BuildOutcome::Cancelled);
        let mut plan_failure: Option<Vec<String>> = None;
        match batch.current.clone() {
            None => {
                match outcome {
                    BuildOutcome::Failed(e) => {
                        plan_failure = Some(failure_lines(e.chain().as_str(), tail));
                    },
                    BuildOutcome::CompletedWithWarning(reason) => {
                        let lines = vec![sanitize(reason.as_str())];
                        assert(texts(lines@) =~= seq![sanitized(reason@)]);
                        plan_failure = Some(lines);
                    },
                    _ => {},
                }
                let mut more = warnings;
                batch.plan_warnings.append(&mut more);
            },
            Some(name) => {
                match outcome {
                    BuildOutcome::Failed(e) => {
                        batch.runner.record(
                            InstallSection::Failed,
                            name.as_str(),
                            failure_lines(e.chain().as_str(), tail),
                        );
                    },
                    BuildOutcome::CompletedWithWarning(reason) => {
                        let lines = vec![sanitize(reason.as_str())];
                        assert(texts(lines@) =~= seq![sanitized(reason@)]);
                        batch.runner.record(InstallSection::Failed, name.as_str(), lines);
                    },
                    _ => {
                        if warnings.len() > 0 {
                            batch.runner.record(InstallSection::Noticed, name.as_str(), warnings);
                        }
                    },
                }
            },
        }
        Flow::Reload(AfterReload::InstallBatch(BatchClose { batch, plan_failure, cancelled }))
    }

    /// The install batch is over and reloaded: one summary.
    pub fn install_batch_reloaded(&mut self, close: BatchClose, read: PrefixRead)
        requires
            super::sections_fit(close.batch),
        ensures
            relisted(*old(self), read, *final(self)),
            batch_told(*old(self), close, read, *final(self)),
            *final(self) == (App {
                message: final(self).message,
                build_report: final(self).build_report,
                report_scroll: final(self).report_scroll,
                search_result: None,
                downgrade_choice: None,
                rows: final(self).rows,
                report_age: final(self).report_age,
                selected: final(self).selected,
                manifest_error: final(self).manifest_error,
                ..*old(self)
            }),
    {
        let ghost given = close;
        let mut close = close;
        match self.reload(read) {
            Ok(_) => {},
            Err(e) => {
                close.batch.runner.reload_error = Some(e);
            },
        }
        let runner = &close.batch.runner;
        let shape = close.batch.shape;
        let refused = runner.recorded(InstallSection::Refused);
        let failed = runner.recorded(InstallSection::Failed);
        let stopped: Option<&str> = if close.cancelled {
            Some("cancelled")
        } else if close.plan_failure.is_some() {
            Some("stopped before the first member")
        } else if !shape.stops_at_a_member() {
            None
        } else if refused > 0 {
            Some("stopped: a member was built but could not be placed")
        } else if failed > 0 {
            Some("stopped at a failure")
        } else {
            None
        };
        let left: usize = if close.batch.attempted >= runner.total {
            0
        } else {
            runner.total - close.batch.attempted
        };
        let count = cat5(
            shape.verb(),
            " ",
            count_of(runner.succeeded).as_str(),
            " of ",
            count_of(runner.total).as_str(),
        );
        let mut summary = count.clone();
        match stopped {
            Some(how) => {
                summary.append(left_over_text(how, left).as_str());
            },
            None => {
                assert(summary@ + Seq::<char>::empty() =~= summary@);
            },
        }
        let lines = batch_panel(runner, &close.plan_failure, &close.batch.plan_warnings);
        assert(texts(lines@) == batch_panel_lines(given, read));
        assert(summary@ == batch_summary(given));
        if lines.len() == 0 {
            if stopped.is_some() {
                self.warn(summary.as_str());
            } else {
                self.info(summary.as_str());
            }
            return ;
        }
        self.pin_report(
            BuildReport {
                title: count,
                lines,
                failed: failed > 0 || close.plan_failure.is_some(),
            },
        );
        self.warn(
            cat(summary.as_str(), " — details in the panel; Esc/Enter dismisses").as_str(),
        );
    }

    /// The migration batch's one summary: counts in the footer, shortfalls in a
    /// panel. Tally plus queue add up to the plan: a refused member sits in a
    /// section, so "not attempted" is exactly what is still queued.
    pub fn finalize_migrate_batch(&mut self, ended_early: Option<&str>)
        requires
            old(self).valid(),
        ensures
            match old(self).migrate_batch {
                None => *final(self) == *old(self),
                Some(batch) => {
                    &&& migration_told(
                        *old(self),
                        batch,
                        match ended_early {
                            Some(how) => Some(how@),
                            None => None,
                        },
                        *final(self),
                    )
                    &&& *final(self) == (App {
                        migrate_batch: None,
                        message: final(self).message,
                        build_report: final(self).build_report,
                        report_scroll: final(self).report_scroll,
                        ..*old(self)
                    })
                },
            },
    {
        let batch = match self.migrate_batch.take() {
            None => {
                return ;
            },
            Some(batch) => batch,
        };
        let runner = &batch.runner;
        let head = cat6(
            "migrated ",
            count_of(runner.succeeded).as_str(),
            " of ",
            count_of(runner.total).as_str(),
            " to ",
            batch.dest.as_str(),
        );
        let summary = runner.summary(head.as_str(), ended_early);
        if runner.quiet() {
            if ended_early.is_some() {
                self.warn(summary.as_str());
            } else {
                self.info(summary.as_str());
            }
            return ;
        }
        self.pin_report(
            BuildReport {
                title: cat5(
                    "migrate --all: ",
                    count_of(runner.succeeded).as_str(),
                    " of ",
                    count_of(runner.total).as_str(),
                    " migrated",
                ),
                lines: runner.report_lines(),
                failed: runner.recorded(MigrateSection::Failed) > 0,
            },
        );
        self.warn(
            cat(summary.as_str(), " — details in the panel; Esc/Enter dismisses").as_str(),
        );
    }
}

/// Filing one member leaves every section declared, and every other section's
/// count.
pub(crate) proof fn lemma_filed_one<K>(
    before: Seq<crate::batch::BatchSection<K>>,
    after: Seq<crate::batch::BatchSection<K>>,
    key: K,
    name: Seq<char>,
    lines: Seq<Seq<char>>,
    other: K,
)
    requires
        declared(before, key),
        filed_one(before, after, key, name, lines),
    ensures
        slot(after, other) == slot(before, other),
        declared(after, other) == declared(before, other),
        declared(before, other) && slot(before, other) != slot(before, key) ==> filed(after, other)
            == filed(before, other),
        filed(after, key).len() == filed(before, key).len() + 1,
{
    crate::batch::lemma_slot(before, key);
    crate::batch::lemma_slot(before, other);
    assert forall|i: int| 0 <= i < before.len() implies (#[trigger] after[i]).key == before[i].key by {
        if i != slot(before, key) {
            assert(after[i] == before[i]);
        }
    }
    lemma_slots_stay(before, after, other);
    lemma_slots_stay(before, after, key);
}

/// Different keys stand in different sections.
proof fn lemma_slots_differ<K>(sections: Seq<crate::batch::BatchSection<K>>, a: K, b: K)
    requires
        declared(sections, a),
        declared(sections, b),
        a != b,
    ensures
        slot(sections, a) != slot(sections, b),
{
    crate::batch::lemma_slot(sections, a);
    crate::batch::lemma_slot(sections, b);
}

/// A member filed once is accounted for once: every outcome but a cancel adds
/// one to what the batch has an answer for.
pub proof fn law_each_member_is_accounted_for_once(
    before: BatchRunner<PendingMigrate, MigrateSection>,
    fin: Finished,
    read: PrefixRead,
    after: BatchRunner<PendingMigrate, MigrateSection>,
)
    requires
        super::migrate_sections_fit(before),
        step_filed(before, fin, read, after),
    ensures
        super::migrate_sections_fit(after),
        processed(after) == processed(before) + if fin.outcome is Cancelled {
            0nat
        } else {
            1
        },
        accounted(after) == accounted(before) + if fin.outcome is Cancelled {
            0nat
        } else {
            1
        },
{
    let sections = before.sections@;
    lemma_slots_differ(sections, MigrateSection::Failed, MigrateSection::Refused);
    lemma_slots_differ(sections, MigrateSection::Failed, MigrateSection::Incomplete);
    lemma_slots_differ(sections, MigrateSection::Failed, MigrateSection::Noticed);
    lemma_slots_differ(sections, MigrateSection::Refused, MigrateSection::Incomplete);
    lemma_slots_differ(sections, MigrateSection::Refused, MigrateSection::Noticed);
    lemma_slots_differ(sections, MigrateSection::Incomplete, MigrateSection::Noticed);
    match step_filing(fin.outcome, texts(fin.warnings@), texts(fin.tail@)) {
        None => {},
        Some((key, lines)) => {
            lemma_filed_one(sections, after.sections@, key, fin.name@, lines, MigrateSection::Failed);
            lemma_filed_one(sections, after.sections@, key, fin.name@, lines, MigrateSection::Refused);
            lemma_filed_one(
                sections,
                after.sections@,
                key,
                fin.name@,
                lines,
                MigrateSection::Incomplete,
            );
            lemma_filed_one(sections, after.sections@, key, fin.name@, lines, MigrateSection::Noticed);
        },
    }
}

/// File a member of a migration batch that ended.
fn file_step(
    runner: &mut BatchRunner<PendingMigrate, MigrateSection>,
    fin: &Finished,
    reload: Result<ReloadOutcome, String>,
    Ghost(read): Ghost<PrefixRead>,
)
    requires
        super::migrate_sections_fit(*old(runner)),
        old(runner).succeeded < usize::MAX,
        reload == read_answer(read.manifest),
    ensures
        step_filed(*old(runner), *fin, read, *final(runner)),
{
    match reload {
        Ok(_) => {},
        Err(e) => {
            runner.reload_error = Some(e);
        },
    }
    let name = fin.name.as_str();
    match &fin.outcome {
        BuildOutcome::Success | BuildOutcome::Migrated(_) => {
            runner.succeeded();
            if fin.warnings.len() > 0 {
                runner.record(MigrateSection::Noticed, name, copied(&fin.warnings));
            }
        },
        BuildOutcome::Cancelled => {},
        BuildOutcome::CompletedWithWarning(reason) => {
            let mut lines = vec![sanitize(reason.as_str())];
            let mut more = copied(&fin.warnings);
            lines.append(&mut more);
            assert(texts(lines@) =~= seq![sanitized(reason@)] + texts(fin.warnings@));
            runner.record(MigrateSection::Incomplete, name, lines);
        },
        BuildOutcome::Failed(BuildError::Refused(refused)) if refused.purpose
            == AuthPurpose::Placement => {
            let lines = vec![sanitize(refused.reason.as_str())];
            assert(texts(lines@) =~= seq![sanitized(refused.reason@)]);
            runner.record(MigrateSection::Refused, name, lines);
        },
        BuildOutcome::Failed(e) => {
            runner.record(
                MigrateSection::Failed,
                name,
                failure_lines(e.chain().as_str(), &fin.tail),
            );
        },
    }
}

impl App {
    /// One member of a migration batch finished, reloaded: tally, advance or
    /// wrap up. A cancel ends the whole batch, since continuing silently would
    /// be guessing intent.
    ///
    /// The classification is migration's own; the runner only files it. The
    /// diagnostics contract is a single job's, member by member.
    pub fn finish_batch_step(&mut self, fin: Finished, read: PrefixRead)
        requires
            old(self).valid(),
            fin.kind is Migrate,
            old(self).migrate_batch matches Some(batch) ==> processed(batch.runner) < usize::MAX,
        ensures
            relisted(*old(self), read, *final(self)),
            step_done(*old(self), fin, read, *final(self)),
            final(self).valid(),
            old(self).adds_up() ==> final(self).adds_up(),
            *final(self) == (App {
                migrate_batch: final(self).migrate_batch,
                pending_migrate: final(self).pending_migrate,
                message: final(self).message,
                build_report: final(self).build_report,
                report_scroll: final(self).report_scroll,
                search_result: None,
                downgrade_choice: None,
                rows: final(self).rows,
                report_age: final(self).report_age,
                selected: final(self).selected,
                manifest_error: final(self).manifest_error,
                ..*old(self)
            }),
    {
        let reload = self.reload(read);
        let mut batch = match self.migrate_batch.take() {
            None => {
                return ;
            },
            Some(batch) => batch,
        };
        let ghost was = batch;
        file_step(&mut batch.runner, &fin, reload, Ghost(read));
        proof {
            law_each_member_is_accounted_for_once(was.runner, fin, read, batch.runner);
        }
        let ghost filed_runner = batch.runner;
        let cancelled = matches!(fin.outcome, BuildOutcome::Cancelled);
        let left = batch.runner.remaining();
        if cancelled || (batch.stopping && left > 0) {
            self.migrate_batch = Some(batch);
            self.finalize_migrate_batch(Some("cancelled"));
            return ;
        }
        let done: usize = batch.runner.succeeded + batch.runner.recorded(MigrateSection::Incomplete)
            + batch.runner.recorded(MigrateSection::Failed) + batch.runner.recorded(
            MigrateSection::Refused,
        );
        let spoken = match &fin.outcome {
            BuildOutcome::Migrated(installed) => cat(" ", installed.as_str()),
            BuildOutcome::Success => String::new(),
            _ => match &fin.kind {
                BuildKind::Migrate(target) => cat(" ", target.version.as_str()),
                _ => String::new(),
            },
        };
        let mut said = cat6(
            "[",
            count_of(done).as_str(),
            "/",
            count_of(batch.runner.total).as_str(),
            "] ",
            fin.name.as_str(),
        );
        said.append(spoken.as_str());
        said.append(" processed");
        self.info(said.as_str());
        if left == 0 {
            self.migrate_batch = Some(batch);
            self.finalize_migrate_batch(None);
            return ;
        }
        self.pending_migrate = batch.runner.next_member();
        self.migrate_batch = Some(batch);
    }
}

/// What a live warning changes: the panel holds the warnings of the build so
/// far, where it stood; only a panel that was not there opens at its top.
pub open spec fn live_warnings_shown(
    before: App,
    name: Seq<char>,
    kind: BuildKind,
    warnings: Seq<Seq<char>>,
    after: App,
) -> bool {
    &&& after == (App {
        build_report: after.build_report,
        report_scroll: after.report_scroll,
        ..before
    })
    &&& after.report_scroll == if before.build_report is None {
        0
    } else {
        before.report_scroll
    }
    &&& after.build_report matches Some(report) && report.title@ == kind.word() + " "@
        + super::subject_of(before.install_batch, name) + ": warnings"@ && texts(report.lines@)
        == warnings && !report.failed
}

} // verus!
