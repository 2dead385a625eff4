//! What the ends of builds and batches come to: what is pinned, what is said,
//! what is counted, and what is taken up next.
use super::finish::step_filed;
use super::result_laws::said;
use super::{App, AfterReload, BatchClose, Finished, Flow, PrefixRead};
use crate::batch::{
    closing_lines, failure_of, filed, lemma_slot, own_keys, slot, BatchRunner, BatchShape,
    InstallSection, MigrateSection,
};
use crate::decimal::decimal;
use crate::job::{BuildKind, BuildOutcome};
use crate::state::{AuthPurpose, PendingMigrate};
use crate::text::{sanitized, stands_at, texts};
use std::collections::VecDeque;
use vstd::prelude::*;

verus! {

/// A build that is over takes the live panel down and goes where it belongs: a
/// migration's member to its batch, a batch to its summary, a cancelled build to
/// one line, and any other to a reload.
pub proof fn law_an_ended_build_goes_where_it_belongs(app: &mut App, fin: Finished, flow: Flow)
    requires
        old(app).valid(),
        call_ensures(App::finish_build, (app, fin), flow),
    ensures
        final(app).build_report is None,
        final(app).migrate_batch == old(app).migrate_batch,
        ({
            let step = old(app).migrate_batch is Some && fin.kind is Migrate;
            let batch = !step && old(app).install_batch is Some;
            &&& step ==> flow == Flow::Reload(AfterReload::BatchStep(fin))
            &&& batch ==> flow is Reload && flow->Reload_0 is InstallBatch && final(app).install_batch is None
            &&& !step && !batch && fin.outcome is Cancelled ==> flow is Done && said(
                *final(app),
                fin.kind.word() + " "@ + fin.name@ + " cancelled"@,
            )
            &&& !step && !batch && !(fin.outcome is Cancelled) ==> flow == Flow::Reload(
                AfterReload::Build(fin),
            )
        }),
{
}

/// A batch that is over keeps its counts. What is still in hand belongs to the
/// member that was building, filed under its name, or else to the plan; and it
/// was cancelled exactly where its worker says so.
pub proof fn law_a_closed_batch_keeps_its_counts(
    app: &mut App,
    outcome: BuildOutcome,
    tail: VecDeque<String>,
    warnings: Vec<String>,
    flow: Flow,
    i: int,
)
    requires
        old(app).valid(),
        old(app).install_batch is Some,
        own_keys(old(app).install_batch->0.runner.sections@),
        0 <= i < old(app).install_batch->0.runner.sections.len(),
        call_ensures(App::finish_install_batch, (app, &outcome, &tail, warnings), flow),
    ensures
        flow is Reload && flow->Reload_0 is InstallBatch,
        ({
            let was = old(app).install_batch->0;
            let close = flow->Reload_0->InstallBatch_0;
            let is = close.batch;
            let (before, after) = (was.runner.sections@[i], is.runner.sections@[i]);
            let here = was.current is Some && match before.key {
                InstallSection::Failed => outcome is Failed || outcome is CompletedWithWarning,
                InstallSection::Noticed => !(outcome is Failed) && !(
                outcome is CompletedWithWarning) && warnings.len() > 0,
                _ => false,
            };
            &&& close.cancelled <==> outcome is Cancelled
            &&& is.runner.total == was.runner.total && is.runner.succeeded == was.runner.succeeded
            &&& is.attempted == was.attempted && is.shape == was.shape
            &&& close.plan_failure is Some <==> was.current is None && (outcome is Failed
                || outcome is CompletedWithWarning)
            &&& was.current is None ==> is.plan_warnings@ == was.plan_warnings@ + warnings@
            &&& was.current is Some ==> is.plan_warnings@ == was.plan_warnings@
            &&& after.key == before.key
            &&& !here ==> after.entries@ == before.entries@
            &&& here ==> after.entries.len() == before.entries.len() + 1
                && after.entries@.last().0@ == was.current->0@
        }),
        final(app).install_batch is None,
{
    let was = old(app).install_batch->0;
    let sections = was.runner.sections@;
    lemma_slot(sections, InstallSection::Failed);
    lemma_slot(sections, InstallSection::Noticed);
    assert(texts(warnings@).len() == warnings.len());
    let now = flow->Reload_0->InstallBatch_0.batch.runner.sections@;
    lemma_filed_len(sections, now, InstallSection::Failed, i);
    lemma_filed_len(sections, now, InstallSection::Noticed, i);
}

proof fn lemma_filed_len<K>(
    before: Seq<crate::batch::BatchSection<K>>,
    after: Seq<crate::batch::BatchSection<K>>,
    key: K,
    i: int,
)
    requires
        own_keys(before),
        0 <= i < before.len(),
    ensures
        forall|name: Seq<char>, lines: Seq<Seq<char>>|
            crate::batch::declared(before, key) && #[trigger] crate::batch::filed_one(
                before,
                after,
                key,
                name,
                lines,
            ) ==> {
                &&& after[i].key == before[i].key
                &&& before[i].key != key ==> after[i] == before[i]
                &&& before[i].key == key ==> after[i].entries.len() == before[i].entries.len() + 1
                    && after[i].entries@.last().0@ == name && texts(after[i].entries@.last().1@)
                    == lines
            },
{
    lemma_slot(before, key);
    assert forall|name: Seq<char>, lines: Seq<Seq<char>>|
        crate::batch::declared(before, key) && #[trigger] crate::batch::filed_one(
            before,
            after,
            key,
            name,
            lines,
        ) implies {
        &&& after[i].key == before[i].key
        &&& before[i].key != key ==> after[i] == before[i]
        &&& before[i].key == key ==> after[i].entries.len() == before[i].entries.len() + 1
            && after[i].entries@.last().0@ == name && texts(after[i].entries@.last().1@) == lines
    } by {
        let at = slot(before, key);
        if before[i].key == key {
            assert(i == at);
            let is = crate::batch::entries_view(after[i].entries@);
            let was = crate::batch::entries_view(before[i].entries@);
            assert(is.len() == after[i].entries.len() && was.len() == before[i].entries.len());
            assert(is[is.len() - 1] == (name, lines));
        }
    }
}

/// A failed build pins its failure, under the build's own words and name, and
/// says so; nothing else it said is shown.
pub proof fn law_a_failure_is_pinned(app: &mut App, fin: Finished, read: PrefixRead)
    requires
        fin.outcome is Failed,
        call_ensures(App::build_reloaded, (app, fin, read), ()),
    ensures
        final(app).build_report is Some,
        final(app).build_report->0.failed,
        final(app).build_report->0.title@ == fin.kind.word() + " "@ + fin.name@ + " failed"@,
        final(app).report_scroll == 0,
        !(read.manifest is Locked) ==> texts(final(app).build_report->0.lines@) == failure_of(
            fin.outcome->Failed_0.text(),
            texts(fin.tail@),
        ),
        read.manifest is Locked ==> texts(final(app).build_report->0.lines@) == failure_of(
            fin.outcome->Failed_0.text(),
            texts(fin.tail@),
        ).push(sanitized("(and the list reload failed: "@ + read.manifest->Locked_0@ + ")"@)),
        said(
            *final(app),
            fin.kind.word() + " "@ + fin.name@
                + " failed — details in the panel; Esc/Enter dismisses"@,
        ),
        final(app).message->0.kind is Error,
{
}

/// A build that went well is told in one line and pins nothing but its warnings:
/// as the pipeline's own last word on an installed crate, as what it was, or as
/// the migration it was, at the version that arrived.
pub proof fn law_a_success_is_told_in_one_line(app: &mut App, fin: Finished, read: PrefixRead, i: int)
    requires
        fin.outcome is Success || fin.outcome is Migrated,
        !(read.manifest is Locked),
        call_ensures(App::build_reloaded, (app, fin, read), ()),
    ensures
        ({
            let end = if fin.warnings.len() == 0 {
                Seq::empty()
            } else {
                " — with warnings in the panel; Esc/Enter dismisses"@
            };
            let tail = texts(fin.tail@);
            &&& fin.kind is Migrate && fin.outcome is Migrated ==> said(
                *final(app),
                "migrated "@ + fin.name@ + " "@ + fin.outcome->Migrated_0@ + " to "@
                    + fin.kind->Migrate_0.dest@ + end,
            )
            &&& !(fin.kind is Migrate) && (forall|k: int|
                0 <= k < tail.len() ==> !stands_at(#[trigger] tail[k], "installed "@, 0)) ==> said(
                *final(app),
                fin.kind.word() + " "@ + fin.name@ + " finished"@ + end,
            )
            &&& !(fin.kind is Migrate) && 0 <= i < tail.len() && stands_at(
                tail[i],
                "installed "@,
                0,
            ) && (forall|k: int|
                i < k < tail.len() ==> !stands_at(#[trigger] tail[k], "installed "@, 0)) ==> said(
                *final(app),
                tail[i] + end,
            )
            &&& fin.warnings.len() == 0 ==> final(app).build_report == old(app).build_report
                && final(app).message->0.kind is Info
            &&& fin.warnings.len() > 0 ==> {
                &&& final(app).build_report is Some && !final(app).build_report->0.failed
                &&& final(app).build_report->0.title@ == fin.kind.word() + " "@ + fin.name@
                    + ": warnings"@
                &&& texts(final(app).build_report->0.lines@) == texts(fin.warnings@)
                &&& final(app).message->0.kind is Warning
            }
        }),
{
    let tail = texts(fin.tail@);
    assert(texts(fin.warnings@).len() == fin.warnings.len());
    lemma_installed_line(tail, i);
    let note = super::finish::success_note(fin);
    assert(note + Seq::<char>::empty() =~= note);
}

proof fn lemma_installed_line(tail: Seq<Seq<char>>, i: int)
    ensures
        (forall|k: int|
            0 <= k < tail.len() ==> !stands_at(#[trigger] tail[k], "installed "@, 0))
            ==> super::finish::installed_line(tail) is None,
        0 <= i < tail.len() && stands_at(tail[i], "installed "@, 0) && (forall|k: int|
            i < k < tail.len() ==> !stands_at(#[trigger] tail[k], "installed "@, 0))
            ==> super::finish::installed_line(tail) == Some(tail[i]),
    decreases tail.len(),
{
    if tail.len() > 0 {
        let front = tail.drop_last();
        lemma_installed_line(front, i);
        assert forall|k: int| 0 <= k < front.len() implies front[k] == #[trigger] tail[k] by {}
        assert(tail.last() == tail[tail.len() - 1]);
    }
}

/// A build that was completed with a warning pins the reason first and its
/// warnings below, and is not called failed.
pub proof fn law_a_half_done_build_pins_its_reason(app: &mut App, fin: Finished, read: PrefixRead)
    requires
        fin.outcome is CompletedWithWarning,
        call_ensures(App::build_reloaded, (app, fin, read), ()),
    ensures
        final(app).build_report is Some,
        !final(app).build_report->0.failed,
        final(app).build_report->0.lines.len() > 0,
        final(app).build_report->0.lines@[0]@ == sanitized(
            fin.outcome->CompletedWithWarning_0@,
        ),
        forall|i: int|
            0 <= i < fin.warnings.len() ==> final(app).build_report->0.lines.len() > i + 2 && (
            #[trigger] final(app).build_report->0.lines@[i + 2])@ == fin.warnings@[i]@,
        final(app).message is Some && final(app).message->0.kind is Warning,
{
    let shown = texts(final(app).build_report->0.lines@);
    assert(shown.len() == final(app).build_report->0.lines.len());
    assert(shown[0] == final(app).build_report->0.lines@[0]@);
    assert(texts(fin.warnings@).len() == fin.warnings.len());
    assert forall|i: int| 0 <= i < fin.warnings.len() implies final(app).build_report->0.lines.len() > i + 2 && (
    #[trigger] final(app).build_report->0.lines@[i + 2])@ == fin.warnings@[i]@ by {
        assert(shown[i + 2] == texts(fin.warnings@)[i]);
    }
}

/// What a batch did, counted.
pub open spec fn counted(close: BatchClose) -> Seq<char> {
    (match close.batch.shape {
        BatchShape::List => "installed"@,
        BatchShape::Rebuild => "rebuilt"@,
        BatchShape::Update => "updated"@,
    }) + " "@ + decimal(close.batch.runner.succeeded as nat) + " of "@ + decimal(
        close.batch.runner.total as nat,
    )
}

/// A batch with nothing to show says how many of how many, and where it was
/// cancelled also how many were never tried; a completed one says no more.
pub proof fn law_a_quiet_batch_is_told_in_one_line(app: &mut App, close: BatchClose, read: PrefixRead)
    requires
        super::sections_fit(close.batch),
        forall|i: int|
            0 <= i < close.batch.runner.sections.len() ==> (
            #[trigger] close.batch.runner.sections@[i]).entries@.len() == 0,
        close.batch.runner.reload_error is None,
        close.batch.plan_warnings.len() == 0,
        close.plan_failure is None,
        !(read.manifest is Locked),
        call_ensures(App::install_batch_reloaded, (app, close, read), ()),
    ensures
        final(app).build_report == old(app).build_report,
        !close.cancelled ==> said(*final(app), counted(close))
            && final(app).message->0.kind is Info,
        close.cancelled ==> said(
            *final(app),
            counted(close) + (" ("@ + "cancelled"@ + "; "@ + decimal(
                if close.batch.attempted < close.batch.runner.total {
                    (close.batch.runner.total - close.batch.attempted) as nat
                } else {
                    0
                },
            ) + " not attempted)"@),
        ) && final(app).message->0.kind is Warning,
{
    let sections = close.batch.runner.sections@;
    crate::batch::law_quiet_means_no_lines(sections, close.batch.runner.reload_error);
    assert(texts(close.batch.plan_warnings@).len() == 0);
    lemma_slot(sections, InstallSection::Refused);
    lemma_slot(sections, InstallSection::Failed);
    assert(sections[slot(sections, InstallSection::Refused)].entries@.len() == 0);
    assert(sections[slot(sections, InstallSection::Failed)].entries@.len() == 0);
    let count = super::finish::batch_count(close.batch);
    assert(count + Seq::<char>::empty() =~= count);
}

/// A batch with anything to show pins it under its count, and is called failed
/// exactly where a member failed or the plan did.
pub proof fn law_a_batch_pins_what_it_has_to_show(
    app: &mut App,
    close: BatchClose,
    read: PrefixRead,
    i: int,
)
    requires
        super::sections_fit(close.batch),
        own_keys(close.batch.runner.sections@),
        0 <= i < close.batch.runner.sections.len(),
        close.batch.runner.sections@[i].key == InstallSection::Failed,
        !(read.manifest is Locked),
        call_ensures(App::install_batch_reloaded, (app, close, read), ()),
        exists|k: int|
            0 <= k < close.batch.runner.sections.len() && (
            #[trigger] close.batch.runner.sections@[k]).entries@.len() > 0,
    ensures
        final(app).build_report is Some,
        final(app).build_report->0.title@ == counted(close),
        final(app).build_report->0.failed == (close.batch.runner.sections@[i].entries.len() > 0
            || close.plan_failure is Some),
        close.plan_failure is None && close.batch.plan_warnings.len() == 0 ==> texts(
            final(app).build_report->0.lines@,
        ) == closing_lines(close.batch.runner.sections@, close.batch.runner.reload_error),
        final(app).message is Some && final(app).message->0.kind is Warning,
        close.cancelled ==> said(
            *final(app),
            counted(close) + (" ("@ + "cancelled"@ + "; "@ + decimal(
                if close.batch.attempted < close.batch.runner.total {
                    (close.batch.runner.total - close.batch.attempted) as nat
                } else {
                    0
                },
            ) + " not attempted)"@) + " — details in the panel; Esc/Enter dismisses"@,
        ),
        !close.cancelled && !(close.batch.shape is List) && close.plan_failure is None ==> said(
            *final(app),
            counted(close) + " — details in the panel; Esc/Enter dismisses"@,
        ),
{
    let sections = close.batch.runner.sections@;
    crate::batch::law_quiet_means_no_lines(sections, close.batch.runner.reload_error);
    lemma_slot(sections, InstallSection::Failed);
    assert(slot(sections, InstallSection::Failed) == i);
    assert(crate::batch::entries_view(sections[i].entries@).len() == sections[i].entries.len());
    assert(texts(close.batch.plan_warnings@).len() == close.batch.plan_warnings.len());
    let count = super::finish::batch_count(close.batch);
    assert(count + Seq::<char>::empty() =~= count);
}

/// A member of a migration that ended is followed by the next in the queue, in
/// order, as long as there is one and nobody cancelled; the last one, or a
/// cancel, ends the batch and takes nobody up.
pub proof fn law_members_follow_one_another(app: &mut App, fin: Finished, read: PrefixRead)
    requires
        old(app).valid(),
        fin.kind is Migrate,
        old(app).migrate_batch is Some,
        call_ensures(App::finish_batch_step, (app, fin, read), ()),
    ensures
        ({
            let was = old(app).migrate_batch->0;
            let is = final(app).migrate_batch->0;
            let stops = fin.outcome is Cancelled || was.runner.queue@.len() == 0 || was.stopping;
            let well = fin.outcome is Success || fin.outcome is Migrated;
            let done = was.runner.succeeded + if well {
                1int
            } else {
                0
            };
            &&& stops ==> final(app).migrate_batch is None && final(app).pending_migrate == old(app).pending_migrate
            &&& !stops ==> {
                &&& final(app).migrate_batch is Some
                &&& final(app).pending_migrate == Some(was.runner.queue@[0])
                &&& is.runner.queue@ == was.runner.queue@.drop_first()
                &&& is.runner.total == was.runner.total
                &&& is.runner.succeeded == done
                &&& is.dest == was.dest && is.stopping == was.stopping
            }
            &&& stops && final(app).build_report is None ==> said(
                *final(app),
                "migrated "@ + decimal(done as nat) + " of "@ + decimal(was.runner.total as nat)
                    + " to "@ + was.dest@ + if fin.outcome is Cancelled
                    || was.runner.queue@.len() > 0 {
                    " ("@ + "cancelled"@ + "; "@ + decimal(was.runner.queue@.len())
                        + " not attempted)"@
                } else {
                    Seq::empty()
                },
            )
        }),
{
    let was = old(app).migrate_batch->0;
    let stops = fin.outcome is Cancelled || was.runner.queue@.len() == 0 || was.stopping;
    if stops {
        let now = choose|runner: BatchRunner<PendingMigrate, MigrateSection>|
            #[trigger] step_filed(was.runner, fin, read, runner) && super::finish::migration_told(
                *old(app),
                crate::batch::MigrateBatch { runner, ..was },
                if super::finish::step_stops(was, fin.outcome) {
                    Some("cancelled"@)
                } else {
                    None
                },
                *final(app),
            );
        assert(now.succeeded == was.runner.succeeded + if fin.outcome is Success
            || fin.outcome is Migrated {
            1int
        } else {
            0
        });
    }
}

/// Each end of a migration's member is filed where it belongs: a failure, a
/// refusal at the placement door and a source left standing each in their own
/// section, a move with warnings as noticed, and a cancel nowhere.
pub proof fn law_each_migration_has_its_section(
    before: BatchRunner<PendingMigrate, MigrateSection>,
    fin: Finished,
    read: PrefixRead,
    after: BatchRunner<PendingMigrate, MigrateSection>,
    i: int,
)
    requires
        super::migrate_sections_fit(before),
        own_keys(before.sections@),
        step_filed(before, fin, read, after),
        0 <= i < before.sections.len(),
    ensures
        ({
            let (was, is) = (before.sections@[i], after.sections@[i]);
            let well = fin.outcome is Success || fin.outcome is Migrated;
            let refused = fin.outcome is Failed && fin.outcome->Failed_0 is Refused
                && fin.outcome->Failed_0->Refused_0.purpose == AuthPurpose::Placement;
            let here = match was.key {
                MigrateSection::Failed => fin.outcome is Failed && !refused,
                MigrateSection::Refused => refused,
                MigrateSection::Incomplete => fin.outcome is CompletedWithWarning,
                MigrateSection::Noticed => well && fin.warnings.len() > 0,
            };
            &&& is.key == was.key
            &&& !here ==> is.entries@ == was.entries@
            &&& here ==> is.entries.len() == was.entries.len() + 1 && is.entries@.last().0@
                == fin.name@
            &&& here && well ==> texts(is.entries@.last().1@) == texts(fin.warnings@)
            &&& here && refused ==> texts(is.entries@.last().1@) == seq![
                sanitized(fin.outcome->Failed_0->Refused_0.reason@),
            ]
            &&& here && fin.outcome is CompletedWithWarning ==> texts(is.entries@.last().1@)
                == seq![sanitized(fin.outcome->CompletedWithWarning_0@)] + texts(fin.warnings@)
            &&& here && fin.outcome is Failed && !refused ==> texts(is.entries@.last().1@)
                == failure_of(fin.outcome->Failed_0.text(), texts(fin.tail@))
            &&& after.succeeded == before.succeeded + if well {
                1int
            } else {
                0
            }
            &&& after.queue == before.queue && after.total == before.total
        }),
{
    assert(texts(fin.warnings@).len() == fin.warnings.len());
    lemma_filed_len(before.sections@, after.sections@, MigrateSection::Failed, i);
    lemma_filed_len(before.sections@, after.sections@, MigrateSection::Refused, i);
    lemma_filed_len(before.sections@, after.sections@, MigrateSection::Incomplete, i);
    lemma_filed_len(before.sections@, after.sections@, MigrateSection::Noticed, i);
}

/// A migration that does not begin ends its batch, which says so, and is told by
/// its reason where it was alone.
pub proof fn law_a_refused_migration_ends_its_batch(app: &mut App, member: &str, reason: String)
    requires
        old(app).valid(),
        call_ensures(App::migrate_refused, (app, member, reason), ()),
    ensures
        final(app).migrate_batch is None,
        final(app).pending_migrate == old(app).pending_migrate,
        old(app).migrate_batch is None ==> said(*final(app), reason@)
            && final(app).message->0.kind is Error,
        old(app).migrate_batch is Some ==> final(app).build_report is Some
            && final(app).build_report->0.failed && final(app).message is Some
            && final(app).message->0.kind is Warning,
{
    if old(app).migrate_batch is Some {
        let batch = old(app).migrate_batch->0;
        let runner = choose|runner: BatchRunner<PendingMigrate, MigrateSection>|
            {
                &&& #[trigger] super::start::refusal_filed(
                    batch.runner,
                    member@,
                    reason@,
                    runner,
                )
                &&& super::finish::migration_told(
                    *old(app),
                    crate::batch::MigrateBatch { runner, ..batch },
                    Some("aborted"@),
                    *final(app),
                )
            };
        let (was, is) = (batch.runner.sections@, runner.sections@);
        lemma_slot(was, MigrateSection::Failed);
        let at = slot(was, MigrateSection::Failed);
        assert forall|k: int| 0 <= k < was.len() implies (#[trigger] is[k]).key == was[k].key by {}
        crate::batch::lemma_slots_stay(was, is, MigrateSection::Failed);
        let entries = crate::batch::entries_view(is[at].entries@);
        assert(entries.len() == is[at].entries@.len());
        assert(entries.len() > 0);
        assert(filed(is, MigrateSection::Failed).len() > 0);
        assert(is[at].entries@.len() != 0);
    }
}

/// Warnings are shown as they arrive, all of them, under the build that said them,
/// and the reader's place is kept.
pub proof fn law_live_warnings_are_shown(
    app: &mut App,
    name: &str,
    kind: BuildKind,
    warnings: Vec<String>,
)
    requires
        call_ensures(App::show_live_warnings, (app, name, &kind, &warnings), ()),
    ensures
        final(app).build_report is Some && !final(app).build_report->0.failed,
        texts(final(app).build_report->0.lines@) == texts(warnings@),
        old(app).install_batch is None ==> final(app).build_report->0.title@ == kind.word() + " "@
            + name@ + ": warnings"@,
        old(app).build_report is Some ==> final(app).report_scroll == old(app).report_scroll,
        old(app).build_report is None ==> final(app).report_scroll == 0,
        final(app).message == old(app).message && final(app).job == old(app).job,
{
}

/// A typed list that did not install everything says where it stopped: at the
/// plan, at a member that could not be placed, or at one that failed.
pub proof fn law_a_list_says_where_it_stopped(app: &mut App, close: BatchClose, read: PrefixRead)
    requires
        super::sections_fit(close.batch),
        !close.cancelled,
        close.batch.shape is List,
        !(read.manifest is Locked),
        call_ensures(App::install_batch_reloaded, (app, close, read), ()),
        final(app).build_report != old(app).build_report,
    ensures
        ({
            let sections = close.batch.runner.sections@;
            let left = decimal(
                if close.batch.attempted < close.batch.runner.total {
                    (close.batch.runner.total - close.batch.attempted) as nat
                } else {
                    0
                },
            );
            let end = " — details in the panel; Esc/Enter dismisses"@;
            let refused = filed(sections, InstallSection::Refused).len() > 0;
            let failed = filed(sections, InstallSection::Failed).len() > 0;
            &&& close.plan_failure is Some ==> said(
                *final(app),
                counted(close) + (" ("@ + "stopped before the first member"@ + "; "@ + left
                    + " not attempted)"@) + end,
            )
            &&& close.plan_failure is None && refused ==> said(
                *final(app),
                counted(close) + (" ("@ + "stopped: a member was built but could not be placed"@
                    + "; "@ + left + " not attempted)"@) + end,
            )
            &&& close.plan_failure is None && !refused && failed ==> said(
                *final(app),
                counted(close) + (" ("@ + "stopped at a failure"@ + "; "@ + left
                    + " not attempted)"@) + end,
            )
            &&& close.plan_failure is None && !refused && !failed ==> said(
                *final(app),
                counted(close) + end,
            )
        }),
{
    let count = super::finish::batch_count(close.batch);
    assert(count + Seq::<char>::empty() =~= count);
}

/// What belongs to the plan stands below the members' sections, under a heading
/// of its own: first why it failed, then what it warned of.
pub proof fn law_the_plan_has_its_own_heading(
    runner: BatchRunner<(), InstallSection>,
    failure: Option<Vec<String>>,
    warnings: Vec<String>,
    shown: Vec<String>,
    r: Vec<String>,
    i: int,
)
    requires
        call_ensures(BatchRunner::<(), InstallSection>::report_lines, (&runner,), shown),
        call_ensures(super::finish::batch_panel, (&runner, &failure, &warnings), r),
    ensures
        failure is None && warnings.len() == 0 ==> texts(r@) == texts(shown@),
        r.len() >= shown.len(),
        forall|k: int| 0 <= k < shown.len() ==> (#[trigger] r@[k])@ == shown@[k]@,
        warnings.len() > 0 ==> r.len() >= warnings.len() + 1 && r@[r.len() - warnings.len()
            - 1]@ == "the plan:"@ && (0 <= i < warnings.len() ==> r@[r.len() - warnings.len()
            + i]@ == sanitized("  "@ + warnings@[i]@)),
        failure is Some && warnings.len() == 0 ==> r.len() >= failure->0.len() + 1 && r@[r.len()
            - failure->0.len() - 1]@ == "the plan:"@ && (0 <= i < failure->0.len() ==> r@[r.len()
            - failure->0.len() + i]@ == sanitized("  "@ + failure->0@[i]@)),
{
    let (before, after) = (texts(shown@), texts(r@));
    assert(before.len() == shown.len() && after.len() == r.len());
    assert(texts(warnings@).len() == warnings.len());
    assert forall|k: int| 0 <= k < shown.len() implies (#[trigger] r@[k])@ == shown@[k]@ by {
        assert(after[k] == before[k]);
    }
    if warnings.len() > 0 {
        assert(after[after.len() - warnings.len() - 1] == "the plan:"@);
        if 0 <= i < warnings.len() {
            assert(after[after.len() - warnings.len() + i] == sanitized(
                "  "@ + texts(warnings@)[i],
            ));
        }
    } else if failure is Some {
        let block = failure->0;
        assert(texts(block@).len() == block.len());
        assert(after[after.len() - block.len() - 1] == "the plan:"@);
        if 0 <= i < block.len() {
            assert(after[after.len() - block.len() + i] == sanitized("  "@ + texts(block@)[i]));
        }
    }
}

/// A failure that belongs to the plan is kept as a failure is shown.
pub proof fn law_a_plans_failure_is_kept(
    app: &mut App,
    outcome: BuildOutcome,
    tail: VecDeque<String>,
    warnings: Vec<String>,
    flow: Flow,
)
    requires
        old(app).valid(),
        old(app).install_batch is Some,
        old(app).install_batch->0.current is None,
        call_ensures(App::finish_install_batch, (app, &outcome, &tail, warnings), flow),
    ensures
        flow is Reload && flow->Reload_0 is InstallBatch,
        outcome is Failed ==> flow->Reload_0->InstallBatch_0.plan_failure is Some && texts(
            flow->Reload_0->InstallBatch_0.plan_failure->0@,
        ) == failure_of(outcome->Failed_0.text(), texts(tail@)),
        outcome is CompletedWithWarning ==> flow->Reload_0->InstallBatch_0.plan_failure is Some
            && texts(flow->Reload_0->InstallBatch_0.plan_failure->0@) == seq![
            sanitized(outcome->CompletedWithWarning_0@),
        ],
{
}

/// A member of a migration that is followed by another is told by its number, its
/// name and the version that arrived.
pub proof fn law_a_processed_member_is_numbered(app: &mut App, fin: Finished, read: PrefixRead)
    requires
        old(app).valid(),
        fin.kind is Migrate,
        old(app).migrate_batch is Some,
        old(app).migrate_batch->0.runner.queue@.len() > 0,
        !old(app).migrate_batch->0.stopping,
        fin.outcome is Migrated,
        call_ensures(App::finish_batch_step, (app, fin, read), ()),
    ensures
        said(
            *final(app),
            "["@ + decimal(crate::batch::processed(old(app).migrate_batch->0.runner) + 1) + "/"@
                + decimal(old(app).migrate_batch->0.runner.total as nat) + "] "@ + fin.name@
                + (" "@ + fin.outcome->Migrated_0@) + " processed"@,
        ),
{
    let was = old(app).migrate_batch->0;
    let runner = choose|runner: BatchRunner<PendingMigrate, MigrateSection>|
        #[trigger] step_filed(was.runner, fin, read, runner) && said(
            *final(app),
            "["@ + decimal(crate::batch::processed(runner)) + "/"@ + decimal(
                was.runner.total as nat,
            ) + "] "@ + fin.name@ + super::finish::spoken_version(fin) + " processed"@,
        );
    super::finish::law_each_member_is_accounted_for_once(was.runner, fin, read, runner);
}

/// A migration batch that is closed says how many of how many went where, and how
/// it ended early where it did; what it has to show is pinned, and called failed
/// exactly where a member failed.
pub proof fn law_a_closed_migration_is_told(app: &mut App, early: Option<&str>, i: int)
    requires
        old(app).valid(),
        old(app).migrate_batch is Some,
        own_keys(old(app).migrate_batch->0.runner.sections@),
        0 <= i < old(app).migrate_batch->0.runner.sections.len(),
        old(app).migrate_batch->0.runner.sections@[i].key == MigrateSection::Failed,
        call_ensures(App::finalize_migrate_batch, (app, early), ()),
    ensures
        final(app).migrate_batch is None,
        ({
            let batch = old(app).migrate_batch->0;
            let runner = batch.runner;
            let count = "migrated "@ + decimal(runner.succeeded as nat) + " of "@ + decimal(
                runner.total as nat,
            ) + " to "@ + batch.dest@;
            let summary = count + match early {
                Some(how) => " ("@ + how@ + "; "@ + decimal(runner.queue@.len())
                    + " not attempted)"@,
                None => Seq::empty(),
            };
            let quiet = runner.reload_error is None && forall|k: int|
                0 <= k < runner.sections.len() ==> (#[trigger] runner.sections@[k]).entries@.len()
                    == 0;
            &&& quiet ==> said(*final(app), summary) && final(app).build_report == old(app).build_report
            &&& !quiet ==> {
                &&& said(
                    *final(app),
                    summary + " — details in the panel; Esc/Enter dismisses"@,
                )
                &&& final(app).build_report is Some
                &&& final(app).build_report->0.failed == (runner.sections@[i].entries.len() > 0)
                &&& texts(final(app).build_report->0.lines@) == closing_lines(
                    runner.sections@,
                    runner.reload_error,
                )
                &&& final(app).build_report->0.title@ == "migrate --all: "@ + decimal(
                    runner.succeeded as nat,
                ) + " of "@ + decimal(runner.total as nat) + " migrated"@
            }
        }),
{
    let sections = old(app).migrate_batch->0.runner.sections@;
    lemma_slot(sections, MigrateSection::Failed);
    assert(slot(sections, MigrateSection::Failed) == i);
    assert(crate::batch::entries_view(sections[i].entries@).len() == sections[i].entries.len());
}

/// A batch's worker that is done hands its own end, its own lines and its own
/// warnings to the summary.
pub proof fn law_an_ended_batch_hands_on_what_it_said(app: &mut App, fin: Finished, flow: Flow, i: int)
    requires
        old(app).valid(),
        old(app).migrate_batch is None,
        old(app).install_batch is Some,
        own_keys(old(app).install_batch->0.runner.sections@),
        0 <= i < old(app).install_batch->0.runner.sections.len(),
        call_ensures(App::finish_build, (app, fin), flow),
    ensures
        flow is Reload && flow->Reload_0 is InstallBatch,
        ({
            let was = old(app).install_batch->0;
            let close = flow->Reload_0->InstallBatch_0;
            let (before, after) = (was.runner.sections@[i], close.batch.runner.sections@[i]);
            &&& close.cancelled <==> fin.outcome is Cancelled
            &&& close.batch.runner.total == was.runner.total
            &&& close.batch.runner.succeeded == was.runner.succeeded
            &&& close.batch.attempted == was.attempted
            &&& was.current is None ==> close.batch.plan_warnings@ == was.plan_warnings@
                + fin.warnings@
            &&& was.current is None && fin.outcome is Failed ==> close.plan_failure is Some
                && texts(close.plan_failure->0@) == failure_of(
                fin.outcome->Failed_0.text(),
                texts(fin.tail@),
            )
            &&& was.current is Some && fin.outcome is Failed && before.key is Failed ==> {
                &&& after.entries.len() == before.entries.len() + 1
                &&& after.entries@.last().0@ == was.current->0@
                &&& texts(after.entries@.last().1@) == failure_of(
                    fin.outcome->Failed_0.text(),
                    texts(fin.tail@),
                )
            }
            &&& was.current is Some && !(fin.outcome is Failed) && !(
            fin.outcome is CompletedWithWarning) && fin.warnings.len() > 0 && before.key is Noticed
                ==> {
                &&& after.entries.len() == before.entries.len() + 1
                &&& after.entries@.last().0@ == was.current->0@
                &&& texts(after.entries@.last().1@) == texts(fin.warnings@)
            }
        }),
{
    let was = old(app).install_batch->0;
    let sections = was.runner.sections@;
    assert(texts(fin.warnings@).len() == fin.warnings.len());
    let now = flow->Reload_0->InstallBatch_0.batch.runner.sections@;
    lemma_filed_len(sections, now, InstallSection::Failed, i);
    lemma_filed_len(sections, now, InstallSection::Noticed, i);
}

/// A migration that goes on files the member that ended, as that member ended.
pub proof fn law_a_migration_that_goes_on_files_its_member(
    app: &mut App,
    fin: Finished,
    read: PrefixRead,
    i: int,
)
    requires
        old(app).valid(),
        fin.kind is Migrate,
        old(app).migrate_batch is Some,
        own_keys(old(app).migrate_batch->0.runner.sections@),
        0 <= i < old(app).migrate_batch->0.runner.sections.len(),
        call_ensures(App::finish_batch_step, (app, fin, read), ()),
        final(app).migrate_batch is Some,
    ensures
        ({
            let (was, is) = (
                old(app).migrate_batch->0.runner.sections@[i],
                final(app).migrate_batch->0.runner.sections@[i],
            );
            let well = fin.outcome is Success || fin.outcome is Migrated;
            let refused = fin.outcome is Failed && fin.outcome->Failed_0 is Refused
                && fin.outcome->Failed_0->Refused_0.purpose == AuthPurpose::Placement;
            let here = match was.key {
                MigrateSection::Failed => fin.outcome is Failed && !refused,
                MigrateSection::Refused => refused,
                MigrateSection::Incomplete => fin.outcome is CompletedWithWarning,
                MigrateSection::Noticed => well && fin.warnings.len() > 0,
            };
            &&& !here ==> is.entries@ == was.entries@
            &&& here ==> is.entries.len() == was.entries.len() + 1 && is.entries@.last().0@
                == fin.name@
            &&& here && well ==> texts(is.entries@.last().1@) == texts(fin.warnings@)
            &&& here && fin.outcome is Failed && !refused ==> texts(is.entries@.last().1@)
                == failure_of(fin.outcome->Failed_0.text(), texts(fin.tail@))
        }),
        read.manifest is Locked ==> final(app).migrate_batch->0.runner.reload_error == Some(
            read.manifest->Locked_0,
        ),
{
    let was = old(app).migrate_batch->0;
    let is = final(app).migrate_batch->0;
    let runner = choose|runner: BatchRunner<PendingMigrate, MigrateSection>|
        #[trigger] step_filed(was.runner, fin, read, runner) && is.runner == (BatchRunner {
            queue: is.runner.queue,
            ..runner
        });
    law_each_migration_has_its_section(was.runner, fin, read, runner, i);
}

/// The panel of a batch in which one section has anything is that section's.
proof fn lemma_one_section<K>(sections: Seq<crate::batch::BatchSection<K>>, at: int)
    requires
        0 <= at < sections.len(),
        sections[at].entries@.len() > 0,
        forall|k: int|
            0 <= k < sections.len() && k != at ==> (#[trigger] sections[k]).entries@.len() == 0,
    ensures
        crate::batch::panel_lines(sections) == seq![sections[at].header@]
            + crate::batch::section_lines(crate::batch::entries_view(sections[at].entries@)),
    decreases sections.len(),
{
    let front = sections.drop_last();
    assert forall|k: int| 0 <= k < front.len() implies #[trigger] front[k] == sections[k] by {}
    if at == sections.len() - 1 {
        assert forall|k: int| 0 <= k < front.len() implies (#[trigger] front[k]).entries@.len()
            == 0 by {
            assert(sections[k].entries@.len() == 0);
        }
        crate::batch::law_quiet_means_no_lines(front, None);
        assert(crate::batch::panel_lines(front) =~= Seq::empty());
        assert(Seq::<Seq<char>>::empty().push(sections[at].header@) =~= seq![
            sections[at].header@,
        ]);
    } else {
        assert forall|k: int| 0 <= k < front.len() && k != at implies (
        #[trigger] front[k]).entries@.len() == 0 by {
            assert(sections[k].entries@.len() == 0);
        }
        lemma_one_section(front, at);
        assert(sections[sections.len() - 1].entries@.len() == 0);
    }
}

/// A member that could not begin is named in the panel, with its reason, and the
/// summary says that the batch was aborted, and how many were left.
pub proof fn law_a_refused_member_is_named_in_the_panel(app: &mut App, member: &str, reason: String)
    requires
        old(app).valid(),
        old(app).migrate_batch is Some,
        forall|k: int|
            0 <= k < old(app).migrate_batch->0.runner.sections.len() ==> (
            #[trigger] old(app).migrate_batch->0.runner.sections@[k]).entries@.len() == 0,
        old(app).migrate_batch->0.runner.reload_error is None,
        call_ensures(App::migrate_refused, (app, member, reason), ()),
    ensures
        final(app).build_report is Some,
        final(app).build_report->0.lines.len() == 3,
        final(app).build_report->0.lines@[1]@ == sanitized("  "@ + member@ + ":"@),
        final(app).build_report->0.lines@[2]@ == sanitized("    "@ + reason@),
        ({
            let batch = old(app).migrate_batch->0;
            said(
                *final(app),
                "migrated "@ + decimal(batch.runner.succeeded as nat) + " of "@ + decimal(
                    batch.runner.total as nat,
                ) + " to "@ + batch.dest@ + (" ("@ + "aborted"@ + "; "@ + decimal(
                    batch.runner.queue@.len(),
                ) + " not attempted)"@) + " — details in the panel; Esc/Enter dismisses"@,
            )
        }),
{
    let batch = old(app).migrate_batch->0;
    let runner = choose|runner: BatchRunner<PendingMigrate, MigrateSection>|
        {
            &&& #[trigger] super::start::refusal_filed(batch.runner, member@, reason@, runner)
            &&& super::finish::migration_told(
                *old(app),
                crate::batch::MigrateBatch { runner, ..batch },
                Some("aborted"@),
                *final(app),
            )
        };
    let (was, is) = (batch.runner.sections@, runner.sections@);
    lemma_slot(was, MigrateSection::Failed);
    let at = slot(was, MigrateSection::Failed);
    let entries = crate::batch::entries_view(is[at].entries@);
    assert(was[at].entries@.len() == 0);
    assert(crate::batch::entries_view(was[at].entries@) =~= Seq::empty());
    assert(entries =~= seq![(member@, seq![reason@])]);
    assert(entries.len() == is[at].entries@.len());
    assert(is[at].entries@.len() > 0);
    assert forall|k: int| 0 <= k < is.len() && k != at implies (#[trigger] is[k]).entries@.len()
        == 0 by {
        assert(was[k].entries@.len() == 0);
    }
    lemma_one_section(is, at);
    let own = crate::batch::member_lines(member@, seq![reason@]);
    assert(entries.drop_last() =~= Seq::empty());
    assert(crate::batch::section_lines(entries.drop_last()) =~= Seq::empty());
    assert(crate::batch::section_lines(entries) =~= own);
    let shown = texts(final(app).build_report->0.lines@);
    assert(shown.len() == final(app).build_report->0.lines.len());
    assert(shown == seq![is[at].header@] + own);
    assert(own.len() == 2);
    assert(shown[1] == own[0] && shown[2] == own[1]);
    assert(own[0] == sanitized("  "@ + member@ + ":"@));
    assert(own[1] == sanitized("    "@ + reason@));
}

} // verus!
