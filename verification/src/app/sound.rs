//! What every step of a session keeps: the batches can file what their members
//! become, a migration of everything adds up, and what a step asks to be read
//! again can be taken up where it stopped.
use super::finish::{closes, last_filing, lemma_filed_one};
use super::keys::{key_done, Key};
use super::oneshot::{check_recorded_as, Recorded};
use super::poll::{chained, done_at, fits, heard_all, lemma_takes_stay, outcomes_fit, polled};
use super::resume::{
    cancel_answered_as, destination_answered, pair_answered, pin_answered, privilege_answered,
    removal_answered, resumable, resumed, ticked,
};
use super::start::{
    auth_given, auth_taken, batch_started, build_begun, build_started, in_place_answered,
    migrate_begun, migrate_refused_as, outcome_taken, pin_seen, stepped, AuthAsk, Begun, BuildStart,
    MigrateOrders, PinAdvice, Step,
};
use super::{AfterReload, App, BatchClose, CancelFor, Flow, PairFor, PrefixRead};
use crate::batch::{
    lemma_slot, none_filed, processed, BatchRunner, BatchShape, InstallBatch, InstallSection,
    MigrateSection, Preflight, StartOutcome,
};
use crate::job::{BuildJob, BuildKind, BuildMsg, BuildOutcome, Delivered, Job, JobEvent, PendingBuild};
use crate::ops::{TuiRemove, TuiSetPinned};
use crate::state::{ActiveCancel, AuthAnswer, PendingAction, PendingInPlace, PendingMigrate};
use crate::text::texts;
use crate::validate::InstallSpec;
use vstd::prelude::*;

verus! {

impl App {
    /// Whether a session is sound: its batches have the sections they file
    /// under, and a migration of everything adds up.
    pub open spec fn sound(self) -> bool {
        self.valid() && self.adds_up()
    }
}

/// Whether a flow, where it asks for the prefix to be read again, can be taken
/// up in this state.
pub open spec fn taken_up(app: App, flow: Flow) -> bool {
    flow matches Flow::Reload(after) ==> resumable(app, after)
}

/// A session starts sound.
pub proof fn law_a_session_starts_sound(prefix: String, app: App)
    requires
        app.blank(prefix),
    ensures
        app.sound(),
{
}

/// A batch with nothing filed has an answer for nobody but its successes.
proof fn lemma_nobody_answered(runner: BatchRunner<PendingMigrate, MigrateSection>)
    requires
        super::migrate_sections_fit(runner),
        none_filed(runner.sections@),
    ensures
        processed(runner) == runner.succeeded,
{
    lemma_slot(runner.sections@, MigrateSection::Failed);
    lemma_slot(runner.sections@, MigrateSection::Refused);
    lemma_slot(runner.sections@, MigrateSection::Incomplete);
}

/// A key leaves a sound session sound, and what it asks to be read again can be
/// taken up.
pub proof fn law_keys_keep_a_session_sound(before: App, key: Key, now: u64, after: App, flow: Flow)
    requires
        before.sound(),
        key_done(before, key, now, after, flow),
    ensures
        after.sound(),
        taken_up(after, flow),
{
    if after.migrate_batch is Some && none_filed(after.migrate_batch->0.runner.sections@)
        && super::migrate_sections_fit(after.migrate_batch->0.runner) {
        lemma_nobody_answered(after.migrate_batch->0.runner);
    }
}

/// What a reload is followed by leaves a sound session sound.
pub proof fn law_reloads_keep_a_session_sound(
    before: App,
    waiting: AfterReload,
    read: PrefixRead,
    after: App,
    r: Result<Flow, String>,
)
    requires
        before.sound(),
        resumed(before, waiting, read, after, r),
    ensures
        after.sound(),
        r matches Ok(flow) ==> taken_up(after, flow),
{
}

/// A batch that closes keeps the sections it files under.
proof fn lemma_closing_fits(
    batch: InstallBatch,
    outcome: BuildOutcome,
    tail: Seq<Seq<char>>,
    warnings: Seq<String>,
    close: BatchClose,
)
    requires
        super::sections_fit(batch),
        closes(batch, outcome, tail, warnings, close),
    ensures
        super::sections_fit(close.batch),
{
    match batch.current {
        Some(name) => match last_filing(outcome, texts(warnings), tail) {
            Some((key, lines)) => {
                let (a, b) = (batch.runner.sections@, close.batch.runner.sections@);
                lemma_filed_one(a, b, key, name@, lines, InstallSection::Failed);
                lemma_filed_one(a, b, key, name@, lines, InstallSection::Refused);
                lemma_filed_one(a, b, key, name@, lines, InstallSection::Noticed);
            },
            None => {},
        },
        None => {},
    }
}

/// Messages heard one after another leave a sound session sound.
proof fn lemma_heard_sound(
    msgs: Seq<Delivered>,
    apps: Seq<App>,
    jobs: Seq<BuildJob>,
    n: int,
)
    requires
        chained(msgs, apps, jobs),
        0 <= n <= msgs.len(),
        apps[0].sound(),
        outcomes_fit(apps[0], msgs),
    ensures
        apps[n].sound(),
        outcomes_fit(apps[n], msgs),
    decreases n,
{
    if n > 0 {
        lemma_heard_sound(msgs, apps, jobs, n - 1);
        assert(super::poll::heard(apps[n - 1], jobs[n - 1], msgs[n - 1], apps[n], jobs[n]));
        lemma_takes_stay(apps[n - 1], jobs[n - 1], msgs[n - 1], apps[n], jobs[n]);
        assert(apps[n].migrate_batch == apps[n - 1].migrate_batch);
    }
}

/// The message that ends a build is one of them, or there is none.
proof fn lemma_done_in(msgs: Seq<Delivered>)
    ensures
        0 <= done_at(msgs) <= msgs.len(),
    decreases msgs.len(),
{
    if msgs.len() > 0 {
        lemma_done_in(msgs.drop_first());
    }
}

/// A look at the running job leaves a sound session sound, and what it asks to
/// be read again can be taken up.
pub proof fn law_polls_keep_a_session_sound(
    before: App,
    event: JobEvent,
    after: App,
    r: Result<Flow, String>,
)
    requires
        before.sound(),
        before.job matches Some(job) ==> fits(job, event),
        event matches JobEvent::Build { heard, .. } ==> outcomes_fit(before, heard@),
        polled(before, event, after, r),
    ensures
        after.sound(),
        r matches Ok(flow) ==> taken_up(after, flow),
{
    match event {
        JobEvent::Build { heard, gone } => if before.job is Some {
            let job = before.job->0->Build_0;
            let msgs = heard@;
            let n = done_at(msgs);
            let free = App { job: None, ..before };
            let (mid, now) = choose|mid: App, now: BuildJob|
                {
                    &&& #[trigger] heard_all(free, job, msgs.take(n), mid, now)
                    &&& if n < msgs.len() {
                        &&& r matches Ok(flow) && super::finish::build_finished(
                            mid,
                            super::Finished {
                                name: now.name,
                                kind: now.kind,
                                outcome: msgs[n].msg->Done_0,
                                tail: now.tail,
                                warnings: now.warnings,
                            },
                            App { should_quit: mid.should_quit, ..after },
                            flow,
                        )
                        &&& after.should_quit == (mid.should_quit || mid.quit_after_build)
                    } else if gone {
                        after == mid
                    } else {
                        after == (App { job: Some(Job::Build(now)), ..mid })
                    }
                };
            let (apps, jobs) = choose|apps: Seq<App>, jobs: Seq<BuildJob>|
                {
                    &&& #[trigger] chained(msgs.take(n), apps, jobs)
                    &&& apps[0] == free
                    &&& jobs[0] == job
                    &&& apps.last() == mid
                    &&& jobs.last() == now
                };
            lemma_done_in(msgs);
            if free.install_batch is Some {
                assert forall|i: int| 0 <= i < n implies ((#[trigger] msgs.take(n)[i]).msg matches
                    BuildMsg::MemberDone { outcome, .. } ==> free.install_batch->0.takes(
                    outcome,
                )) by {
                    assert(msgs[i] == msgs.take(n)[i]);
                }
            }
            lemma_heard_sound(msgs.take(n), apps, jobs, msgs.take(n).len() as int);
            assert(mid.sound());
            if n < msgs.len() && mid.install_batch is Some && !(mid.migrate_batch is Some
                && now.kind is Migrate) {
                let close = r->Ok_0->Reload_0->InstallBatch_0;
                lemma_closing_fits(
                    mid.install_batch->0,
                    msgs[n].msg->Done_0,
                    texts(now.tail@),
                    now.warnings@,
                    close,
                );
            }
        },
        _ => {},
    }
}

/// What the run loop takes up, and what the steps before a build change, leaves
/// a sound session sound.
pub proof fn law_steps_keep_a_session_sound(
    before: App,
    after: App,
    step: Step,
    now: u64,
    flow: Flow,
)
    requires
        before.sound(),
        stepped(before, after, step) || ticked(before, now, after, flow),
    ensures
        after.sound(),
{
}

/// The beginning of a build leaves a sound session sound.
pub proof fn law_builds_keep_a_session_sound(
    before: App,
    req: PendingBuild,
    spec: InstallSpec,
    advice: PinAdvice,
    preflight: Preflight,
    now: u64,
    after: App,
    start: BuildStart,
    begun: Begun,
    outcome: StartOutcome,
)
    requires
        before.sound(),
        build_started(before, req, after, start) || pin_seen(before, spec, advice, after, start)
            || build_begun(before, req, spec, preflight, now, after, begun) || outcome_taken(
            before,
            outcome,
            after,
        ),
    ensures
        after.sound(),
{
}

/// The beginning of a migration, and its refusal, leaves a sound session sound.
pub proof fn law_migrations_keep_a_session_sound(
    before: App,
    req: PendingMigrate,
    preflight: Preflight,
    late: Option<Seq<char>>,
    now: u64,
    member: Seq<char>,
    reason: String,
    after: App,
    r: Result<MigrateOrders, StartOutcome>,
)
    requires
        before.sound(),
        migrate_begun(before, req, preflight, late, now, after, r) || migrate_refused_as(
            before,
            member,
            reason,
            after,
        ),
    ensures
        after.sound(),
{
}

/// The beginning of a batch leaves a sound session sound.
pub proof fn law_batches_keep_a_session_sound(
    before: App,
    shape: BatchShape,
    kind: BuildKind,
    total: nat,
    instead: PendingAction,
    preflight: Preflight,
    needs: Result<bool, String>,
    note: Seq<char>,
    now: u64,
    after: App,
    started: bool,
)
    requires
        before.sound(),
        batch_started(
            before,
            shape,
            kind,
            total,
            instead,
            preflight,
            needs,
            note,
            now,
            after,
            started,
        ),
    ensures
        after.sound(),
{
}

/// Every answer from outside leaves a sound session sound, and what it asks to
/// be read again can be taken up.
pub proof fn law_answers_keep_a_session_sound(
    before: App,
    why: CancelFor,
    cancel: ActiveCancel,
    now: u64,
    pair: PairFor,
    dest: Option<String>,
    op: PendingInPlace,
    needs: Result<bool, String>,
    preflight: Preflight,
    after: App,
    flow: Flow,
)
    requires
        before.sound(),
        (cancel_answered_as(before, why, cancel, now, after) && flow is Done) || pair_answered(
            before,
            pair,
            dest,
            after,
            flow,
        ) || privilege_answered(before, op, needs, after, flow) || in_place_answered(
            before,
            op,
            preflight,
            after,
            flow,
        ),
    ensures
        after.sound(),
        taken_up(after, flow),
{
}

/// What was done in place, recorded or authorized leaves a sound session sound,
/// and what it asks to be read again can be taken up.
pub proof fn law_results_keep_a_session_sound(
    before: App,
    dest: String,
    there: Option<String>,
    name: String,
    pinned: bool,
    pin: Result<TuiSetPinned, String>,
    removal: Result<TuiRemove, String>,
    sweep: bool,
    recorded: Recorded,
    cancelled: bool,
    ask: AuthAsk,
    prompt: Result<Result<bool, String>, String>,
    answer: AuthAnswer,
    after: App,
    flow: Flow,
)
    requires
        before.sound(),
        pin_answered(before, name, pinned, pin, after, flow) || removal_answered(
            before,
            name,
            removal,
            after,
            flow,
        ) || (flow is Done && (destination_answered(before, dest, there, after)
            || check_recorded_as(before, sweep, recorded, after) || auth_taken(
            before,
            cancelled,
            after,
            ask,
        ) || auth_given(before, prompt, after, answer))),
    ensures
        after.sound(),
        taken_up(after, flow),
{
}

} // verus!
