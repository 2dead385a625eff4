//! The run loop's own steps: what it takes up next, what it asks before work may
//! begin, and how builds, batches and sweeps begin.
use super::finish::migration_told;
use super::poll::told;
use super::{App, Flow};
use crate::batch::{
    declared, filed_one, install_sections, lemma_slot, none_filed, sweep_sections, update_sections,
    BatchRunner, BatchShape, InstallBatch, InstallSection, MigrateBatch, MigrateSection,
    MigrateTarget, Preflight, StartOutcome,
};
use crate::decimal::{count_of, decimal};
use crate::job::{ActiveControl, BuildIntent, BuildJob, BuildKind, Job, PendingBuild};
use crate::state::{
    AuthAnswer, AuthPurpose, Manifest, MessageKind, MigrationSnapshot, PendingAction, PendingInPlace,
    PendingMigrate, PlannedUpdate, ReinstallPlan,
};
use crate::text::{cat, texts};
use crate::validate::{refuses_specs, valid_specs, InstallSpec, Invalid};
use crate::version::Version;
use std::collections::VecDeque;
use vstd::prelude::*;

verus! {

/// What the run loop takes up next.
pub enum Step {
    /// A command that takes over the terminal.
    Terminal(PendingAction),
    /// A mutation that may need a password first.
    InPlace(PendingInPlace),
    UpdateSweep(Vec<PlannedUpdate>),
    ReinstallSweep(Vec<(String, ReinstallPlan)>),
    InstallBatch { crates: Vec<String>, locked: bool },
    Build(PendingBuild),
    Migrate(PendingMigrate),
    /// A worker waits for credentials.
    Auth,
    /// Nothing is queued: wait for a key, then look at the running job.
    Wait,
}

/// What the run loop takes up next: a handover before anything else, then what
/// was confirmed, one at a time.
pub open spec fn stepped(before: App, after: App, step: Step) -> bool {
    if before.pending is Some {
        step == Step::Terminal(before.pending->0) && after == (App { pending: None, ..before })
    } else if before.pending_in_place is Some {
        step == Step::InPlace(before.pending_in_place->0) && after == (App {
            pending_in_place: None,
            ..before
        })
    } else if before.pending_update_sweep is Some {
        step == Step::UpdateSweep(before.pending_update_sweep->0) && after == (App {
            pending_update_sweep: None,
            ..before
        })
    } else if before.pending_reinstall_sweep is Some {
        step == Step::ReinstallSweep(before.pending_reinstall_sweep->0) && after == (App {
            pending_reinstall_sweep: None,
            ..before
        })
    } else if before.pending_install_batch is Some {
        let (crates, locked) = before.pending_install_batch->0;
        step == (Step::InstallBatch { crates, locked }) && after == (App {
            pending_install_batch: None,
            ..before
        })
    } else if before.pending_build is Some {
        step == Step::Build(before.pending_build->0) && after == (App {
            pending_build: None,
            ..before
        })
    } else if before.pending_migrate is Some {
        step == Step::Migrate(before.pending_migrate->0) && after == (App {
            pending_migrate: None,
            ..before
        })
    } else {
        &&& after == before
        &&& step == if before.job matches Some(Job::Build(build)) && build.needs_auth is Some {
            Step::Auth
        } else {
            Step::Wait
        }
    }
}

/// What the door to a password does next.
pub enum AuthStep {
    /// The answer is known.
    Answer(Preflight),
    /// Look whether the credentials are fresh; then `credentials_checked`.
    Check,
    /// Ask for the password on the real terminal; then `prompted`.
    Prompt,
    /// Look once more; then `credentials_checked`, again.
    CheckAgain,
}

/// The one door to a password, for everything that may need one: the caller says
/// whether privilege is needed.
pub fn authorize(escalate: bool) -> (r: AuthStep)
    ensures
        r == if escalate {
            AuthStep::Check
        } else {
            AuthStep::Answer(Preflight::Ready)
        },
{
    if escalate {
        AuthStep::Check
    } else {
        AuthStep::Answer(Preflight::Ready)
    }
}

/// Ask, then check again. The second check is the point: an interactive prompt
/// can succeed on a configuration that caches nothing, and every privileged call
/// downstream runs without one.
pub fn credentials_checked(fresh: Result<bool, String>, again: bool) -> (r: AuthStep)
    ensures
        r == match fresh {
            Err(e) => AuthStep::Answer(Preflight::Reported(e)),
            Ok(true) => AuthStep::Answer(Preflight::Ready),
            Ok(false) => if again {
                AuthStep::Answer(Preflight::NoCache)
            } else {
                AuthStep::Prompt
            },
        },
{
    match fresh {
        Err(e) => AuthStep::Answer(Preflight::Reported(e)),
        Ok(true) => AuthStep::Answer(Preflight::Ready),
        Ok(false) => if again {
            AuthStep::Answer(Preflight::NoCache)
        } else {
            AuthStep::Prompt
        },
    }
}

/// The password was asked for.
pub fn prompted(outcome: Result<(), String>) -> (r: AuthStep)
    ensures
        r == match outcome {
            Ok(()) => AuthStep::CheckAgain,
            Err(e) => AuthStep::Answer(Preflight::Reported(e)),
        },
{
    match outcome {
        Ok(()) => AuthStep::CheckAgain,
        Err(e) => AuthStep::Answer(Preflight::Reported(e)),
    }
}

/// What the escalation preflight does first: `needs` is whether placement needs
/// privilege at all, `first_lock` whether preparing the prefix's first lock does.
pub open spec fn preflight_step(needs: Result<bool, String>, first_lock: bool) -> AuthStep {
    match needs {
        Err(e) => AuthStep::Answer(Preflight::Reported(e)),
        Ok(true) => if first_lock {
            AuthStep::Check
        } else {
            AuthStep::Answer(Preflight::Ready)
        },
        Ok(false) => AuthStep::Answer(Preflight::Ready),
    }
}

/// What the escalation preflight does first. Only one thing genuinely cannot
/// wait: preparing the first lock ever in this prefix is the worker's first
/// privileged touch, ahead of any request. Everything else waits for the
/// placement door: a build that fails should not have cost a password.
pub fn preflight_escalation(needs: Result<bool, String>, first_lock: bool) -> (r: AuthStep)
    ensures
        r == preflight_step(needs, first_lock),
{
    match needs {
        Err(e) => AuthStep::Answer(Preflight::Reported(e)),
        Ok(escalate) => if escalate {
            authorize(first_lock)
        } else {
            AuthStep::Answer(Preflight::Ready)
        },
    }
}

/// The preflight asks only where the placement door cannot: where placement
/// needs privilege and the prefix's first lock does too.
pub proof fn law_the_preflight_asks_only_for_the_first_lock(
    needs: Result<bool, String>,
    first_lock: bool,
)
    ensures
        !(preflight_step(needs, first_lock) is Answer) ==> needs == Ok::<bool, String>(true)
            && first_lock,
{
}

/// The other prefix of the known pair: exactly one candidate, and its own view
/// names this one back.
pub fn known_pair_dest(others: Vec<String>, names_back: bool) -> (r: Option<String>)
    ensures
        r == if others@.len() == 1 && names_back {
            Some(others@[0])
        } else {
            None
        },
{
    let mut others = others;
    if others.len() == 1 && names_back {
        others.pop()
    } else {
        None
    }
}

/// Whether a migration's retirement is certain to escalate where the destination
/// did not: the source needs privilege, and the destination does not, because a
/// destination that escalates asks at its own placement door first. A probe that
/// failed is not a probe that said no, and promises nothing.
pub fn late_escalation_certain(source: &Result<bool, String>, dest: &Result<bool, String>) -> (r: bool)
    ensures
        r == (*source == Ok::<bool, String>(true) && *dest == Ok::<bool, String>(false)),
{
    match source {
        Ok(true) => match dest {
            Ok(false) => true,
            _ => false,
        },
        _ => false,
    }
}

/// What starting a build has to ask before it may begin.
pub enum BuildStart {
    /// Nothing began, and why.
    Refused(String),
    /// Look, without blocking, whether the crate is pinned; then `pin_looked_up`.
    LookUpPin(InstallSpec),
    /// Run the escalation preflight; then `build_preflighted`.
    Preflight(InstallSpec),
}

/// What the advisory look at a crate's pin found.
pub enum PinAdvice {
    /// The prefix is busy: the authoritative pass runs in the worker.
    NotNow,
    Free,
    Pinned,
    Unreadable(String),
}

/// What the manifest says of a crate's pin: one that is not installed has none.
pub fn pin_advice(manifest: &Manifest, name: &str) -> (r: PinAdvice)
    ensures
        r is Pinned <==> (manifest.entry(name@) matches Some(entry) && entry.pinned),
        r is Pinned || r is Free,
{
    match manifest.get(name) {
        Some(entry) if entry.pinned => PinAdvice::Pinned,
        _ => PinAdvice::Free,
    }
}

/// Which operation a build's worker runs.
pub enum Door {
    Downgrade { expected: String, version: Version },
    Update { expected: String },
    Reinstall,
    Install { locked: bool },
}

/// A build that may begin: the worker's orders, or why there is none.
pub enum Begun {
    Worker { spec: InstallSpec, door: Door },
    Not(StartOutcome),
}

/// A spec that a build was queued with, as the only one of its list.
pub open spec fn alone(spec: Seq<char>) -> Seq<Seq<char>> {
    seq![spec]
}

/// What the first step of a build changes. Only an unversioned install asks about
/// the pin: a pin refuses what would move the crate off the version it declares,
/// and a reinstall restates the entry, pin included. A new attempt supersedes the
/// previous report.
pub open spec fn build_started(before: App, req: PendingBuild, after: App, r: BuildStart) -> bool {
    if valid_specs(alone(req.spec@)) {
        if req.intent is Install && crate::validate::spec_version(req.spec@) is None {
            &&& after == before
            &&& r matches BuildStart::LookUpPin(spec) && spec.reads(req.spec@)
        } else {
            &&& after == (App { build_report: None, ..before })
            &&& r matches BuildStart::Preflight(spec) && spec.reads(req.spec@)
        }
    } else {
        &&& after == before
        &&& r matches BuildStart::Refused(e) && exists|why: Invalid|
            #[trigger] refuses_specs(alone(req.spec@), why) && e@ == why.text()
    }
}

/// What the look at a pin changes.
pub open spec fn pin_seen(
    before: App,
    spec: InstallSpec,
    advice: PinAdvice,
    after: App,
    r: BuildStart,
) -> bool {
    match advice {
        PinAdvice::Pinned => {
            &&& after == before
            &&& r matches BuildStart::Refused(e) && e@ == spec.name@
                + " is pinned; `p` unpins it, or name a version to re-pin"@
        },
        PinAdvice::Unreadable(e) => after == before && r == BuildStart::Refused(e),
        _ => after == (App { build_report: None, ..before }) && r == BuildStart::Preflight(spec),
    }
}

/// The command that would do a build's work in the terminal. A downgrade hands
/// over as a downgrade, a reinstall as a reinstall, an update as an update: an
/// install there would drop the premise, the version or the `--locked`.
pub open spec fn handover(req: PendingBuild, name: Seq<char>, action: PendingAction) -> bool {
    match req.intent {
        BuildIntent::Downgrade(_) => action matches PendingAction::Downgrade(n) && n@ == name,
        BuildIntent::Reinstall => action matches PendingAction::Reinstall(n) && n@ == name,
        BuildIntent::Update { .. } => action matches PendingAction::Update(n) && n@ == name,
        BuildIntent::Install => action matches PendingAction::Install { crates, locked }
            && crates@ == seq![req.spec] && locked == req.locked,
    }
}

/// Why a handover is needed.
pub open spec fn no_cache_text() -> Seq<char> {
    "sudo does not cache credentials here; handing the terminal over"@
}

/// Whether `outcome` is what a preflight that does not let a build begin answers.
pub open spec fn not_ready(
    preflight: Preflight,
    req: PendingBuild,
    name: Seq<char>,
    outcome: StartOutcome,
) -> bool {
    match preflight {
        Preflight::Ready => false,
        Preflight::NoCache => outcome matches StartOutcome::NeedsTerminal { action, reason }
            && handover(req, name, action) && reason@ == no_cache_text(),
        Preflight::Reported(message) => outcome == StartOutcome::Refused(message),
    }
}

/// Which operation a build's worker runs. A downgrade makes the statement its
/// name implies; an install places what was asked for.
pub open spec fn door_of(req: PendingBuild, spec: InstallSpec) -> Door {
    match req.intent {
        BuildIntent::Downgrade(expected) => match spec.version {
            Some(version) => Door::Downgrade { expected, version },
            None => Door::Install { locked: req.locked },
        },
        BuildIntent::Update { expected } => Door::Update { expected },
        BuildIntent::Reinstall => Door::Reinstall,
        BuildIntent::Install => Door::Install { locked: req.locked },
    }
}

/// What the preflight of a build changes: with a ready one the slot is taken, and
/// the worker gets its orders. Nothing is scheduled otherwise.
pub open spec fn build_begun(
    before: App,
    req: PendingBuild,
    spec: InstallSpec,
    preflight: Preflight,
    now: u64,
    after: App,
    r: Begun,
) -> bool {
    match r {
        Begun::Not(outcome) => after == before && not_ready(preflight, req, spec.name@, outcome),
        Begun::Worker { spec: s, door } => {
            &&& preflight is Ready
            &&& s.name == spec.name
            &&& s.version == spec.version
            &&& door == door_of(req, spec)
            &&& after == (App { job: after.job, ..before })
            &&& after.job matches Some(Job::Build(build)) && build.fresh(
                spec.name@,
                req.intent.job_kind(),
                ActiveControl::Single,
                now,
            )
        },
    }
}

/// What a build that did not begin changes: a refusal to read, a handover to
/// schedule.
pub open spec fn outcome_taken(before: App, outcome: StartOutcome, after: App) -> bool {
    match outcome {
        StartOutcome::Started => after == before,
        StartOutcome::Refused(reason) => told(before, reason@, MessageKind::Error, after),
        StartOutcome::NeedsTerminal { action, reason } => told(
            App { pending: Some(action), ..before },
            reason@,
            MessageKind::Info,
            after,
        ),
    }
}

/// A migration that may begin: the worker's orders.
pub struct MigrateOrders {
    pub name: String,
    pub dest: String,
    pub snap: MigrationSnapshot,
}

/// What the preflight of a migration changes. No terminal handover, on purpose:
/// the CLI is the interactive shape. Where the destination needed no password and
/// the source does, the escalation after the build is announced.
pub open spec fn migrate_begun(
    before: App,
    req: PendingMigrate,
    preflight: Preflight,
    late: Option<Seq<char>>,
    now: u64,
    after: App,
    r: Result<MigrateOrders, StartOutcome>,
) -> bool {
    match preflight {
        Preflight::NoCache => {
            &&& after == before
            &&& r matches Err(StartOutcome::Refused(e)) && e@
                == "sudo does not cache credentials here; migrate via the CLI, which prompts interactively"@
        },
        Preflight::Reported(message) => after == before && r == Err::<MigrateOrders, StartOutcome>(
            StartOutcome::Refused(message),
        ),
        Preflight::Ready => {
            &&& after == (App { job: after.job, message: after.message, ..before })
            &&& match late {
                Some(note) => after.says(note, MessageKind::Info),
                None => after.message == before.message,
            }
            &&& after.job matches Some(Job::Build(build)) && build.fresh(
                req.name@,
                build.kind,
                ActiveControl::Single,
                now,
            ) && (build.kind matches BuildKind::Migrate(target) && target.version == req.version
                && target.dest == req.dest)
            &&& r matches Ok(orders) && orders.name == req.name && orders.dest == req.dest
                && orders.snap == req.snap
        },
    }
}

/// What a migration that did not begin changes: a batch cannot wait on a worker
/// that never existed, so the refusal is recorded as a failure where the summary
/// will not overwrite it.
pub open spec fn migrate_refused_as(
    before: App,
    member: Seq<char>,
    reason: String,
    after: App,
) -> bool {
    match before.migrate_batch {
        None => told(before, reason@, MessageKind::Error, after),
        Some(batch) => exists|filed: BatchRunner<PendingMigrate, MigrateSection>|
            {
                &&& #[trigger] refusal_filed(batch.runner, member, reason@, filed)
                &&& migration_told(
                    before,
                    MigrateBatch { runner: filed, ..batch },
                    Some("aborted"@),
                    after,
                )
                &&& after == (App {
                    migrate_batch: None,
                    message: after.message,
                    build_report: after.build_report,
                    report_scroll: after.report_scroll,
                    ..before
                })
            },
    }
}

/// Whether `after` is the runner with the refusal of a member filed.
pub open spec fn refusal_filed(
    before: BatchRunner<PendingMigrate, MigrateSection>,
    member: Seq<char>,
    reason: Seq<char>,
    after: BatchRunner<PendingMigrate, MigrateSection>,
) -> bool {
    &&& after == (BatchRunner { sections: after.sections, ..before })
    &&& filed_one(
        before.sections@,
        after.sections@,
        MigrateSection::Failed,
        member,
        seq![reason],
    )
}

/// What an in-place mutation's authorization changes: ready, and the work happens;
/// reported, and nothing is attempted; and a sudo that caches nothing, where the
/// terminal is the only place this can run at all.
pub open spec fn in_place_answered(
    before: App,
    op: PendingInPlace,
    preflight: Preflight,
    after: App,
    flow: Flow,
) -> bool {
    match preflight {
        Preflight::Ready => after == before && flow == Flow::Apply(op),
        Preflight::NoCache => flow is Done && told(
            App {
                pending: Some(
                    match op {
                        PendingInPlace::Remove(name) => PendingAction::Remove(name),
                        PendingInPlace::SetPinned { name, pinned } => PendingAction::SetPinned {
                            name,
                            pinned,
                        },
                    },
                ),
                ..before
            },
            no_cache_text(),
            MessageKind::Info,
            after,
        ),
        Preflight::Reported(message) => flow is Done && told(
            before,
            message@,
            MessageKind::Error,
            after,
        ),
    }
}

/// What a worker that waits for credentials gets.
pub enum AuthAsk {
    /// Nobody waits.
    Nothing,
    /// An answer at once.
    Answer(AuthAnswer),
    /// Ask for the password on the real terminal, for the named prefix; then
    /// `auth_prompted`.
    Prompt { target: String, purpose: AuthPurpose },
}

/// What a waiting worker changes. A cancel that landed after the request is
/// answered no without suspending the screen: nobody types a password for a build
/// that will never place. The prefix comes from the request: a migration escalates
/// for its destination while the interface is over the source.
pub open spec fn auth_taken(before: App, cancelled: bool, after: App, r: AuthAsk) -> bool {
    match before.job {
        Some(Job::Build(build)) => {
            &&& after == (App {
                job: Some(Job::Build(BuildJob { needs_auth: None, ..build })),
                ..before
            })
            &&& if cancelled {
                r matches AuthAsk::Answer(AuthAnswer::Refused(why)) && why@ == "cancelled"@
            } else {
                match build.needs_auth {
                    Some((target, purpose)) => r == (AuthAsk::Prompt { target, purpose }),
                    None => r is Nothing,
                }
            }
        },
        _ => after == before && r is Nothing,
    }
}

/// Why a prompt that succeeded is not enough.
pub open spec fn not_retained() -> Seq<char> {
    "sudo did not retain credentials; noninteractive placement cannot proceed"@
}

/// What the prompt for a waiting worker changes: `outcome` is the prompt's own
/// failure, or what the look at the credentials after it said. Three different
/// facts, and the worker is told which.
pub open spec fn auth_given(
    before: App,
    outcome: Result<Result<bool, String>, String>,
    after: App,
    r: AuthAnswer,
) -> bool {
    match outcome {
        Ok(Ok(true)) => after == before && r is Authorized,
        Ok(Ok(false)) => {
            &&& told(before, not_retained(), MessageKind::Warning, after)
            &&& r matches AuthAnswer::Refused(why) && why@ == not_retained()
        },
        Ok(Err(e)) => told(before, e@, MessageKind::Warning, after) && r == AuthAnswer::Refused(e),
        Err(e) => told(before, e@, MessageKind::Warning, after) && r == AuthAnswer::Refused(e),
    }
}

/// A batch at its start: nobody attempted, nothing said, nothing filed.
pub open spec fn batch_fresh(batch: InstallBatch, shape: BatchShape, total: nat) -> bool {
    &&& batch.shape == shape
    &&& batch.current is None
    &&& batch.attempted == 0
    &&& batch.plan_warnings@.len() == 0
    &&& batch.runner.total == total
    &&& batch.runner.succeeded == 0
    &&& batch.runner.reload_error is None
    &&& batch.runner.queue@.len() == 0
    &&& none_filed(batch.runner.sections@)
    &&& super::sections_fit(batch)
    &&& shape != BatchShape::List ==> declared(
        batch.runner.sections@,
        InstallSection::Skipped,
    )
}

/// What a batch or sweep of `total` members changes when its preflight answers.
/// Ready: placement's escalation is announced where it is certain, and the slot
/// is taken. A sudo that caches nothing hands the whole plan over, because nothing
/// has been built yet.
pub open spec fn batch_started(
    before: App,
    shape: BatchShape,
    kind: BuildKind,
    total: nat,
    instead: PendingAction,
    preflight: Preflight,
    needs: Result<bool, String>,
    note: Seq<char>,
    now: u64,
    after: App,
    started: bool,
) -> bool {
    match preflight {
        Preflight::NoCache => !started && told(
            App { pending: Some(instead), ..before },
            no_cache_text(),
            MessageKind::Info,
            after,
        ),
        Preflight::Reported(message) => !started && told(
            before,
            message@,
            MessageKind::Error,
            after,
        ),
        Preflight::Ready => {
            &&& started
            &&& after == (App {
                build_report: None,
                install_batch: after.install_batch,
                job: after.job,
                message: after.message,
                ..before
            })
            &&& if needs == Ok::<bool, String>(true) {
                after.says(note, MessageKind::Info)
            } else {
                after.message == before.message
            }
            &&& after.install_batch matches Some(batch) && batch_fresh(batch, shape, total)
            &&& after.job matches Some(Job::Build(build)) && build.fresh(
                decimal(total) + " crates"@,
                kind,
                ActiveControl::Batch,
                now,
            )
        },
    }
}

impl App {
    /// Say at startup that a prefix looks misspelled, but never over a message
    /// that is there: a broken manifest or an unreadable report has more to say
    /// about this session.
    pub fn note_prefix(&mut self, note: Option<&str>)
        ensures
            match note {
                Some(text) => if old(self).message is None {
                    told(*old(self), text@, MessageKind::Warning, *final(self))
                } else {
                    *final(self) == *old(self)
                },
                None => *final(self) == *old(self),
            },
    {
        match note {
            Some(text) => {
                if self.message.is_none() {
                    self.warn(text);
                }
            },
            None => {},
        }
    }

    /// What the run loop takes up next.
    pub fn next_step(&mut self) -> (r: Step)
        ensures
            stepped(*old(self), *final(self), r),
    {
        match self.pending.take() {
            Some(action) => {
                return Step::Terminal(action);
            },
            None => {},
        }
        match self.pending_in_place.take() {
            Some(op) => {
                return Step::InPlace(op);
            },
            None => {},
        }
        match self.pending_update_sweep.take() {
            Some(planned) => {
                return Step::UpdateSweep(planned);
            },
            None => {},
        }
        match self.pending_reinstall_sweep.take() {
            Some(planned) => {
                return Step::ReinstallSweep(planned);
            },
            None => {},
        }
        match self.pending_install_batch.take() {
            Some((crates, locked)) => {
                return Step::InstallBatch { crates, locked };
            },
            None => {},
        }
        match self.pending_build.take() {
            Some(req) => {
                return Step::Build(req);
            },
            None => {},
        }
        match self.pending_migrate.take() {
            Some(req) => {
                return Step::Migrate(req);
            },
            None => {},
        }
        match &self.job {
            Some(Job::Build(build)) => if build.needs_auth.is_some() {
                Step::Auth
            } else {
                Step::Wait
            },
            _ => Step::Wait,
        }
    }

    /// Start one build, or say why none started. Every exit carries an outcome: a
    /// silent return would leave a queue holding a slot that will never be filled.
    pub fn start_build(&mut self, req: &PendingBuild) -> (r: BuildStart)
        ensures
            build_started(*old(self), *req, *final(self), r),
    {
        let one = vec![req.spec.clone()];
        assert(texts(one@) =~= alone(req.spec@));
        let spec = match InstallSpec::parse_all(&one) {
            Ok(mut specs) => {
                assert(specs@[0].reads(one@[0]@));
                specs.remove(0)
            },
            Err(e) => {
                return BuildStart::Refused(e.chain());
            },
        };
        if matches!(req.intent, BuildIntent::Install) && spec.version.is_none() {
            return BuildStart::LookUpPin(spec);
        }
        self.build_report = None;
        BuildStart::Preflight(spec)
    }

    /// Whether the crate is pinned was looked up, before anyone types a password.
    pub fn pin_looked_up(&mut self, spec: InstallSpec, advice: PinAdvice) -> (r: BuildStart)
        ensures
            pin_seen(*old(self), spec, advice, *final(self), r),
    {
        match advice {
            PinAdvice::Pinned => BuildStart::Refused(
                cat(
                    spec.name.as_str(),
                    " is pinned; `p` unpins it, or name a version to re-pin",
                ),
            ),
            PinAdvice::Unreadable(e) => BuildStart::Refused(e),
            PinAdvice::NotNow => {
                self.build_report = None;
                BuildStart::Preflight(spec)
            },
            PinAdvice::Free => {
                self.build_report = None;
                BuildStart::Preflight(spec)
            },
        }
    }

    /// The build's preflight answered.
    pub fn build_preflighted(
        &mut self,
        req: PendingBuild,
        spec: InstallSpec,
        preflight: Preflight,
        now: u64,
    ) -> (r: Begun)
        ensures
            build_begun(*old(self), req, spec, preflight, now, *final(self), r),
    {
        match escalation_ready(preflight, &req, spec.name.as_str()) {
            Some(outcome) => {
                return Begun::Not(outcome);
            },
            None => {},
        }
        let kind = req.intent.kind();
        self.job = Some(
            Job::Build(BuildJob::new(spec.name.clone(), kind, ActiveControl::Single, now)),
        );
        let door = match req.intent {
            BuildIntent::Downgrade(expected) => match &spec.version {
                Some(version) => Door::Downgrade { expected, version: version.clone() },
                None => Door::Install { locked: req.locked },
            },
            BuildIntent::Update { expected } => Door::Update { expected },
            BuildIntent::Reinstall => Door::Reinstall,
            BuildIntent::Install => Door::Install { locked: req.locked },
        };
        Begun::Worker { spec, door }
    }

    /// A build did not begin: both answers are the person's.
    pub fn take_outcome(&mut self, outcome: StartOutcome)
        ensures
            outcome_taken(*old(self), outcome, *final(self)),
    {
        match outcome {
            StartOutcome::Started => {},
            StartOutcome::Refused(reason) => self.error(reason.as_str()),
            StartOutcome::NeedsTerminal { action, reason } => {
                self.info(reason.as_str());
                self.pending = Some(action);
            },
        }
    }

    /// Start a migration: refused while another operation runs; else the
    /// destination's preflight comes next, since its lock may be the first ever
    /// prepared there.
    pub fn start_migrate(&mut self) -> (r: Option<StartOutcome>)
        ensures
            if old(self).job is Some {
                &&& *final(self) == *old(self)
                &&& r matches Some(StartOutcome::Refused(e)) && e@
                    == "another operation is already running"@
            } else {
                *final(self) == (App { build_report: None, ..*old(self) }) && r is None
            },
    {
        if self.job.is_some() {
            return Some(StartOutcome::Refused("another operation is already running".to_owned()));
        }
        self.build_report = None;
        None
    }

    /// The migration's preflight answered; `late` is what to say of an escalation
    /// that is certain to come after the build.
    pub fn migrate_preflighted(
        &mut self,
        req: PendingMigrate,
        preflight: Preflight,
        late: Option<&str>,
        now: u64,
    ) -> (r: Result<MigrateOrders, StartOutcome>)
        ensures
            migrate_begun(
                *old(self),
                req,
                preflight,
                match late {
                    Some(note) => Some(note@),
                    None => None,
                },
                now,
                *final(self),
                r,
            ),
    {
        match preflight {
            Preflight::NoCache => {
                return Err(
                    StartOutcome::Refused(
                        "sudo does not cache credentials here; migrate via the CLI, which prompts interactively".to_owned(),
                    ),
                );
            },
            Preflight::Reported(message) => {
                return Err(StartOutcome::Refused(message));
            },
            Preflight::Ready => {},
        }
        match late {
            Some(note) => self.info(note),
            None => {},
        }
        let PendingMigrate { name, version, dest, snap } = req;
        let kind = BuildKind::Migrate(MigrateTarget { version, dest: dest.clone() });
        self.job = Some(
            Job::Build(BuildJob::new(name.clone(), kind, ActiveControl::Single, now)),
        );
        Ok(MigrateOrders { name, dest, snap })
    }

    /// A migration did not begin.
    pub fn migrate_refused(&mut self, member: &str, reason: String)
        requires
            old(self).valid(),
        ensures
            migrate_refused_as(*old(self), member@, reason, *final(self)),
    {
        match self.migrate_batch.take() {
            None => self.error(reason.as_str()),
            Some(mut batch) => {
                let ghost was = batch.runner;
                let ghost said = reason@;
                let lines = vec![reason];
                assert(texts(lines@) =~= seq![said]);
                batch.runner.record(MigrateSection::Failed, member, lines);
                proof {
                    let (a, b) = (was.sections@, batch.runner.sections@);
                    super::finish::lemma_filed_one(
                        a,
                        b,
                        MigrateSection::Failed,
                        member@,
                        seq![said],
                        MigrateSection::Failed,
                    );
                    super::finish::lemma_filed_one(
                        a,
                        b,
                        MigrateSection::Failed,
                        member@,
                        seq![said],
                        MigrateSection::Refused,
                    );
                    super::finish::lemma_filed_one(
                        a,
                        b,
                        MigrateSection::Failed,
                        member@,
                        seq![said],
                        MigrateSection::Incomplete,
                    );
                    super::finish::lemma_filed_one(
                        a,
                        b,
                        MigrateSection::Failed,
                        member@,
                        seq![said],
                        MigrateSection::Noticed,
                    );
                    assert(refusal_filed(was, member@, said, batch.runner));
                }
                self.migrate_batch = Some(batch);
                self.finalize_migrate_batch(Some("aborted"));
            },
        }
    }

    /// An in-place mutation that may need a password was authorized, or not.
    pub fn run_in_place(&mut self, op: PendingInPlace, preflight: Preflight) -> (r: Flow)
        ensures
            in_place_answered(*old(self), op, preflight, *final(self), r),
    {
        match preflight {
            Preflight::Ready => Flow::Apply(op),
            Preflight::NoCache => {
                self.info("sudo does not cache credentials here; handing the terminal over");
                self.pending = Some(
                    match op {
                        PendingInPlace::Remove(name) => PendingAction::Remove(name),
                        PendingInPlace::SetPinned { name, pinned } => PendingAction::SetPinned {
                            name,
                            pinned,
                        },
                    },
                );
                Flow::Done
            },
            Preflight::Reported(message) => {
                self.error(message.as_str());
                Flow::Done
            },
        }
    }

    /// A worker reached its checkpoint with stale credentials; `cancelled` is
    /// whether what it builds was told to stop.
    pub fn answer_auth(&mut self, cancelled: bool) -> (r: AuthAsk)
        ensures
            auth_taken(*old(self), cancelled, *final(self), r),
    {
        match self.job.take() {
            Some(Job::Build(mut build)) => {
                let wanted = build.needs_auth.take();
                self.job = Some(Job::Build(build));
                if cancelled {
                    return AuthAsk::Answer(AuthAnswer::Refused("cancelled".to_owned()));
                }
                match wanted {
                    Some((target, purpose)) => AuthAsk::Prompt { target, purpose },
                    None => AuthAsk::Nothing,
                }
            },
            job => {
                self.job = job;
                AuthAsk::Nothing
            },
        }
    }

    /// The password was asked for, and what came of it looked at.
    pub fn auth_prompted(&mut self, outcome: Result<Result<bool, String>, String>) -> (r: AuthAnswer)
        ensures
            auth_given(*old(self), outcome, *final(self), r),
    {
        match outcome {
            Ok(Ok(fresh)) => if fresh {
                AuthAnswer::Authorized
            } else {
                self.warn("sudo did not retain credentials; noninteractive placement cannot proceed");
                AuthAnswer::Refused(
                    "sudo did not retain credentials; noninteractive placement cannot proceed".to_owned(),
                )
            },
            Ok(Err(e)) => {
                self.warn(e.as_str());
                AuthAnswer::Refused(e)
            },
            Err(e) => {
                self.warn(e.as_str());
                AuthAnswer::Refused(e)
            },
        }
    }

    /// Said once before a run of builds, when placement under this prefix will
    /// need privilege. A prefix that needs nothing, or whose privilege cannot be
    /// judged, announces nothing.
    fn announce_batch_escalation(&mut self, needs: &Result<bool, String>, note: &str)
        ensures
            if *needs == Ok::<bool, String>(true) {
                told(*old(self), note@, MessageKind::Info, *final(self))
            } else {
                *final(self) == *old(self)
            },
    {
        match needs {
            Ok(true) => self.info(note),
            _ => {},
        }
    }

    /// Whether a batch or sweep begins, by its preflight.
    fn start_batch(
        &mut self,
        shape: BatchShape,
        kind: BuildKind,
        total: usize,
        instead: PendingAction,
        preflight: Preflight,
        needs: &Result<bool, String>,
        note: &str,
        now: u64,
    ) -> (r: bool)
        ensures
            batch_started(
                *old(self),
                shape,
                kind,
                total as nat,
                instead,
                preflight,
                *needs,
                note@,
                now,
                *final(self),
                r,
            ),
    {
        match preflight {
            Preflight::Ready => {},
            Preflight::NoCache => {
                self.info("sudo does not cache credentials here; handing the terminal over");
                self.pending = Some(instead);
                return false;
            },
            Preflight::Reported(message) => {
                self.error(message.as_str());
                return false;
            },
        }
        self.announce_batch_escalation(needs, note);
        self.build_report = None;
        self.install_batch = Some(fresh_batch(shape, total));
        self.job = Some(
            Job::Build(
                BuildJob::new(
                    cat(count_of(total).as_str(), " crates"),
                    kind,
                    ActiveControl::Batch,
                    now,
                ),
            ),
        );
        true
    }

    /// More than one crate to install: one operation, one worker. The specs are
    /// read first; a line that does not parse starts nothing.
    pub fn install_batch_specs(&mut self, crates: &Vec<String>) -> (r: Option<Vec<InstallSpec>>)
        ensures
            if valid_specs(texts(crates@)) {
                &&& *final(self) == *old(self)
                &&& r matches Some(specs) && specs@.len() == crates@.len() && forall|i: int|
                    0 <= i < crates@.len() ==> (#[trigger] specs@[i]).reads(crates@[i]@)
            } else {
                &&& r is None
                &&& exists|why: Invalid|
                    #[trigger] refuses_specs(texts(crates@), why) && told(
                        *old(self),
                        why.text(),
                        MessageKind::Error,
                        *final(self),
                    )
            },
    {
        match InstallSpec::parse_all(crates) {
            Ok(specs) => Some(specs),
            Err(e) => {
                self.error(e.chain().as_str());
                None
            },
        }
    }

    /// The preflight of a list of installs answered; `true` where its worker
    /// begins. `needs` is whether placement needs privilege, `note` what to say of
    /// it.
    pub fn start_install_batch(
        &mut self,
        crates: Vec<String>,
        locked: bool,
        preflight: Preflight,
        needs: &Result<bool, String>,
        note: &str,
        now: u64,
    ) -> (r: bool)
        ensures
            batch_started(
                *old(self),
                BatchShape::List,
                BuildKind::Install,
                crates@.len(),
                PendingAction::Install { crates, locked },
                preflight,
                *needs,
                note@,
                now,
                *final(self),
                r,
            ),
    {
        let total = crates.len();
        self.start_batch(
            BatchShape::List,
            BuildKind::Install,
            total,
            PendingAction::Install { crates, locked },
            preflight,
            needs,
            note,
            now,
        )
    }

    /// The preflight of a rebuild of everything answered; `true` where its worker
    /// begins.
    pub fn start_confirmed_sweep(
        &mut self,
        planned: &Vec<(String, ReinstallPlan)>,
        preflight: Preflight,
        needs: &Result<bool, String>,
        note: &str,
        now: u64,
    ) -> (r: bool)
        ensures
            batch_started(
                *old(self),
                BatchShape::Rebuild,
                BuildKind::Reinstall,
                planned@.len(),
                PendingAction::ReinstallAll,
                preflight,
                *needs,
                note@,
                now,
                *final(self),
                r,
            ),
    {
        self.start_batch(
            BatchShape::Rebuild,
            BuildKind::Reinstall,
            planned.len(),
            PendingAction::ReinstallAll,
            preflight,
            needs,
            note,
            now,
        )
    }

    /// The preflight of an update of everything answered; `true` where its worker
    /// begins.
    pub fn start_confirmed_update_sweep(
        &mut self,
        planned: &Vec<PlannedUpdate>,
        preflight: Preflight,
        needs: &Result<bool, String>,
        note: &str,
        now: u64,
    ) -> (r: bool)
        ensures
            batch_started(
                *old(self),
                BatchShape::Update,
                BuildKind::Update,
                planned@.len(),
                PendingAction::UpdateAll,
                preflight,
                *needs,
                note@,
                now,
                *final(self),
                r,
            ),
    {
        self.start_batch(
            BatchShape::Update,
            BuildKind::Update,
            planned.len(),
            PendingAction::UpdateAll,
            preflight,
            needs,
            note,
            now,
        )
    }
}

/// A batch at its start.
fn fresh_batch(shape: BatchShape, total: usize) -> (r: InstallBatch)
    ensures
        batch_fresh(r, shape, total as nat),
{
    let sections = match shape {
        BatchShape::List => install_sections(),
        BatchShape::Rebuild => sweep_sections(),
        BatchShape::Update => update_sections(),
    };
    let mut runner: BatchRunner<(), InstallSection> = BatchRunner::new(
        VecDeque::new(),
        &sections,
    );
    runner.total = total;
    proof {
        let s = runner.sections@;
        assert(s[0].key == InstallSection::Failed);
        assert(s[1].key == InstallSection::Refused);
        assert(s[s.len() - 1].key == InstallSection::Noticed);
        if shape != BatchShape::List {
            assert(s[2].key == InstallSection::Skipped);
        }
        lemma_slot(s, InstallSection::Failed);
        lemma_slot(s, InstallSection::Refused);
        lemma_slot(s, InstallSection::Noticed);
        lemma_slot(s, InstallSection::Skipped);
    }
    InstallBatch { runner, shape, current: None, attempted: 0, plan_warnings: Vec::new() }
}

/// Can captured placement run, and if not, what should happen instead: a refusal
/// to report, or the command that would do the work in the terminal. The answer is
/// returned, never acted on.
pub fn escalation_ready(preflight: Preflight, req: &PendingBuild, name: &str) -> (r: Option<
    StartOutcome,
>)
    ensures
        r is None <==> preflight is Ready,
        r matches Some(outcome) ==> not_ready(preflight, *req, name@, outcome),
{
    match preflight {
        Preflight::Ready => None,
        Preflight::NoCache => {
            let action = match &req.intent {
                BuildIntent::Downgrade(_) => PendingAction::Downgrade(name.to_owned()),
                BuildIntent::Reinstall => PendingAction::Reinstall(name.to_owned()),
                BuildIntent::Update { .. } => PendingAction::Update(name.to_owned()),
                BuildIntent::Install => {
                    let crates = vec![req.spec.clone()];
                    assert(crates@ =~= seq![req.spec]);
                    PendingAction::Install { crates, locked: req.locked }
                },
            };
            Some(
                StartOutcome::NeedsTerminal {
                    action,
                    reason: "sudo does not cache credentials here; handing the terminal over".to_owned(),
                },
            )
        },
        Preflight::Reported(message) => Some(StartOutcome::Refused(message)),
    }
}

} // verus!
