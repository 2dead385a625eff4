//! The worker boundary: messages sent back from spawned work, the job that the
//! interface keeps about it, and pending build intents waiting to cross that
//! boundary.
use crate::batch::{MemberOutcome, MigrateTarget};
use crate::ops::{AuthorizationRefused, InstallBatchEnd, WorkError};
use crate::state::{
    ActiveCancel, AuthAnswer, AuthPurpose, CancelOutcome, Checked, Hit, ReinstallPlan, UpdatePlan,
};
use crate::text::{cat3, sanitize, sanitized};
use crate::version::Version;
use std::collections::VecDeque;
use vstd::prelude::*;

verus! {

/// How the pipeline classifies a line.
#[derive(Clone, Copy, PartialEq, Eq, Debug, Structural)]
pub enum LineKind {
    Cargo,
    Notice,
    Warning,
}

/// What a line of cargo's output announces.
#[derive(Debug, PartialEq, Eq)]
pub enum BuildEvent {
    Compiling { name: String, version: String },
    Finished,
    Error,
    Other,
}

/// Messages a build worker streams to the interface; the protocol mirrors the
/// pipeline's classification.
pub enum BuildMsg {
    /// cargo's own output: parsed for the gauge, kept for the tail.
    Cargo(String),
    /// The pipeline narrating itself; promoted to the live status.
    Notice(String),
    /// Kept past success: a shadowed binary does not stop being shadowed
    /// because the install succeeded.
    Warning(String),
    /// A privileged step wants sudo revalidated on a real terminal, for the
    /// named prefix. The worker blocks until the run loop answers.
    NeedAuth { target: String, purpose: AuthPurpose },
    /// A batch worker moving to the next member.
    MemberStarted { name: String },
    /// A batch member is done, classified by the worker.
    MemberDone { name: String, outcome: MemberOutcome },
    /// Finished, classified by the worker where the error is at hand.
    Done(BuildOutcome),
}

/// The render boundary in one function: every pipeline line becomes a message
/// here, sanitized, because past this point it is bound for the screen and
/// paths may hold ESC.
pub fn build_msg(kind: LineKind, line: &str) -> (r: BuildMsg)
    ensures
        match kind {
            LineKind::Cargo => r matches BuildMsg::Cargo(l) && l@ == sanitized(line@),
            LineKind::Notice => r matches BuildMsg::Notice(l) && l@ == sanitized(line@),
            LineKind::Warning => r matches BuildMsg::Warning(l) && l@ == sanitized(line@),
        },
{
    let line = sanitize(line);
    match kind {
        LineKind::Cargo => BuildMsg::Cargo(line),
        LineKind::Notice => BuildMsg::Notice(line),
        LineKind::Warning => BuildMsg::Warning(line),
    }
}

/// Why a build failed.
#[derive(Debug, PartialEq, Eq)]
pub enum BuildError {
    Refused(AuthorizationRefused),
    Other(String),
}

impl BuildError {
    /// The chain of causes.
    pub open spec fn text(self) -> Seq<char> {
        match self {
            BuildError::Refused(refused) => refused.text(),
            BuildError::Other(e) => e@,
        }
    }

    /// The chain of causes.
    pub fn chain(&self) -> (r: String)
        ensures
            r@ == self.text(),
    {
        match self {
            BuildError::Refused(refused) => refused.sentence(),
            BuildError::Other(e) => e.clone(),
        }
    }
}

/// How a build ended. `Cancelled` is a real pipeline outcome, not an
/// interpretation. `Migrated` carries the version the destination actually
/// committed: the frozen plan's version is what was confirmed, not necessarily
/// what was installed.
#[derive(Debug, PartialEq, Eq)]
pub enum BuildOutcome {
    Success,
    Migrated(Version),
    Cancelled,
    CompletedWithWarning(String),
    Failed(BuildError),
}

/// How a migration ended.
#[derive(Debug, PartialEq, Eq)]
pub enum MigrateOutcome {
    Moved { version: Version },
    /// Destination committed, source not retired.
    Incomplete(String),
}

/// The outcome of an error that ended a pipeline.
pub open spec fn ended_by(e: WorkError) -> BuildOutcome {
    match e {
        WorkError::Cancelled => BuildOutcome::Cancelled,
        WorkError::Refused(refused) => BuildOutcome::Failed(BuildError::Refused(refused)),
        WorkError::Other(e) => BuildOutcome::Failed(BuildError::Other(e)),
    }
}

fn outcome_of(e: WorkError) -> (r: BuildOutcome)
    ensures
        r == ended_by(e),
{
    match e {
        WorkError::Cancelled => BuildOutcome::Cancelled,
        WorkError::Refused(refused) => BuildOutcome::Failed(BuildError::Refused(refused)),
        WorkError::Other(e) => BuildOutcome::Failed(BuildError::Other(e)),
    }
}

/// How a single build ended, from its pipeline's result.
pub fn build_outcome(result: Result<(), WorkError>) -> (r: BuildOutcome)
    ensures
        r == match result {
            Ok(()) => BuildOutcome::Success,
            Err(e) => ended_by(e),
        },
{
    match result {
        Ok(()) => BuildOutcome::Success,
        Err(e) => outcome_of(e),
    }
}

/// How a migration ended, from its pipeline's result: classified once, by type
/// and data.
pub fn migrate_outcome(result: Result<MigrateOutcome, WorkError>) -> (r: BuildOutcome)
    ensures
        r == match result {
            Ok(MigrateOutcome::Moved { version }) => BuildOutcome::Migrated(version),
            Ok(MigrateOutcome::Incomplete(reason)) => BuildOutcome::CompletedWithWarning(reason),
            Err(e) => ended_by(e),
        },
{
    match result {
        Ok(MigrateOutcome::Moved { version }) => BuildOutcome::Migrated(version),
        Ok(MigrateOutcome::Incomplete(reason)) => BuildOutcome::CompletedWithWarning(reason),
        Err(e) => outcome_of(e),
    }
}

/// How a batch ended, from its worker's result: the batch's own end, not a
/// member's.
pub fn batch_outcome(result: Result<InstallBatchEnd, WorkError>) -> (r: BuildOutcome)
    ensures
        r == match result {
            Ok(InstallBatchEnd::Completed) => BuildOutcome::Success,
            Ok(InstallBatchEnd::Cancelled) => BuildOutcome::Cancelled,
            Err(e) => ended_by(e),
        },
{
    match result {
        Ok(InstallBatchEnd::Completed) => BuildOutcome::Success,
        Ok(InstallBatchEnd::Cancelled) => BuildOutcome::Cancelled,
        Err(e) => outcome_of(e),
    }
}

/// What the job builds toward; result lines are composed from this.
pub enum BuildKind {
    Install,
    /// The newest release, against a plan the person saw.
    Update,
    /// A rebuild of the entry as it stands.
    Reinstall,
    /// An install of an exact older version.
    Downgrade,
    Migrate(MigrateTarget),
}

impl BuildKind {
    /// The word for this job.
    pub open spec fn word(self) -> Seq<char> {
        match self {
            BuildKind::Install => "install"@,
            BuildKind::Downgrade => "downgrade"@,
            BuildKind::Reinstall => "reinstall"@,
            BuildKind::Update => "update"@,
            BuildKind::Migrate(_) => "migrate"@,
        }
    }

    /// The word for this job: one definition, so a live panel and the finished
    /// report cannot name the same build differently.
    pub fn verb(&self) -> (r: &'static str)
        ensures
            r@ == self.word(),
    {
        match self {
            BuildKind::Install => "install",
            BuildKind::Downgrade => "downgrade",
            BuildKind::Reinstall => "reinstall",
            BuildKind::Update => "update",
            BuildKind::Migrate(_) => "migrate",
        }
    }
}

/// Whatever is running now, asked the same way whoever is asking: one build, or
/// a batch, which knows which member holds its control.
#[derive(Clone, Copy, PartialEq, Eq, Debug, Structural)]
pub enum ActiveControl {
    Single,
    Batch,
}

impl ActiveControl {
    /// What a cancel reached: `member` is the answer of the build that was
    /// asked, `None` where a batch stands between two. There is no process to
    /// interrupt there and none to kill, so the gap is kept apart.
    pub fn request_cancel(self, member: Option<CancelOutcome>) -> (r: ActiveCancel)
        requires
            self == ActiveControl::Single ==> member is Some,
        ensures
            r == match member {
                Some(answer) => ActiveCancel::Build(answer),
                None => ActiveCancel::BatchBetweenMembers,
            },
    {
        match member {
            Some(answer) => ActiveCancel::Build(answer),
            None => ActiveCancel::BatchBetweenMembers,
        }
    }

    /// Whether what is running was told to stop: a single build by its own
    /// control, a batch by its intention to stop.
    pub fn cancelled(self, build: bool, batch: bool) -> (r: bool)
        ensures
            r == if self == ActiveControl::Single {
                build
            } else {
                batch
            },
    {
        match self {
            ActiveControl::Single => build,
            ActiveControl::Batch => batch,
        }
    }

    /// A batch outlives the member a cancel was too late for.
    pub fn is_batch(self) -> (r: bool)
        ensures
            r == (self == ActiveControl::Batch),
    {
        matches!(self, ActiveControl::Batch)
    }
}

/// A captured build: an install, an update, a reinstall, a downgrade, a
/// migration, or a batch or sweep over them.
pub struct BuildJob {
    pub name: String,
    /// Units started, not finished: cargo announces a unit when it begins.
    pub units_started: usize,
    /// The unit last announced by cargo.
    pub current: Option<String>,
    /// Rolling tail for the failure panel.
    pub tail: VecDeque<String>,
    /// The last pipeline notice, shown as the live status until cargo speaks
    /// again.
    pub status_note: Option<String>,
    /// Warnings; shown past a success, dropped on failure.
    pub warnings: Vec<String>,
    /// When the worker was spawned, in milliseconds.
    pub started: u64,
    /// A revalidation request, with the prefix the escalation is for.
    pub needs_auth: Option<(String, AuthPurpose)>,
    pub control: ActiveControl,
    /// What is being built toward.
    pub kind: BuildKind,
    /// When an accepted cancel's grace runs out, in milliseconds; one-shot.
    pub cancel_deadline: Option<u64>,
}

impl BuildJob {
    /// Whether this is a job that has just been started.
    pub open spec fn fresh(
        self,
        name: Seq<char>,
        kind: BuildKind,
        control: ActiveControl,
        now: u64,
    ) -> bool {
        &&& self.name@ == name
        &&& self.units_started == 0
        &&& self.current is None
        &&& self.tail@.len() == 0
        &&& self.status_note is None
        &&& self.warnings@.len() == 0
        &&& self.started == now
        &&& self.needs_auth is None
        &&& self.control == control
        &&& self.kind == kind
        &&& self.cancel_deadline is None
    }

    /// A job that has just been started.
    pub fn new(name: String, kind: BuildKind, control: ActiveControl, now: u64) -> (r: BuildJob)
        ensures
            r.fresh(name@, kind, control, now),
    {
        BuildJob {
            name,
            units_started: 0,
            current: None,
            tail: VecDeque::new(),
            status_note: None,
            warnings: Vec::new(),
            started: now,
            needs_auth: None,
            control,
            kind,
            cancel_deadline: None,
        }
    }
}

/// Background work in flight: at most one, so the busy label is unambiguous.
///
/// A one-shot's whole cancel model is a flag: running, cancel requested (the
/// slot is still held until the worker returns), finished or cancelled. No
/// grace, no escalation, no "too late": those belong to builds.
pub enum Job {
    Check { cancel: bool },
    /// The read-only audit; `started` in milliseconds.
    Verify { started: u64, cancel: bool },
    Search { query: String, cancel: bool },
    /// The registry asked about every entry here, pinned included.
    UpdateSweepCheck { cancel: bool },
    /// Every managed entry, frozen. No network.
    ReinstallPlan { cancel: bool },
    /// What the registry says now, for one crate.
    UpdatePlan { name: String, cancel: bool },
    /// The candidate lookup behind a downgrade.
    Downgrade { name: String, current: String, cancel: bool },
    Build(BuildJob),
}

impl Job {
    /// What the footer says while this job runs.
    pub open spec fn words(self) -> Seq<char> {
        match self {
            Job::Check { cancel } => if cancel {
                "cancelling the update check…"@
            } else {
                "checking crates.io for updates…"@
            },
            Job::Verify { cancel, .. } => if cancel {
                "verify: cancel requested…"@
            } else {
                "verifying the prefix…"@
            },
            Job::Search { query, cancel } => if cancel {
                "search `"@ + query@ + "`: cancel requested…"@
            } else {
                "searching crates.io for `"@ + query@ + "`…"@
            },
            Job::UpdateSweepCheck { cancel } => if cancel {
                "update check: cancel requested…"@
            } else {
                "checking crates.io for updates…"@
            },
            Job::ReinstallPlan { cancel } => if cancel {
                "reading the prefix: cancel requested…"@
            } else {
                "reading what is installed here…"@
            },
            Job::UpdatePlan { name, cancel } => if cancel {
                "version lookup for `"@ + name@ + "`: cancel requested…"@
            } else {
                "checking crates.io for an update to `"@ + name@ + "`…"@
            },
            Job::Downgrade { name, cancel, .. } => if cancel {
                "version lookup for `"@ + name@ + "`: cancel requested…"@
            } else {
                "asking crates.io which versions precede `"@ + name@ + "`…"@
            },
            Job::Build(build) => "building "@ + build.name@ + "…"@,
        }
    }

    /// What the footer says while this job runs. After a cancel the audit's
    /// label says "requested": it is not interrupted, and the label must not
    /// suggest a power the door does not have.
    pub fn label(&self) -> (r: String)
        ensures
            r@ == self.words(),
    {
        match self {
            Job::Check { cancel } => if *cancel {
                "cancelling the update check…".to_owned()
            } else {
                "checking crates.io for updates…".to_owned()
            },
            Job::Verify { cancel, .. } => if *cancel {
                "verify: cancel requested…".to_owned()
            } else {
                "verifying the prefix…".to_owned()
            },
            Job::Search { query, cancel } => if *cancel {
                cat3("search `", query, "`: cancel requested…")
            } else {
                cat3("searching crates.io for `", query, "`…")
            },
            Job::UpdateSweepCheck { cancel } => if *cancel {
                "update check: cancel requested…".to_owned()
            } else {
                "checking crates.io for updates…".to_owned()
            },
            Job::ReinstallPlan { cancel } => if *cancel {
                "reading the prefix: cancel requested…".to_owned()
            } else {
                "reading what is installed here…".to_owned()
            },
            Job::UpdatePlan { name, cancel } => if *cancel {
                cat3("version lookup for `", name, "`: cancel requested…")
            } else {
                cat3("checking crates.io for an update to `", name, "`…")
            },
            Job::Downgrade { name, cancel, .. } => if *cancel {
                cat3("version lookup for `", name, "`: cancel requested…")
            } else {
                cat3("asking crates.io which versions precede `", name, "`…")
            },
            Job::Build(build) => cat3("building ", build.name.as_str(), "…"),
        }
    }

    /// Whether a cancel was asked of this one-shot.
    pub open spec fn cancel_asked(self) -> bool {
        match self {
            Job::Check { cancel } => cancel,
            Job::Verify { cancel, .. } => cancel,
            Job::Search { cancel, .. } => cancel,
            Job::UpdateSweepCheck { cancel } => cancel,
            Job::ReinstallPlan { cancel } => cancel,
            Job::UpdatePlan { cancel, .. } => cancel,
            Job::Downgrade { cancel, .. } => cancel,
            Job::Build(_) => false,
        }
    }
}

/// One of the findings of an audit.
#[derive(Debug, PartialEq, Eq)]
pub struct Finding {
    pub message: String,
}

/// What an audit of a prefix found; `crates` is `None` where the manifest could
/// not be counted.
#[derive(Debug, PartialEq, Eq)]
pub struct VerifyReport {
    pub crates: Option<usize>,
    pub errors: Vec<Finding>,
    pub warnings: Vec<Finding>,
}

/// A message of a build worker, and what its line announces if it is one of
/// cargo's.
pub struct Delivered {
    pub msg: BuildMsg,
    pub event: BuildEvent,
}

/// What a look at the running job's channel brought.
pub enum JobEvent {
    /// Nothing new.
    Nothing,
    /// The worker is gone without an answer.
    Gone,
    Checked(Result<Option<Vec<Checked>>, String>),
    Verified(Result<VerifyReport, String>),
    Found(Result<Vec<Hit>, String>),
    Frozen(Result<Vec<(String, ReinstallPlan)>, String>),
    Planned(Result<UpdatePlan, String>),
    Candidates(Result<Vec<Version>, String>),
    /// A build's messages since the last look, and whether its worker is gone.
    Build { heard: VecDeque<Delivered>, gone: bool },
}

/// A build the run loop still has to start, because starting one needs the
/// terminal: the escalation preflight may have to ask for a password.
#[derive(Debug, PartialEq, Eq)]
pub struct PendingBuild {
    pub spec: String,
    pub locked: bool,
    pub intent: BuildIntent,
}

/// What the queued build is, which decides both the worker it reaches and the
/// word the record uses.
#[derive(Debug, PartialEq, Eq)]
pub enum BuildIntent {
    Install,
    /// The version the offer was computed against, re-checked under the
    /// worker's lock.
    Downgrade(String),
    Reinstall,
    /// What the entry said when the question was asked. Only this travels: the
    /// build asks for "the newest" again.
    Update { expected: String },
}

impl BuildIntent {
    /// The kind of job that this intent becomes.
    pub open spec fn job_kind(self) -> BuildKind {
        match self {
            BuildIntent::Downgrade(_) => BuildKind::Downgrade,
            BuildIntent::Reinstall => BuildKind::Reinstall,
            BuildIntent::Update { .. } => BuildKind::Update,
            BuildIntent::Install => BuildKind::Install,
        }
    }

    /// The kind of job that this intent becomes: the intent decides the word
    /// the record uses, as it decided the door the worker took.
    pub fn kind(&self) -> (r: BuildKind)
        ensures
            r == self.job_kind(),
    {
        match self {
            BuildIntent::Downgrade(_) => BuildKind::Downgrade,
            BuildIntent::Reinstall => BuildKind::Reinstall,
            BuildIntent::Update { .. } => BuildKind::Update,
            BuildIntent::Install => BuildKind::Install,
        }
    }
}

/// What the authorization door does next.
pub enum Gate {
    /// The door is open, or closed for good.
    Answer(Result<(), WorkError>),
    /// The interface has to collect credentials.
    Ask,
}

/// The authorization door that workers hand to the pipeline, before anyone is
/// asked: a cancelled build refuses rather than asking for a password it no
/// longer needs, and fresh credentials pass silently. `fresh` is what the probe
/// of the credentials said.
pub fn auth_gate(cancelled: bool, fresh: Result<bool, String>) -> (r: Gate)
    ensures
        r == if cancelled {
            Gate::Answer(Err(WorkError::Cancelled))
        } else {
            match fresh {
                Ok(true) => Gate::Answer(Ok(())),
                Ok(false) => Gate::Ask,
                Err(e) => Gate::Answer(Err(WorkError::Other(e))),
            }
        },
{
    if cancelled {
        return Gate::Answer(Err(WorkError::Cancelled));
    }
    match fresh {
        Ok(true) => Gate::Answer(Ok(())),
        Ok(false) => Gate::Ask,
        Err(e) => Gate::Answer(Err(WorkError::Other(e))),
    }
}

/// The door after the interface answered; `None` where it went away. A denial
/// that answers a cancel is the cancel; a refusal keeps its own name only when
/// it is one.
pub fn auth_answered(answer: Option<AuthAnswer>, cancelled: bool, purpose: AuthPurpose) -> (r: Result<
    (),
    WorkError,
>)
    ensures
        match answer {
            Some(AuthAnswer::Authorized) => r is Ok,
            Some(AuthAnswer::Refused(reason)) => r == Err::<(), WorkError>(
                if cancelled {
                    WorkError::Cancelled
                } else {
                    WorkError::Refused(AuthorizationRefused { purpose, reason })
                },
            ),
            None => r matches Err(WorkError::Other(e)) && e@
                == "the interface went away mid-authorization"@,
        },
{
    match answer {
        Some(AuthAnswer::Authorized) => Ok(()),
        Some(AuthAnswer::Refused(reason)) => if cancelled {
            Err(WorkError::Cancelled)
        } else {
            Err(WorkError::Refused(AuthorizationRefused { purpose, reason }))
        },
        None => Err(
            WorkError::Other("the interface went away mid-authorization".to_owned()),
        ),
    }
}

/// What a migration's escalation is for: one door, two phases, the destination
/// while placing, the source while retiring.
pub fn migration_purpose(is_source: bool) -> (r: AuthPurpose)
    ensures
        r == if is_source {
            AuthPurpose::Retirement
        } else {
            AuthPurpose::Placement
        },
{
    if is_source {
        AuthPurpose::Retirement
    } else {
        AuthPurpose::Placement
    }
}

/// A line keeps its kind on its way to the screen, and its text but for control
/// characters.
pub proof fn law_lines_keep_their_kind(kind: LineKind, line: &str, r: BuildMsg)
    requires
        call_ensures(build_msg, (kind, line), r),
    ensures
        r is Cargo <==> kind == LineKind::Cargo,
        r is Notice <==> kind == LineKind::Notice,
        r is Warning <==> kind == LineKind::Warning,
        r is Cargo ==> r->Cargo_0@ == sanitized(line@),
        r is Notice ==> r->Notice_0@ == sanitized(line@),
        r is Warning ==> r->Warning_0@ == sanitized(line@),
{
}

/// A build succeeded exactly where its pipeline did, and was cancelled exactly
/// where the person cancelled it; a refusal stays a refusal, and every other
/// error is the failure's own text.
pub proof fn law_a_build_ends_as_its_pipeline_did(result: Result<(), WorkError>, r: BuildOutcome)
    requires
        call_ensures(build_outcome, (result,), r),
    ensures
        r is Success <==> result is Ok,
        r is Cancelled <==> result is Err && result->Err_0 is Cancelled,
        r is Failed <==> result is Err && !(result->Err_0 is Cancelled),
        result is Err && result->Err_0 is Refused ==> r == BuildOutcome::Failed(
            BuildError::Refused(result->Err_0->Refused_0),
        ),
        result is Err && result->Err_0 is Other ==> r == BuildOutcome::Failed(
            BuildError::Other(result->Err_0->Other_0),
        ),
{
}

/// A migration is told as migrated exactly where the source was retired, at the
/// version that the destination committed; one that left the source standing is
/// completed with that reason as its warning.
pub proof fn law_a_migration_ends_as_its_pipeline_did(
    result: Result<MigrateOutcome, WorkError>,
    r: BuildOutcome,
)
    requires
        call_ensures(migrate_outcome, (result,), r),
    ensures
        r is Migrated <==> result is Ok && result->Ok_0 is Moved,
        r is Migrated ==> r->Migrated_0 == result->Ok_0->version,
        r is CompletedWithWarning <==> result is Ok && result->Ok_0 is Incomplete,
        r is CompletedWithWarning ==> r->CompletedWithWarning_0 == result->Ok_0->Incomplete_0,
        r is Cancelled <==> result is Err && result->Err_0 is Cancelled,
        r is Failed <==> result is Err && !(result->Err_0 is Cancelled),
        result is Err && result->Err_0 is Refused ==> r == BuildOutcome::Failed(
            BuildError::Refused(result->Err_0->Refused_0),
        ),
        result is Err && result->Err_0 is Other ==> r == BuildOutcome::Failed(
            BuildError::Other(result->Err_0->Other_0),
        ),
{
}

/// A batch ends by its own end, not by its members': completed, or cancelled.
pub proof fn law_a_batch_ends_by_its_own_end(
    result: Result<InstallBatchEnd, WorkError>,
    r: BuildOutcome,
)
    requires
        call_ensures(batch_outcome, (result,), r),
    ensures
        r is Success <==> result is Ok && result->Ok_0 is Completed,
        r is Cancelled <==> (result is Ok && result->Ok_0 is Cancelled) || (result is Err
            && result->Err_0 is Cancelled),
        r is Failed <==> result is Err && !(result->Err_0 is Cancelled),
        result is Err && result->Err_0 is Refused ==> r == BuildOutcome::Failed(
            BuildError::Refused(result->Err_0->Refused_0),
        ),
        result is Err && result->Err_0 is Other ==> r == BuildOutcome::Failed(
            BuildError::Other(result->Err_0->Other_0),
        ),
{
}

/// A job is called by what it does, and an intent becomes the job of its name.
pub proof fn law_a_job_is_called_what_it_is(
    intent: BuildIntent,
    kind: BuildKind,
    word: &'static str,
    target: MigrateTarget,
    migrate: &'static str,
)
    requires
        call_ensures(BuildIntent::kind, (&intent,), kind),
        call_ensures(BuildKind::verb, (&kind,), word),
        call_ensures(BuildKind::verb, (&BuildKind::Migrate(target),), migrate),
    ensures
        intent is Install ==> kind is Install && word@ == "install"@,
        intent is Update ==> kind is Update && word@ == "update"@,
        intent is Reinstall ==> kind is Reinstall && word@ == "reinstall"@,
        intent is Downgrade ==> kind is Downgrade && word@ == "downgrade"@,
        migrate@ == "migrate"@,
{
}

/// A cancel's answer is the answer of the build that it reached, and it reached
/// none exactly where there was none to reach. A single build is cancelled by its
/// own control, a batch by its intention to stop.
pub proof fn law_a_cancel_is_answered_by_what_runs(
    control: ActiveControl,
    member: Option<CancelOutcome>,
    r: ActiveCancel,
    build: bool,
    batch: bool,
    told: bool,
    is_batch: bool,
)
    requires
        control == ActiveControl::Single ==> member is Some,
        call_ensures(ActiveControl::request_cancel, (control, member), r),
        call_ensures(ActiveControl::cancelled, (control, build, batch), told),
        call_ensures(ActiveControl::is_batch, (control,), is_batch),
    ensures
        r is BatchBetweenMembers <==> member is None,
        r is Build ==> member == Some(r->Build_0),
        control is Single ==> told == build && !is_batch,
        control is Batch ==> told == batch && is_batch,
{
}

/// A job begins with nothing said, nothing built and nobody asked, under the name
/// and toward the end that it was started for.
pub proof fn law_a_job_begins_blank(
    name: String,
    kind: BuildKind,
    control: ActiveControl,
    now: u64,
    r: BuildJob,
)
    requires
        call_ensures(BuildJob::new, (name, kind, control, now), r),
    ensures
        r.name@ == name@,
        r.kind == kind,
        r.control == control,
        r.started == now,
        r.units_started == 0,
        r.current is None && r.status_note is None,
        r.tail@.len() == 0 && r.warnings@.len() == 0,
        r.needs_auth is None && r.cancel_deadline is None,
{
}

/// What is said of a running job names what it is about: the query, or the crate.
pub proof fn law_a_label_names_its_subject(job: Job, r: String)
    requires
        call_ensures(Job::label, (&job,), r),
    ensures
        match job {
            Job::Search { query, cancel } => r@ == if cancel {
                "search `"@ + query@ + "`: cancel requested…"@
            } else {
                "searching crates.io for `"@ + query@ + "`…"@
            },
            Job::UpdatePlan { name, cancel } => r@ == if cancel {
                "version lookup for `"@ + name@ + "`: cancel requested…"@
            } else {
                "checking crates.io for an update to `"@ + name@ + "`…"@
            },
            Job::Downgrade { name, cancel, .. } => r@ == if cancel {
                "version lookup for `"@ + name@ + "`: cancel requested…"@
            } else {
                "asking crates.io which versions precede `"@ + name@ + "`…"@
            },
            Job::Build(build) => r@ == "building "@ + build.name@ + "…"@,
            Job::Check { cancel } => r@ == if cancel {
                "cancelling the update check…"@
            } else {
                "checking crates.io for updates…"@
            },
            Job::Verify { cancel, .. } => r@ == if cancel {
                "verify: cancel requested…"@
            } else {
                "verifying the prefix…"@
            },
            Job::UpdateSweepCheck { cancel } => r@ == if cancel {
                "update check: cancel requested…"@
            } else {
                "checking crates.io for updates…"@
            },
            Job::ReinstallPlan { cancel } => r@ == if cancel {
                "reading the prefix: cancel requested…"@
            } else {
                "reading what is installed here…"@
            },
        },
{
}

/// The door asks for a password exactly where one is needed and the build still
/// wants it: a cancelled build is turned away, fresh credentials pass, and a
/// probe that failed says why.
pub proof fn law_the_door_asks_only_where_it_must(cancelled: bool, fresh: Result<bool, String>, r: Gate)
    requires
        call_ensures(auth_gate, (cancelled, fresh), r),
    ensures
        r is Ask <==> !cancelled && fresh == Ok::<bool, String>(false),
        cancelled ==> r is Answer && r->Answer_0 == Err::<(), WorkError>(WorkError::Cancelled),
        r is Answer && r->Answer_0 is Ok <==> !cancelled && fresh == Ok::<bool, String>(true),
        !cancelled && fresh is Err ==> r is Answer && r->Answer_0 == Err::<(), WorkError>(
            WorkError::Other(fresh->Err_0),
        ),
{
}

/// The door opens exactly where it was authorized. A refusal is the cancel where
/// there is one, and else a refusal of that very step for that very reason.
pub proof fn law_the_door_opens_only_when_authorized(
    answer: Option<AuthAnswer>,
    cancelled: bool,
    purpose: AuthPurpose,
    r: Result<(), WorkError>,
)
    requires
        call_ensures(auth_answered, (answer, cancelled, purpose), r),
    ensures
        r is Ok <==> answer == Some(AuthAnswer::Authorized),
        answer is Some && answer->0 is Refused && cancelled ==> r->Err_0 is Cancelled,
        answer is Some && answer->0 is Refused && !cancelled ==> r->Err_0 is Refused
            && r->Err_0->Refused_0.purpose == purpose && r->Err_0->Refused_0.reason
            == answer->0->Refused_0,
        answer is None ==> r->Err_0 is Other,
{
}

/// A migration places at its destination and retires at its source.
pub proof fn law_a_source_is_retired(is_source: bool, r: AuthPurpose)
    requires
        call_ensures(migration_purpose, (is_source,), r),
    ensures
        r is Retirement <==> is_source,
        r is Placement <==> !is_source,
{
}

/// A failure's text is the error's own, or the sentence of its refusal.
pub proof fn law_a_failure_says_its_cause(e: BuildError, r: String)
    requires
        call_ensures(BuildError::chain, (&e,), r),
    ensures
        e is Other ==> r@ == e->Other_0@,
        e is Refused ==> r@ == e->Refused_0.text(),
{
}

} // verus!
