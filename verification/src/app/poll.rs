//! The collector: what the running job's channel brought, and what it changes.
use super::finish::{build_finished, live_warnings_shown};
use super::oneshot::{
    check_finished, downgrade_offered, rebuild_planned, search_finished, update_planned,
    verify_finished,
};
use super::{App, Finished, Flow, BUILD_TAIL};
use crate::batch::{member_filed, InstallBatch, InstallSection, MemberOutcome};
use crate::job::{BuildEvent, BuildJob, BuildMsg, BuildOutcome, Delivered, Job, JobEvent};
use crate::state::MessageKind;
use crate::text::{cat3, texts};
use std::collections::VecDeque;
use vstd::prelude::*;

verus! {

/// A rolling tail with one more line: the oldest leaves once there are too many.
pub open spec fn rolled(tail: Seq<String>, line: String) -> Seq<String> {
    if tail.len() >= BUILD_TAIL {
        tail.push(line).drop_first()
    } else {
        tail.push(line)
    }
}

/// What one message of a build worker changes, in the interface and in the job.
///
/// Warnings live in `warnings` alone, and reach the panel on receipt. A batch's
/// framing scopes them: what was said before the first member belongs to the
/// plan, and each member has its own warnings and its own tail.
pub open spec fn heard(before: App, job: BuildJob, d: Delivered, after: App, now: BuildJob) -> bool {
    match d.msg {
        BuildMsg::Cargo(line) => {
            &&& after == before
            &&& now == (BuildJob {
                units_started: now.units_started,
                current: now.current,
                tail: now.tail,
                status_note: None,
                ..job
            })
            &&& now.tail@ == rolled(job.tail@, line)
            &&& match d.event {
                BuildEvent::Compiling { name, version } => now.units_started == job.units_started
                    + 1 && (now.current matches Some(unit) && unit@ == name@ + " "@ + version@),
                BuildEvent::Finished => now.units_started == job.units_started
                    && now.current is None,
                _ => now.units_started == job.units_started && now.current == job.current,
            }
        },
        BuildMsg::Notice(line) => {
            &&& after == before
            &&& now == (BuildJob { tail: now.tail, status_note: Some(line), ..job })
            &&& now.tail@ == rolled(job.tail@, line)
        },
        BuildMsg::Warning(line) => {
            &&& now == (BuildJob { warnings: now.warnings, ..job })
            &&& now.warnings@ == job.warnings@.push(line)
            &&& live_warnings_shown(before, job.name@, job.kind, texts(now.warnings@), after)
        },
        BuildMsg::NeedAuth { target, purpose } => {
            &&& after == before
            &&& now == (BuildJob { needs_auth: Some((target, purpose)), ..job })
        },
        BuildMsg::MemberStarted { name } => {
            &&& now == (BuildJob {
                tail: now.tail,
                status_note: None,
                warnings: now.warnings,
                ..job
            })
            &&& now.tail@.len() == 0
            &&& after == (App { install_batch: after.install_batch, ..before })
            &&& match before.install_batch {
                None => after.install_batch is None && now.warnings == job.warnings,
                Some(b) => {
                    &&& now.warnings@.len() == 0
                    &&& after.install_batch matches Some(a) && a == (InstallBatch {
                        current: a.current,
                        attempted: (b.attempted + 1) as usize,
                        plan_warnings: a.plan_warnings,
                        ..b
                    }) && (a.current matches Some(n) && n@ == name@) && a.plan_warnings@
                        == if b.attempted == 0 {
                        b.plan_warnings@ + job.warnings@
                    } else {
                        b.plan_warnings@
                    }
                },
            }
        },
        BuildMsg::MemberDone { name, outcome } => {
            &&& now == (BuildJob { tail: now.tail, warnings: now.warnings, ..job })
            &&& now.tail@.len() == 0
            &&& now.warnings@.len() == 0
            &&& after == (App { install_batch: after.install_batch, ..before })
            &&& match before.install_batch {
                None => after.install_batch is None,
                Some(b) => after.install_batch matches Some(a) && a == (InstallBatch {
                    runner: a.runner,
                    current: None,
                    ..b
                }) && member_filed(
                    b.runner,
                    a.runner,
                    name@,
                    outcome,
                    texts(job.warnings@),
                    texts(job.tail@),
                ),
            }
        },
        BuildMsg::Done(_) => false,
    }
}

/// The states that these messages lead through, one message after the other.
pub open spec fn chained(msgs: Seq<Delivered>, apps: Seq<App>, jobs: Seq<BuildJob>) -> bool {
    &&& apps.len() == msgs.len() + 1
    &&& jobs.len() == msgs.len() + 1
    &&& forall|i: int|
        0 <= i < msgs.len() ==> heard(
            apps[i],
            jobs[i],
            #[trigger] msgs[i],
            apps[i + 1],
            jobs[i + 1],
        )
}

/// What these messages change, in order.
pub open spec fn heard_all(
    before: App,
    job: BuildJob,
    msgs: Seq<Delivered>,
    after: App,
    now: BuildJob,
) -> bool {
    exists|apps: Seq<App>, jobs: Seq<BuildJob>|
        {
            &&& #[trigger] chained(msgs, apps, jobs)
            &&& apps[0] == before
            &&& jobs[0] == job
            &&& apps.last() == after
            &&& jobs.last() == now
        }
}

/// The position of the message that ends a build; the number of messages where
/// none does.
pub open spec fn done_at(msgs: Seq<Delivered>) -> int
    decreases msgs.len(),
{
    if msgs.len() == 0 {
        0
    } else if msgs[0].msg is Done {
        0
    } else {
        1 + done_at(msgs.drop_first())
    }
}

/// Whether a batch has a section for every outcome among these messages.
pub open spec fn outcomes_fit(app: App, msgs: Seq<Delivered>) -> bool {
    app.install_batch matches Some(b) ==> forall|i: int|
        0 <= i < msgs.len() ==> ((#[trigger] msgs[i]).msg matches BuildMsg::MemberDone {
            outcome,
            ..
        } ==> b.takes(outcome))
}

/// Whether the counters have room for this many messages.
pub open spec fn counters_fit(app: App, job: BuildJob, n: nat) -> bool {
    &&& job.units_started + n <= usize::MAX
    &&& app.install_batch matches Some(b) ==> b.attempted + n <= usize::MAX && b.runner.succeeded
        + n <= usize::MAX
}

/// What a worker that went away without an answer is told to be.
pub open spec fn gone_text(job: Job) -> Seq<char> {
    (match job {
        Job::Check { .. } | Job::UpdateSweepCheck { .. } => "update check worker"@,
        Job::ReinstallPlan { .. } => "prefix reader"@,
        Job::UpdatePlan { .. } | Job::Downgrade { .. } => "version lookup worker"@,
        Job::Verify { .. } => "verify worker"@,
        Job::Search { .. } => "search worker"@,
        Job::Build(_) => "build worker"@,
    }) + " aborted; the terminal was reset by the panic"@
}

/// What is said of a one-shot whose answer is discarded, because a cancel was
/// asked before it arrived.
pub open spec fn discarded_text(job: Job) -> Seq<char> {
    match job {
        Job::Check { .. } | Job::UpdateSweepCheck { .. } => "update check cancelled"@,
        Job::ReinstallPlan { .. } => "rebuild cancelled"@,
        Job::UpdatePlan { name, .. } => "version lookup for `"@ + name@ + "` cancelled"@,
        Job::Downgrade { name, .. } => "version lookup for `"@ + name@ + "` cancelled"@,
        Job::Verify { .. } => "verify cancelled — the result was discarded"@,
        Job::Search { query, .. } => "search for `"@ + query@ + "` cancelled"@,
        Job::Build(_) => Seq::empty(),
    }
}

/// Whether an event is one that this job's channel brings.
pub open spec fn fits(job: Job, event: JobEvent) -> bool {
    match event {
        JobEvent::Nothing | JobEvent::Gone => !(job is Build),
        JobEvent::Checked(_) => job is Check || job is UpdateSweepCheck,
        JobEvent::Verified(_) => job is Verify,
        JobEvent::Found(_) => job is Search,
        JobEvent::Frozen(_) => job is ReinstallPlan,
        JobEvent::Planned(_) => job is UpdatePlan,
        JobEvent::Candidates(_) => job is Downgrade,
        JobEvent::Build { .. } => job is Build,
    }
}

/// What is said at once: a message, and nothing else.
pub open spec fn told(before: App, text: Seq<char>, kind: MessageKind, after: App) -> bool {
    after == (App { message: after.message, ..before }) && after.says(text, kind)
}

/// What the answer of a one-shot changes, its slot being free again.
pub open spec fn answered(free: App, job: Job, event: JobEvent, after: App, flow: Flow) -> bool {
    match event {
        JobEvent::Checked(result) => check_finished(
            free,
            result,
            job is UpdateSweepCheck,
            after,
            flow,
        ),
        JobEvent::Verified(result) => flow is Done && verify_finished(free, result, after),
        JobEvent::Found(result) => search_finished(free, job->query, result, after, flow),
        JobEvent::Frozen(result) => flow is Done && match result {
            Ok(planned) => rebuild_planned(free, planned, after),
            Err(e) => told(free, e@, MessageKind::Error, after),
        },
        JobEvent::Planned(result) => flow is Done && match result {
            Ok(plan) => update_planned(free, job->UpdatePlan_name, plan, after),
            Err(e) => told(free, e@, MessageKind::Error, after),
        },
        JobEvent::Candidates(result) => flow is Done && match result {
            Ok(candidates) => downgrade_offered(
                free,
                job->Downgrade_name,
                job->current,
                candidates@,
                after,
            ),
            Err(e) => told(free, e@, MessageKind::Error, after),
        },
        _ => true,
    }
}

/// What a build's messages change: each of them in order up to the one that ends
/// the build; then the build is finished, or its worker is gone, or it goes on.
/// A Ctrl-C during the build asked to leave once the worker was collected.
pub open spec fn build_polled(
    before: App,
    job: BuildJob,
    msgs: Seq<Delivered>,
    gone: bool,
    after: App,
    r: Result<Flow, String>,
) -> bool {
    let n = done_at(msgs);
    let free = App { job: None, ..before };
    exists|mid: App, now: BuildJob|
        {
            &&& #[trigger] heard_all(free, job, msgs.take(n), mid, now)
            &&& if n < msgs.len() {
                &&& r matches Ok(flow) && build_finished(
                    mid,
                    Finished {
                        name: now.name,
                        kind: now.kind,
                        outcome: msgs[n].msg->Done_0,
                        tail: now.tail,
                        warnings: now.warnings,
                    },
                    App { should_quit: mid.should_quit, ..after },
                    flow,
                )
                &&& after.should_quit == (mid.should_quit || mid.quit_after_build)
            } else if gone {
                &&& after == mid
                &&& r matches Err(e) && e@ == gone_text(Job::Build(job))
            } else {
                &&& after == (App { job: Some(Job::Build(now)), ..mid })
                &&& r matches Ok(Flow::Done)
            }
        }
}

/// What a look at the running job's channel changes. The collector is the last
/// cancel boundary: an answer that arrives after the person already said no is
/// discarded, whatever it is.
pub open spec fn polled(before: App, event: JobEvent, after: App, r: Result<Flow, String>) -> bool {
    match before.job {
        None => after == before && r matches Ok(Flow::Done),
        Some(job) => {
            let free = App { job: None, ..before };
            match event {
                JobEvent::Build { heard, gone } => build_polled(
                    before,
                    job->Build_0,
                    heard@,
                    gone,
                    after,
                    r,
                ),
                JobEvent::Nothing => after == before && r matches Ok(Flow::Done),
                JobEvent::Gone => after == free && (r matches Err(e) && e@ == gone_text(job)),
                _ => if job.cancel_asked() {
                    &&& told(free, discarded_text(job), MessageKind::Info, after)
                    &&& r matches Ok(Flow::Done)
                } else {
                    r matches Ok(flow) && answered(free, job, event, after, flow)
                },
            }
        },
    }
}

proof fn lemma_done_at(msgs: Seq<Delivered>, at: int)
    requires
        0 <= at <= msgs.len(),
        forall|i: int| 0 <= i < at ==> !((#[trigger] msgs[i]).msg is Done),
        at < msgs.len() ==> msgs[at].msg is Done,
    ensures
        done_at(msgs) == at,
    decreases msgs.len(),
{
    if at > 0 {
        let rest = msgs.drop_first();
        assert(!(msgs[0].msg is Done));
        assert forall|i: int| 0 <= i < at - 1 implies !((#[trigger] rest[i]).msg is Done) by {
            assert(rest[i] == msgs[i + 1]);
        }
        lemma_done_at(rest, at - 1);
    }
}

proof fn lemma_heard_one_more(
    before: App,
    job: BuildJob,
    msgs: Seq<Delivered>,
    mid: App,
    then: BuildJob,
    d: Delivered,
    after: App,
    now: BuildJob,
)
    requires
        heard_all(before, job, msgs, mid, then),
        heard(mid, then, d, after, now),
    ensures
        heard_all(before, job, msgs.push(d), after, now),
{
    let (apps, jobs) = choose|apps: Seq<App>, jobs: Seq<BuildJob>|
        {
            &&& #[trigger] chained(msgs, apps, jobs)
            &&& apps[0] == before
            &&& jobs[0] == job
            &&& apps.last() == mid
            &&& jobs.last() == then
        };
    let (more, jobs_more) = (apps.push(after), jobs.push(now));
    assert forall|i: int| 0 <= i < msgs.len() + 1 implies heard(
        more[i],
        jobs_more[i],
        #[trigger] msgs.push(d)[i],
        more[i + 1],
        jobs_more[i + 1],
    ) by {
        if i < msgs.len() {
            assert(msgs.push(d)[i] == msgs[i]);
        }
    }
    assert(chained(msgs.push(d), more, jobs_more));
}

proof fn lemma_heard_none(before: App, job: BuildJob)
    ensures
        heard_all(before, job, Seq::empty(), before, job),
{
    assert(chained(Seq::empty(), seq![before], seq![job]));
}

pub(crate) proof fn lemma_takes_stay(before: App, job: BuildJob, d: Delivered, after: App, now: BuildJob)
    requires
        heard(before, job, d, after, now),
        before.valid(),
        before.install_batch matches Some(b) ==> (d.msg matches BuildMsg::MemberDone { outcome, .. }
            ==> b.takes(outcome)),
    ensures
        after.valid(),
        before.install_batch is Some <==> after.install_batch is Some,
        before.install_batch matches Some(b) ==> forall|outcome: MemberOutcome|
            b.takes(outcome) ==> after.install_batch->0.takes(outcome),
{
    if before.install_batch is Some {
        let b = before.install_batch->0;
        let a = after.install_batch->0;
        match d.msg {
            BuildMsg::MemberDone { name, outcome } => {
                match crate::batch::filing(outcome, texts(job.warnings@), texts(job.tail@)) {
                    None => {},
                    Some((key, lines)) => {
                        super::finish::lemma_filed_one(
                            b.runner.sections@,
                            a.runner.sections@,
                            key,
                            name@,
                            lines,
                            InstallSection::Failed,
                        );
                        super::finish::lemma_filed_one(
                            b.runner.sections@,
                            a.runner.sections@,
                            key,
                            name@,
                            lines,
                            InstallSection::Refused,
                        );
                        super::finish::lemma_filed_one(
                            b.runner.sections@,
                            a.runner.sections@,
                            key,
                            name@,
                            lines,
                            InstallSection::Noticed,
                        );
                        super::finish::lemma_filed_one(
                            b.runner.sections@,
                            a.runner.sections@,
                            key,
                            name@,
                            lines,
                            InstallSection::Skipped,
                        );
                    },
                }
            },
            _ => {},
        }
    }
}

/// One more line for the rolling tail.
fn roll(tail: &mut VecDeque<String>, line: String)
    ensures
        final(tail)@ == rolled(old(tail)@, line),
{
    let full = tail.len() >= BUILD_TAIL;
    tail.push_back(line);
    if full {
        let ghost whole = tail@;
        let _ = tail.pop_front();
        assert(tail@ =~= whole.drop_first());
    }
}

/// The kind of worker, for what is said when it went away.
fn worker_word(job: &Job) -> (r: String)
    ensures
        r@ == gone_text(*job),
{
    let who = match job {
        Job::Check { .. } | Job::UpdateSweepCheck { .. } => "update check worker",
        Job::ReinstallPlan { .. } => "prefix reader",
        Job::UpdatePlan { .. } | Job::Downgrade { .. } => "version lookup worker",
        Job::Verify { .. } => "verify worker",
        Job::Search { .. } => "search worker",
        Job::Build(_) => "build worker",
    };
    crate::text::cat(who, " aborted; the terminal was reset by the panic")
}

impl App {
    /// One message of a build worker.
    fn hear(&mut self, job: &mut BuildJob, d: Delivered)
        requires
            old(self).valid(),
            !(d.msg is Done),
            counters_fit(*old(self), *old(job), 1),
            old(self).install_batch matches Some(b) ==> (d.msg matches BuildMsg::MemberDone {
                outcome,
                ..
            } ==> b.takes(outcome)),
        ensures
            heard(*old(self), *old(job), d, *final(self), *final(job)),
    {
        match d.msg {
            BuildMsg::Cargo(line) => {
                match d.event {
                    BuildEvent::Compiling { name, version } => {
                        job.units_started = job.units_started + 1;
                        job.current = Some(cat3(name.as_str(), " ", version.as_str()));
                    },
                    BuildEvent::Finished => {
                        job.current = None;
                    },
                    _ => {},
                }
                job.status_note = None;
                roll(&mut job.tail, line);
            },
            BuildMsg::Notice(line) => {
                job.status_note = Some(line.clone());
                roll(&mut job.tail, line);
            },
            BuildMsg::Warning(line) => {
                job.warnings.push(line);
                self.show_live_warnings(job.name.as_str(), &job.kind, &job.warnings);
            },
            BuildMsg::NeedAuth { target, purpose } => {
                job.needs_auth = Some((target, purpose));
            },
            BuildMsg::MemberStarted { name } => {
                match self.install_batch.take() {
                    None => {},
                    Some(mut batch) => {
                        let mut said: Vec<String> = Vec::new();
                        std::mem::swap(&mut said, &mut job.warnings);
                        batch.begin_member(name.as_str(), said);
                        self.install_batch = Some(batch);
                    },
                }
                job.tail = VecDeque::new();
                job.status_note = None;
            },
            BuildMsg::MemberDone { name, outcome } => {
                let mut spoken: Vec<String> = Vec::new();
                std::mem::swap(&mut spoken, &mut job.warnings);
                let mut tail: VecDeque<String> = VecDeque::new();
                std::mem::swap(&mut tail, &mut job.tail);
                match self.install_batch.take() {
                    None => {},
                    Some(mut batch) => {
                        batch.finish_member(name.as_str(), &outcome, spoken, &tail);
                        self.install_batch = Some(batch);
                    },
                }
            },
            BuildMsg::Done(_) => {},
        }
    }

    /// A build's messages since the last look: drained to the last, since one
    /// line per tick would lag a fast build by minutes.
    fn poll_build(&mut self, job: BuildJob, heard: VecDeque<Delivered>, gone: bool) -> (r: Result<
        Flow,
        String,
    >)
        requires
            old(self).job is None,
            old(self).valid(),
            outcomes_fit(*old(self), heard@),
            counters_fit(*old(self), job, heard@.len()),
        ensures
            build_polled(*old(self), job, heard@, gone, *final(self), r),
    {
        let ghost free = *self;
        let ghost msgs = heard@;
        let mut now = job;
        let mut queue = heard;
        let mut at: usize = 0;
        proof {
            lemma_heard_none(*self, job);
            assert(msgs.take(0) =~= Seq::<Delivered>::empty());
            assert(msgs.skip(0) =~= msgs);
            assert(free == App { job: None, ..*old(self) });
        }
        loop
            invariant
                at <= msgs.len(),
                msgs == heard@,
                queue@ == msgs.skip(at as int),
                msgs.len() <= usize::MAX,
                free == (App { job: None, ..*old(self) }),
                heard_all(free, job, msgs.take(at as int), *self, now),
                forall|i: int| 0 <= i < at ==> !((#[trigger] msgs[i]).msg is Done),
                self.valid(),
                outcomes_fit(*self, msgs),
                counters_fit(*self, now, (msgs.len() - at) as nat),
            ensures
                at == msgs.len(),
                heard_all(free, job, msgs.take(at as int), *self, now),
                forall|i: int| 0 <= i < at ==> !((#[trigger] msgs[i]).msg is Done),
            decreases msgs.len() - at,
        {
            let ghost mid = *self;
            let ghost then = now;
            match queue.pop_front() {
                None => {
                    break ;
                },
                Some(d) => {
                    assert(d == msgs[at as int]);
                    assert(queue@ =~= msgs.skip(at + 1));
                    if matches!(d.msg, BuildMsg::Done(_)) {
                        proof {
                            lemma_done_at(msgs, at as int);
                        }
                        let outcome = match d.msg {
                            BuildMsg::Done(outcome) => outcome,
                            _ => BuildOutcome::Cancelled,
                        };
                        let fin = Finished {
                            name: now.name,
                            kind: now.kind,
                            outcome,
                            tail: now.tail,
                            warnings: now.warnings,
                        };
                        let flow = self.finish_build(fin);
                        if self.quit_after_build {
                            self.should_quit = true;
                        }
                        assert(heard_all(free, job, msgs.take(done_at(msgs)), mid, then));
                        return Ok(flow);
                    }
                    self.hear(&mut now, d);
                    proof {
                        lemma_takes_stay(mid, then, d, *self, now);
                        lemma_heard_one_more(
                            free,
                            job,
                            msgs.take(at as int),
                            mid,
                            then,
                            d,
                            *self,
                            now,
                        );
                        assert(msgs.take(at as int).push(d) =~= msgs.take(at + 1));
                    }
                    at = at + 1;
                },
            }
        }
        proof {
            lemma_done_at(msgs, at as int);
            assert(heard_all(free, job, msgs.take(done_at(msgs)), *self, now));
        }
        if gone {
            return Err(
                crate::text::cat("build worker", " aborted; the terminal was reset by the panic"),
            );
        }
        self.job = Some(Job::Build(now));
        Ok(Flow::Done)
    }
}

impl App {
    /// Collects finished background work. A worker that went away without an
    /// answer panicked, and the loop ends with that error rather than scribble
    /// over the shell.
    pub fn poll_job(&mut self, event: JobEvent) -> (r: Result<Flow, String>)
        requires
            old(self).valid(),
            old(self).job matches Some(job) ==> fits(job, event),
            old(self).job matches Some(Job::Build(job)) ==> (event matches JobEvent::Build {
                heard,
                ..
            } ==> outcomes_fit(*old(self), heard@) && counters_fit(
                *old(self),
                job,
                heard@.len(),
            )),
        ensures
            polled(*old(self), event, *final(self), r),
    {
        let job = match self.job.take() {
            None => {
                return Ok(Flow::Done);
            },
            Some(job) => job,
        };
        match event {
            JobEvent::Nothing => {
                self.job = Some(job);
                return Ok(Flow::Done);
            },
            JobEvent::Gone => {
                return Err(worker_word(&job));
            },
            _ => {},
        }
        match job {
            Job::UpdateSweepCheck { cancel } => match event {
                JobEvent::Checked(result) => if cancel {
                    self.info("update check cancelled");
                    Ok(Flow::Done)
                } else {
                    Ok(self.finish_check(result, true))
                },
                _ => Ok(Flow::Done),
            },
            Job::Check { cancel } => match event {
                JobEvent::Checked(result) => if cancel {
                    self.info("update check cancelled");
                    Ok(Flow::Done)
                } else {
                    Ok(self.finish_check(result, false))
                },
                _ => Ok(Flow::Done),
            },
            Job::ReinstallPlan { cancel } => match event {
                JobEvent::Frozen(result) => {
                    if cancel {
                        self.info("rebuild cancelled");
                    } else {
                        match result {
                            Ok(planned) => self.finish_reinstall_plan(planned),
                            Err(e) => self.error(e.as_str()),
                        }
                    }
                    Ok(Flow::Done)
                },
                _ => Ok(Flow::Done),
            },
            Job::UpdatePlan { name, cancel } => match event {
                JobEvent::Planned(result) => {
                    if cancel {
                        self.info(
                            cat3("version lookup for `", name.as_str(), "` cancelled").as_str(),
                        );
                    } else {
                        match result {
                            Ok(plan) => self.finish_update_plan(name, plan),
                            Err(e) => self.error(e.as_str()),
                        }
                    }
                    Ok(Flow::Done)
                },
                _ => Ok(Flow::Done),
            },
            Job::Downgrade { name, current, cancel } => match event {
                JobEvent::Candidates(result) => {
                    if cancel {
                        self.info(
                            cat3("version lookup for `", name.as_str(), "` cancelled").as_str(),
                        );
                    } else {
                        match result {
                            Ok(candidates) => self.finish_downgrade(name, current, candidates),
                            Err(e) => self.error(e.as_str()),
                        }
                    }
                    Ok(Flow::Done)
                },
                _ => Ok(Flow::Done),
            },
            Job::Verify { cancel, .. } => match event {
                JobEvent::Verified(result) => {
                    if cancel {
                        self.info("verify cancelled — the result was discarded");
                    } else {
                        self.finish_verify(result);
                    }
                    Ok(Flow::Done)
                },
                _ => Ok(Flow::Done),
            },
            Job::Search { query, cancel } => match event {
                JobEvent::Found(result) => if cancel {
                    self.info(cat3("search for `", query.as_str(), "` cancelled").as_str());
                    Ok(Flow::Done)
                } else {
                    Ok(self.finish_search(query, result))
                },
                _ => Ok(Flow::Done),
            },
            Job::Build(build) => match event {
                JobEvent::Build { heard, gone } => self.poll_build(build, heard, gone),
                _ => Ok(Flow::Done),
            },
        }
    }
}

/// The tail never grows past its bound, and its newest line is the last one
/// heard.
pub proof fn law_the_tail_is_bounded(tail: Seq<String>, line: String)
    requires
        tail.len() <= BUILD_TAIL,
    ensures
        rolled(tail, line).len() <= BUILD_TAIL,
        rolled(tail, line).last() == line,
{
}

/// An answer that arrives after a cancel changes nothing but the footer, and
/// frees the slot, whatever the answer is: nothing is recorded, pinned, asked or
/// started.
pub proof fn law_cancelled_answers_are_discarded(
    before: App,
    event: JobEvent,
    after: App,
    r: Result<Flow, String>,
)
    requires
        before.job matches Some(job) && job.cancel_asked() && fits(job, event),
        !(event is Nothing) && !(event is Gone),
        polled(before, event, after, r),
    ensures
        after == (App { job: None, message: after.message, ..before }),
        after.says(discarded_text(before.job->0), MessageKind::Info),
        r matches Ok(Flow::Done),
{
}

/// A look that brings nothing changes nothing.
pub proof fn law_a_quiet_look_changes_nothing(
    before: App,
    event: JobEvent,
    after: App,
    r: Result<Flow, String>,
)
    requires
        event is Nothing,
        polled(before, event, after, r),
    ensures
        after == before,
{
}

} // verus!
