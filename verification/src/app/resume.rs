//! What the answers from outside change: a reload, a cancel's answer, the other
//! prefix, a probe, a mutation.
use super::finish::{batch_told, build_told, step_done};
use super::oneshot::{check_begun, refused_with, search_shown};
use super::poll::told;
use super::{
    list_reread, read_answer, reload_says, relisted, rows_reread, AfterReload, App, CancelFor, Flow,
    PairFor, PrefixRead, CANCEL_GRACE,
};
use crate::batch::processed;
use crate::decimal::{count_of, decimal};
use crate::job::{ActiveControl, BuildJob, Job};
use crate::ops::{TuiRemove, TuiSetPinned};
use crate::state::{
    action_label, ActiveCancel, CancelOutcome, Confirm, MessageKind, MigrationSnapshot, OnConfirm,
    PendingAction, PendingInPlace, PendingMigrate, ReloadOutcome, Row, SearchResult,
};
use crate::text::{
    cat, cat3, cat4, cat5, cat6, first_named, join, joined, lemma_first_named,
    lemma_first_named_is, same, sanitized, texts,
};
use crate::version::is_semver;
use vstd::prelude::*;

verus! {

/// What a reload that only has to be told changes: the list, and what the footer
/// says of a failure or of success. The degraded message stands as the reload
/// left it: it is the one thing worth knowing.
pub open spec fn reload_told(
    before: App,
    read: PrefixRead,
    failed: Seq<char>,
    loaded: Seq<char>,
    after: App,
) -> bool {
    &&& relisted(before, read, after)
    &&& after == (App {
        message: after.message,
        search_result: None,
        downgrade_choice: None,
        rows: after.rows,
        report_age: after.report_age,
        selected: after.selected,
        manifest_error: after.manifest_error,
        ..before
    })
    &&& match read_answer(read.manifest) {
        Err(e) => after.says(failed + e@, MessageKind::Error),
        Ok(ReloadOutcome::Degraded) => after.says(super::degraded_text(), MessageKind::Error),
        Ok(ReloadOutcome::Loaded) => after.says(loaded, MessageKind::Info),
    }
}

/// What is said of a pin: set or lifted.
pub open spec fn pin_word(pinned: bool) -> Seq<char> {
    if pinned {
        "pinned"@
    } else {
        "unpinned"@
    }
}

fn pin_text(pinned: bool) -> (r: &'static str)
    ensures
        r@ == pin_word(pinned),
{
    if pinned {
        "pinned"
    } else {
        "unpinned"
    }
}

/// What a mutation finds while another process holds the prefix.
pub open spec fn prefix_busy() -> Seq<char> {
    "the prefix is busy (another cargo-lbin holds its lock); try again"@
}

/// The cancel's grace is armed: a repeat keeps the first deadline.
pub open spec fn grace_armed(build: BuildJob, now: u64) -> BuildJob {
    BuildJob {
        cancel_deadline: match build.cancel_deadline {
            Some(at) => Some(at),
            None => Some((now + CANCEL_GRACE) as u64),
        },
        ..build
    }
}

/// Whether a migration batch was told to stop with members left to start.
pub open spec fn stops_after_member(app: App) -> bool {
    app.migrate_batch matches Some(batch) && batch.stopping && batch.runner.queue@.len() > 0
}

/// What the answer to a cancel says and arms, by who asked.
pub open spec fn cancel_told(
    before: App,
    build: BuildJob,
    why: CancelFor,
    answer: ActiveCancel,
    now: u64,
    after: App,
) -> bool {
    let armed = App { job: Some(Job::Build(grace_armed(build, now))), ..before };
    match (why, answer) {
        (CancelFor::Key, ActiveCancel::BatchBetweenMembers) => told(
            before,
            "stopping: no further crate will be started"@,
            MessageKind::Info,
            after,
        ),
        (CancelFor::Key, ActiveCancel::Build(CancelOutcome::Accepted)) => told(
            armed,
            "cancelling "@ + build.name@ + "… (c again sends SIGKILL)"@,
            MessageKind::Info,
            after,
        ),
        (CancelFor::Key, ActiveCancel::Build(CancelOutcome::Killed)) => told(
            before,
            "SIGKILL sent to the "@ + build.name@ + " build"@,
            MessageKind::Warning,
            after,
        ),
        (CancelFor::Key, ActiveCancel::Build(CancelOutcome::AlreadyStopping)) => told(
            before,
            "the build is already stopping"@,
            MessageKind::Info,
            after,
        ),
        (CancelFor::Key, ActiveCancel::Build(CancelOutcome::TooLate)) => told(
            before,
            if build.control == ActiveControl::Batch || stops_after_member(before) {
                "placement already started for this crate; the batch stops after it"@
            } else {
                "placement already started; too late to cancel"@
            },
            MessageKind::Info,
            after,
        ),
        (CancelFor::Quit, ActiveCancel::BatchBetweenMembers) => told(
            App { quit_after_build: true, ..before },
            "stopping: quitting when the batch finishes"@,
            MessageKind::Info,
            after,
        ),
        (CancelFor::Quit, ActiveCancel::Build(CancelOutcome::Accepted)) => told(
            App { quit_after_build: true, ..armed },
            "cancelling; quitting when the build stops (Ctrl-C again: SIGKILL)"@,
            MessageKind::Info,
            after,
        ),
        (CancelFor::Quit, ActiveCancel::Build(CancelOutcome::Killed)) => told(
            App { quit_after_build: true, ..before },
            "SIGKILL sent; quitting when the build stops"@,
            MessageKind::Warning,
            after,
        ),
        (CancelFor::Quit, ActiveCancel::Build(CancelOutcome::AlreadyStopping)) => told(
            App { quit_after_build: true, ..before },
            "the build is already stopping; quitting when it does"@,
            MessageKind::Info,
            after,
        ),
        (CancelFor::Quit, ActiveCancel::Build(CancelOutcome::TooLate)) => told(
            App { quit_after_build: true, ..before },
            "placement in progress; quitting when it finishes"@,
            MessageKind::Info,
            after,
        ),
        (CancelFor::Overdue, ActiveCancel::Build(CancelOutcome::Killed)) => told(
            before,
            "the build ignored the cancel; SIGKILL sent"@,
            MessageKind::Warning,
            after,
        ),
        (CancelFor::Overdue, _) => after == before,
    }
}

/// What the answer to a cancel changes.
pub open spec fn cancel_answered_as(
    before: App,
    why: CancelFor,
    answer: ActiveCancel,
    now: u64,
    after: App,
) -> bool {
    match before.job {
        Some(Job::Build(build)) => cancel_told(before, build, why, answer, now, after),
        _ => after == before,
    }
}

/// What a turn of the run loop changes: the frame counter, and an overdue cancel
/// is asked for once more, one-shot.
pub open spec fn ticked(before: App, now: u64, after: App, flow: Flow) -> bool {
    let next = if before.ticks == usize::MAX {
        0
    } else {
        (before.ticks + 1) as usize
    };
    if before.job matches Some(Job::Build(build)) && (build.cancel_deadline matches Some(at) && now
        >= at) {
        &&& after == (App {
            ticks: next,
            job: Some(
                Job::Build(BuildJob { cancel_deadline: None, ..before.job->0->Build_0 }),
            ),
            ..before
        })
        &&& flow == Flow::RequestCancel(CancelFor::Overdue)
    } else {
        after == (App { ticks: next, ..before }) && flow is Done
    }
}

/// What the search for the other prefix changes. Only the known pair counts,
/// nothing else does.
pub open spec fn pair_answered(
    before: App,
    why: PairFor,
    dest: Option<String>,
    after: App,
    flow: Flow,
) -> bool {
    match (why, dest) {
        (PairFor::Migrate, None) => flow is Done && told(
            before,
            "TUI migrate covers the /usr/local <-> ~/.local pair; migrate elsewhere via the CLI: cargo lbin migrate NAME --to PREFIX"@,
            MessageKind::Info,
            after,
        ),
        (PairFor::MigrateAll, None) => flow is Done && told(
            before,
            "TUI migrate covers the /usr/local <-> ~/.local pair; migrate elsewhere via the CLI: cargo lbin migrate --all --to PREFIX"@,
            MessageKind::Info,
            after,
        ),
        (PairFor::Jump, None) => flow is Done && told(
            before,
            "TUI prefix switching covers the /usr/local <-> ~/.local pair; run with --prefix for anything else"@,
            MessageKind::Info,
            after,
        ),
        (PairFor::Migrate, Some(dest)) => after == before && match before.chosen() {
            Some(row) => flow == (Flow::LookAt { dest, name: row.name }),
            None => flow is Done,
        },
        (PairFor::MigrateAll, Some(dest)) => after == before && flow == Flow::Reload(
            AfterReload::MigrateAll { dest },
        ),
        (PairFor::Jump, Some(dest)) => jump_begun(before, dest, after, flow),
    }
}

/// What a jump to another prefix changes before the read: refused while anything
/// runs, since everything transient is anchored to the prefix.
pub open spec fn jump_begun(before: App, dest: String, after: App, flow: Flow) -> bool {
    if before.occupied() {
        refused_with(
            before,
            "an operation is running or queued; finish or cancel it first"@,
            after,
            flow,
        )
    } else {
        &&& after == (App { prefix: dest, search_result: None, ..before })
        &&& flow matches Flow::Reload(AfterReload::Jump { keep, search, back }) && search
            == before.search_result && back == before.prefix && keep == match before.chosen() {
            Some(row) => Some(row.name),
            None => None,
        }
    }
}

/// The names of the rows.
pub open spec fn row_names(rows: Seq<Row>) -> Seq<Seq<char>> {
    Seq::new(rows.len(), |i: int| rows[i].name@)
}

/// Where the selection lands after a jump: on the kept crate where it is visible,
/// else on the first row.
pub open spec fn landing(rows: Seq<Row>, keep: Option<String>) -> int {
    match keep {
        Some(name) => match first_named(row_names(rows), name@) {
            Some(i) => i,
            None => 0,
        },
        None => 0,
    }
}

/// What a jump changes, read. The switch commits on any read that leaves a
/// presentable state; only a hard failure rolls back, and is read again at the
/// old prefix.
pub open spec fn jumped(
    before: App,
    keep: Option<String>,
    search: Option<SearchResult>,
    back: String,
    read: PrefixRead,
    after: App,
    flow: Flow,
) -> bool {
    match read.manifest {
        super::ManifestRead::Locked(e) => {
            &&& after == (App {
                prefix: back,
                message: after.message,
                search_result: None,
                downgrade_choice: None,
                ..before
            })
            &&& reload_says(before, read, after)
            &&& flow == Flow::Reload(
                AfterReload::JumpBack { failed: before.prefix, error: e, search },
            )
        },
        _ => {
            &&& flow is Done
            &&& rows_reread(before, read, after)
            &&& after == (App {
                message: after.message,
                build_report: None,
                search_result: None,
                downgrade_choice: None,
                rows: after.rows,
                report_age: after.report_age,
                selected: after.selected,
                manifest_error: after.manifest_error,
                ..before
            })
            &&& after.selected == landing(after.view_rows(), keep)
            &&& if read.manifest is Refused {
                after.says(super::degraded_text(), MessageKind::Error)
            } else {
                after.says("now at "@ + before.prefix@, MessageKind::Info)
            }
        },
    }
}

/// What a jump that failed changes, read again at the old prefix: a jump that did
/// not happen must not cost the hits.
pub open spec fn jump_rolled_back(
    before: App,
    failed: String,
    error: String,
    search: Option<SearchResult>,
    read: PrefixRead,
    after: App,
) -> bool {
    &&& list_reread(before, read, after)
    &&& after == (App {
        message: after.message,
        search_result: search,
        downgrade_choice: None,
        rows: after.rows,
        report_age: after.report_age,
        selected: after.selected,
        manifest_error: after.manifest_error,
        ..before
    })
    &&& after.says(
        "cannot read "@ + failed@ + ": "@ + error@ + " — staying here"@,
        MessageKind::Error,
    )
}

/// The question about migrating one crate. For a pinned crate the shown version
/// is what the destination gets, for an unpinned one it is the source state being
/// retired, and the difference is said out loud.
pub open spec fn migrate_prompt(row: Row, prefix: Seq<char>, dest: Seq<char>) -> Seq<char> {
    "migrate "@ + row.name@ + " "@ + row.version@ + ": "@ + prefix + " -> "@ + dest + "? "@ + (
    if row.pinned {
        "the exact pinned version is rebuilt"@
    } else {
        "the latest version is installed"@
    }) + " there, then retired here [y/N]"@
}

/// Whether a planned migration is that of a row.
pub open spec fn plans(plan: PendingMigrate, row: Row, dest: Seq<char>) -> bool {
    &&& plan.name == row.name
    &&& plan.version == row.version
    &&& plan.dest@ == dest
    &&& plan.snap.freezes(row)
}

/// What a look at the destination changes: already there is an error line; else
/// the plan is frozen from the row on screen, and asked about.
pub open spec fn destination_answered(
    before: App,
    dest: String,
    there: Option<String>,
    after: App,
) -> bool {
    match before.chosen() {
        None => after == before,
        Some(row) => match there {
            Some(version) => told(
                before,
                row.name@ + " is already installed at "@ + dest@ + " ("@ + version@
                    + "); remove one side first (no --force by design)"@,
                MessageKind::Error,
                after,
            ),
            None => if is_semver(row.version@) {
                &&& after == (App { confirm: after.confirm, ..before })
                &&& after.confirm matches Some(c) && c.prompt@ == sanitized(
                    migrate_prompt(row, before.prefix@, dest@),
                ) && (c.action matches OnConfirm::Migrate(plan) && plans(plan, row, dest@))
            } else {
                told(
                    before,
                    crate::state::unparsable_version(row.name@),
                    MessageKind::Error,
                    after,
                )
            },
        },
    }
}

/// The question about migrating everything.
pub open spec fn migrate_all_prompt(n: nat, prefix: Seq<char>, dest: Seq<char>) -> Seq<char> {
    "migrate all "@ + decimal(n) + " crate(s): "@ + prefix + " -> "@ + dest
        + "? pinned crates keep their exact version, unpinned get the latest, then retired here; c cancels the batch [y/N]"@
}

/// What planning a whole-prefix migration changes, reloaded: `--all` means all
/// crates now. The plan is complete or not at all: the first row whose version
/// does not parse ends it.
pub open spec fn migrate_all_planned(before: App, dest: String, read: PrefixRead, after: App) -> bool {
    &&& relisted(before, read, after)
    &&& after == (App {
        message: after.message,
        confirm: after.confirm,
        search_result: None,
        downgrade_choice: None,
        rows: after.rows,
        report_age: after.report_age,
        selected: after.selected,
        manifest_error: after.manifest_error,
        ..before
    })
    &&& match read_answer(read.manifest) {
        Err(e) => after.confirm == before.confirm && after.says(
            "cannot plan the batch: "@ + e@,
            MessageKind::Error,
        ),
        Ok(ReloadOutcome::Degraded) => after.confirm == before.confirm && after.says(
            super::degraded_text(),
            MessageKind::Error,
        ),
        Ok(ReloadOutcome::Loaded) => plan_asked(before, dest, read, after),
    }
}

/// Whether the first row whose version does not parse is at `k`.
pub open spec fn first_unparsable(rows: Seq<Row>, k: int) -> bool {
    &&& 0 <= k < rows.len()
    &&& !is_semver(rows[k].version@)
    &&& forall|i: int| 0 <= i < k ==> is_semver((#[trigger] rows[i]).version@)
}

/// What planning a whole-prefix migration leads to, once the list shows what is
/// there.
pub open spec fn plan_asked(before: App, dest: String, read: PrefixRead, after: App) -> bool {
    let rows = after.rows@;
    if rows.len() == 0 {
        after.confirm == before.confirm && after.says("nothing to migrate"@, MessageKind::Info)
    } else if forall|i: int| 0 <= i < rows.len() ==> is_semver((#[trigger] rows[i]).version@) {
        &&& reload_says(before, read, after)
        &&& after.confirm matches Some(c) && c.prompt@ == sanitized(
            migrate_all_prompt(rows.len(), before.prefix@, dest@),
        ) && (c.action matches OnConfirm::MigrateAll { dest: to, plan } && to == dest && plan@.len()
            == rows.len() && forall|i: int|
            0 <= i < rows.len() ==> plans(#[trigger] plan@[i], rows[i], dest@))
    } else {
        &&& after.confirm == before.confirm
        &&& exists|k: int|
            #[trigger] first_unparsable(rows, k) && after.says(
                crate::state::unparsable_version(rows[k].name@),
                MessageKind::Error,
            )
    }
}

/// What the probe of a mutation's privilege changes: an escalation waits for the
/// run loop's door; without one the work happens now.
pub open spec fn privilege_answered(
    before: App,
    op: PendingInPlace,
    needs: Result<bool, String>,
    after: App,
    flow: Flow,
) -> bool {
    match needs {
        Err(e) => flow is Done && told(before, e@, MessageKind::Error, after),
        Ok(true) => flow is Done && after == (App { pending_in_place: Some(op), ..before }),
        Ok(false) => after == before && flow == Flow::Apply(op),
    }
}

/// What a pin or unpin that was tried changes.
pub open spec fn pin_answered(
    before: App,
    name: String,
    pinned: bool,
    result: Result<TuiSetPinned, String>,
    after: App,
    flow: Flow,
) -> bool {
    match result {
        Ok(TuiSetPinned::Changed { version }) => after == before && flow == Flow::Reload(
            AfterReload::PinChanged { name, pinned, version },
        ),
        Ok(TuiSetPinned::Already) => after == before && flow == Flow::Reload(
            AfterReload::PinAlready { name, pinned },
        ),
        Ok(TuiSetPinned::PrefixBusy) => flow is Done && told(
            before,
            prefix_busy(),
            MessageKind::Info,
            after,
        ),
        Err(e) => flow is Done && told(
            before,
            pin_word(pinned) + " failed for `"@ + name@ + "`: "@ + e@,
            MessageKind::Error,
            after,
        ),
    }
}

/// What a removal that was tried changes.
pub open spec fn removal_answered(
    before: App,
    name: String,
    result: Result<TuiRemove, String>,
    after: App,
    flow: Flow,
) -> bool {
    match result {
        Ok(TuiRemove::Removed(bins)) => after == before && flow == Flow::Reload(
            AfterReload::Removed { name, bins },
        ),
        Ok(TuiRemove::PrefixBusy) => flow is Done && told(
            before,
            prefix_busy(),
            MessageKind::Info,
            after,
        ),
        Err(e) => flow is Done && told(
            before,
            "removing `"@ + name@ + "` failed: "@ + e@,
            MessageKind::Error,
            after,
        ),
    }
}

/// What a command that had the terminal leaves, reloaded: its outcome line stands
/// whether the manifest loaded or not. A lock that is not to be had ends the
/// session.
pub open spec fn terminal_left(
    before: App,
    action: PendingAction,
    outcome: Result<(), String>,
    read: PrefixRead,
    after: App,
    r: Result<Flow, String>,
) -> bool {
    &&& relisted(before, read, after)
    &&& after == (App {
        message: after.message,
        search_result: None,
        downgrade_choice: None,
        rows: after.rows,
        report_age: after.report_age,
        selected: after.selected,
        manifest_error: after.manifest_error,
        ..before
    })
    &&& match read.manifest {
        super::ManifestRead::Locked(e) => r == Err::<Flow, String>(e) && reload_says(
            before,
            read,
            after,
        ),
        _ => (r matches Ok(Flow::Done)) && match outcome {
            Ok(()) => after.says(action.label() + " finished"@, MessageKind::Info),
            Err(e) => after.says(action.label() + " failed: "@ + e@, MessageKind::Error),
        },
    }
}

/// The position of the first row with this name.
fn row_named(rows: &Vec<&Row>, name: &str) -> (r: Option<usize>)
    ensures
        match r {
            Some(i) => i < rows.len() && first_named(
                Seq::new(rows@.len(), |i: int| rows@[i].name@),
                name@,
            ) == Some(i as int),
            None => first_named(Seq::new(rows@.len(), |i: int| rows@[i].name@), name@) is None,
        },
{
    let ghost names = Seq::new(rows@.len(), |i: int| rows@[i].name@);
    let mut i: usize = 0;
    while i < rows.len()
        invariant
            i <= rows.len(),
            names == Seq::new(rows@.len(), |i: int| rows@[i].name@),
            forall|j: int| 0 <= j < i ==> names[j] != name@,
        decreases rows.len() - i,
    {
        if same(rows[i].name.as_str(), name) {
            proof {
                lemma_first_named_is(names, name@, i as int);
            }
            return Some(i);
        }
        i = i + 1;
    }
    proof {
        lemma_first_named(names, name@);
    }
    None
}

impl App {
    /// Reload, and say how it went.
    fn reload_and_say(&mut self, read: PrefixRead, failed: &str, loaded: &str)
        ensures
            reload_told(*old(self), read, failed@, loaded@, *final(self)),
    {
        match self.reload(read) {
            Err(e) => self.error(cat(failed, e.as_str()).as_str()),
            Ok(ReloadOutcome::Degraded) => {},
            Ok(ReloadOutcome::Loaded) => self.info(loaded),
        }
    }

    /// The cancel was answered.
    pub fn cancel_answered(&mut self, why: CancelFor, answer: ActiveCancel, now: u64)
        requires
            now <= u64::MAX - CANCEL_GRACE,
        ensures
            cancel_answered_as(*old(self), why, answer, now, *final(self)),
    {
        let (name, batch) = match &self.job {
            Some(Job::Build(build)) => (build.name.clone(), build.control.is_batch()),
            _ => {
                return ;
            },
        };
        let migrating = match &self.migrate_batch {
            Some(batch) => batch.stopping && batch.runner.queue.len() > 0,
            None => false,
        };
        match why {
            CancelFor::Key => match answer {
                ActiveCancel::BatchBetweenMembers => self.info(
                    "stopping: no further crate will be started",
                ),
                ActiveCancel::Build(CancelOutcome::Accepted) => {
                    self.arm_cancel_grace(now);
                    self.info(
                        cat3("cancelling ", name.as_str(), "… (c again sends SIGKILL)").as_str(),
                    );
                },
                ActiveCancel::Build(CancelOutcome::Killed) => self.warn(
                    cat3("SIGKILL sent to the ", name.as_str(), " build").as_str(),
                ),
                ActiveCancel::Build(CancelOutcome::AlreadyStopping) => self.info(
                    "the build is already stopping",
                ),
                ActiveCancel::Build(CancelOutcome::TooLate) => if batch || migrating {
                    self.info(
                        "placement already started for this crate; the batch stops after it",
                    )
                } else {
                    self.info("placement already started; too late to cancel")
                },
            },
            CancelFor::Quit => {
                match answer {
                    ActiveCancel::BatchBetweenMembers => self.info(
                        "stopping: quitting when the batch finishes",
                    ),
                    ActiveCancel::Build(CancelOutcome::Accepted) => {
                        self.arm_cancel_grace(now);
                        self.info(
                            "cancelling; quitting when the build stops (Ctrl-C again: SIGKILL)",
                        );
                    },
                    ActiveCancel::Build(CancelOutcome::Killed) => self.warn(
                        "SIGKILL sent; quitting when the build stops",
                    ),
                    ActiveCancel::Build(CancelOutcome::AlreadyStopping) => self.info(
                        "the build is already stopping; quitting when it does",
                    ),
                    ActiveCancel::Build(CancelOutcome::TooLate) => self.info(
                        "placement in progress; quitting when it finishes",
                    ),
                }
                self.quit_after_build = true;
            },
            CancelFor::Overdue => {
                if matches!(answer, ActiveCancel::Build(CancelOutcome::Killed)) {
                    self.warn("the build ignored the cancel; SIGKILL sent");
                }
            },
        }
    }

    /// Arm the one-shot grace deadline; a repeat keeps the first.
    fn arm_cancel_grace(&mut self, now: u64)
        requires
            now <= u64::MAX - CANCEL_GRACE,
        ensures
            match old(self).job {
                Some(Job::Build(build)) => *final(self) == (App {
                    job: Some(Job::Build(grace_armed(build, now))),
                    ..*old(self)
                }),
                _ => *final(self) == *old(self),
            },
    {
        match self.job.take() {
            Some(Job::Build(mut build)) => {
                if build.cancel_deadline.is_none() {
                    build.cancel_deadline = Some(now + CANCEL_GRACE);
                }
                self.job = Some(Job::Build(build));
            },
            job => {
                self.job = job;
            },
        }
    }

    /// A turn of the run loop: the frame counter, and the cancel's dead-man
    /// switch. Once the grace expires, what is running is asked again from here:
    /// the worker cannot be trusted to reach its own sweep.
    pub fn tick(&mut self, now: u64) -> (r: Flow)
        ensures
            ticked(*old(self), now, *final(self), r),
    {
        self.ticks = if self.ticks == usize::MAX {
            0
        } else {
            self.ticks + 1
        };
        self.escalate_overdue_cancel(now)
    }

    /// The cancel's dead-man switch: an expired grace is asked for once.
    fn escalate_overdue_cancel(&mut self, now: u64) -> (r: Flow)
        ensures
            if old(self).job matches Some(Job::Build(build)) && (build.cancel_deadline matches Some(
                at,
            ) && now >= at) {
                &&& *final(self) == (App {
                    job: Some(
                        Job::Build(
                            BuildJob { cancel_deadline: None, ..old(self).job->0->Build_0 },
                        ),
                    ),
                    ..*old(self)
                })
                &&& r == Flow::RequestCancel(CancelFor::Overdue)
            } else {
                *final(self) == *old(self) && r is Done
            },
    {
        let due = match &self.job {
            Some(Job::Build(build)) => match build.cancel_deadline {
                Some(at) => now >= at,
                None => false,
            },
            _ => false,
        };
        if !due {
            return Flow::Done;
        }
        match self.job.take() {
            Some(Job::Build(mut build)) => {
                build.cancel_deadline = None;
                self.job = Some(Job::Build(build));
            },
            job => {
                self.job = job;
            },
        }
        Flow::RequestCancel(CancelFor::Overdue)
    }

    /// The other prefix of the known pair, if there is one.
    pub fn pair_found(&mut self, why: PairFor, dest: Option<String>) -> (r: Flow)
        ensures
            pair_answered(*old(self), why, dest, *final(self), r),
    {
        match dest {
            None => {
                match why {
                    PairFor::Migrate => self.info(
                        "TUI migrate covers the /usr/local <-> ~/.local pair; migrate elsewhere via the CLI: cargo lbin migrate NAME --to PREFIX",
                    ),
                    PairFor::MigrateAll => self.info(
                        "TUI migrate covers the /usr/local <-> ~/.local pair; migrate elsewhere via the CLI: cargo lbin migrate --all --to PREFIX",
                    ),
                    PairFor::Jump => self.info(
                        "TUI prefix switching covers the /usr/local <-> ~/.local pair; run with --prefix for anything else",
                    ),
                }
                Flow::Done
            },
            Some(dest) => match why {
                PairFor::Migrate => match self.selected_name() {
                    Some(name) => Flow::LookAt { dest, name },
                    None => Flow::Done,
                },
                PairFor::MigrateAll => Flow::Reload(AfterReload::MigrateAll { dest }),
                PairFor::Jump => self.jump_to_prefix(dest),
            },
        }
    }

    /// The mechanics of a jump, apart from whether it may happen.
    pub fn jump_to_prefix(&mut self, dest: String) -> (r: Flow)
        ensures
            jump_begun(*old(self), dest, *final(self), r),
    {
        if self.anything_running() {
            self.error("an operation is running or queued; finish or cancel it first");
            return Flow::Done;
        }
        let keep = self.selected_name();
        let search = self.search_result.take();
        let mut back = dest;
        std::mem::swap(&mut back, &mut self.prefix);
        Flow::Reload(AfterReload::Jump { keep, search, back })
    }

    /// The jump, read.
    fn jump_reloaded(
        &mut self,
        keep: Option<String>,
        search: Option<SearchResult>,
        back: String,
        read: PrefixRead,
    ) -> (r: Flow)
        ensures
            jumped(*old(self), keep, search, back, read, *final(self), r),
    {
        let outcome = match self.reload(read) {
            Ok(outcome) => outcome,
            Err(error) => {
                let mut failed = back;
                std::mem::swap(&mut failed, &mut self.prefix);
                return Flow::Reload(AfterReload::JumpBack { failed, error, search });
            },
        };
        self.build_report = None;
        let at: usize = {
            let visible = self.visible();
            proof {
                assert(Seq::new(visible@.len(), |i: int| visible@[i].name@) =~= row_names(
                    self.view_rows(),
                ));
            }
            match &keep {
                Some(name) => match row_named(&visible, name.as_str()) {
                    Some(i) => i,
                    None => 0,
                },
                None => 0,
            }
        };
        self.selected = at;
        match outcome {
            ReloadOutcome::Loaded => self.info(cat("now at ", self.prefix.as_str()).as_str()),
            ReloadOutcome::Degraded => {},
        }
        Flow::Done
    }

    /// The jump that failed, read again where it started.
    fn jump_back_reloaded(
        &mut self,
        failed: String,
        error: String,
        search: Option<SearchResult>,
        read: PrefixRead,
    )
        ensures
            jump_rolled_back(*old(self), failed, error, search, read, *final(self)),
    {
        let _ = self.reload(read);
        self.search_result = search;
        self.error(
            cat5(
                "cannot read ",
                failed.as_str(),
                ": ",
                error.as_str(),
                " — staying here",
            ).as_str(),
        );
    }

    /// What the destination of a single migration holds under the crate's name,
    /// read fresh and nonblocking: nobody should confirm a migration that the
    /// authoritative refusal will bounce.
    pub fn destination_seen(&mut self, dest: String, there: Option<String>)
        ensures
            destination_answered(*old(self), dest, there, *final(self)),
    {
        let (said, plan) = match self.selected_row() {
            None => {
                return ;
            },
            Some(row) => match there {
                Some(version) => {
                    let mut said = cat5(
                        row.name.as_str(),
                        " is already installed at ",
                        dest.as_str(),
                        " (",
                        version.as_str(),
                    );
                    said.append("); remove one side first (no --force by design)");
                    (said, None)
                },
                None => match MigrationSnapshot::of(row) {
                    Err(e) => (e, None),
                    Ok(snap) => {
                        let mut prompt = cat6(
                            "migrate ",
                            row.name.as_str(),
                            " ",
                            row.version.as_str(),
                            ": ",
                            self.prefix.as_str(),
                        );
                        prompt.append(" -> ");
                        prompt.append(dest.as_str());
                        prompt.append("? ");
                        if row.pinned {
                            prompt.append("the exact pinned version is rebuilt");
                        } else {
                            prompt.append("the latest version is installed");
                        }
                        prompt.append(" there, then retired here [y/N]");
                        let plan = PendingMigrate {
                            name: row.name.clone(),
                            version: row.version.clone(),
                            dest,
                            snap,
                        };
                        (prompt, Some(plan))
                    },
                },
            },
        };
        match plan {
            None => self.error(said.as_str()),
            Some(plan) => {
                self.confirm = Some(Confirm::new(said.as_str(), OnConfirm::Migrate(plan)));
            },
        }
    }

    /// The whole prefix as a queue of single migrations, frozen here: one
    /// snapshot per row, complete or not at all.
    fn migrate_all_reloaded(&mut self, dest: String, read: PrefixRead)
        ensures
            migrate_all_planned(*old(self), dest, read, *final(self)),
    {
        match self.reload(read) {
            Err(e) => {
                self.error(cat("cannot plan the batch: ", e.as_str()).as_str());
                return ;
            },
            Ok(ReloadOutcome::Degraded) => {
                return ;
            },
            Ok(ReloadOutcome::Loaded) => {},
        }
        if self.rows.len() == 0 {
            self.info("nothing to migrate");
            return ;
        }
        let mut plan: Vec<PendingMigrate> = Vec::new();
        let mut unparsable: Option<String> = None;
        let mut i: usize = 0;
        while i < self.rows.len() && unparsable.is_none()
            invariant
                i <= self.rows.len(),
                match unparsable {
                    None => {
                        &&& plan.len() == i
                        &&& forall|j: int|
                            0 <= j < i ==> is_semver((#[trigger] self.rows@[j]).version@)
                        &&& forall|j: int|
                            0 <= j < i ==> plans(#[trigger] plan@[j], self.rows@[j], dest@)
                    },
                    Some(e) => exists|k: int|
                        #[trigger] first_unparsable(self.rows@, k) && e@
                            == crate::state::unparsable_version(self.rows@[k].name@),
                },
            decreases self.rows.len() - i,
        {
            let row = &self.rows[i];
            match MigrationSnapshot::of(row) {
                Ok(snap) => {
                    plan.push(
                        PendingMigrate {
                            name: row.name.clone(),
                            version: row.version.clone(),
                            dest: dest.clone(),
                            snap,
                        },
                    );
                },
                Err(e) => {
                    assert(first_unparsable(self.rows@, i as int));
                    unparsable = Some(e);
                },
            }
            i = i + 1;
        }
        match unparsable {
            Some(e) => {
                proof {
                    let k = choose|k: int|
                        #[trigger] first_unparsable(self.rows@, k) && e@
                            == crate::state::unparsable_version(self.rows@[k].name@);
                    assert(!is_semver(self.rows@[k].version@));
                }
                self.error(e.as_str());
            },
            None => {
                let mut prompt = cat6(
                    "migrate all ",
                    count_of(plan.len()).as_str(),
                    " crate(s): ",
                    self.prefix.as_str(),
                    " -> ",
                    dest.as_str(),
                );
                prompt.append(
                    "? pinned crates keep their exact version, unpinned get the latest, then retired here; c cancels the batch [y/N]",
                );
                self.confirm = Some(
                    Confirm::new(prompt.as_str(), OnConfirm::MigrateAll { dest, plan }),
                );
            },
        }
    }

    /// Whether a mutation needs privilege was probed.
    pub fn privilege_probed(&mut self, op: PendingInPlace, needs: Result<bool, String>) -> (r: Flow)
        ensures
            privilege_answered(*old(self), op, needs, *final(self), r),
    {
        match needs {
            Err(e) => {
                self.error(e.as_str());
                Flow::Done
            },
            Ok(escalate) => if escalate {
                self.pending_in_place = Some(op);
                Flow::Done
            } else {
                Flow::Apply(op)
            },
        }
    }

    /// The pin flip was tried, with or without a password.
    pub fn pin_applied(
        &mut self,
        name: String,
        pinned: bool,
        result: Result<TuiSetPinned, String>,
    ) -> (r: Flow)
        ensures
            pin_answered(*old(self), name, pinned, result, *final(self), r),
    {
        match result {
            Ok(TuiSetPinned::Changed { version }) => Flow::Reload(
                AfterReload::PinChanged { name, pinned, version },
            ),
            Ok(TuiSetPinned::Already) => Flow::Reload(AfterReload::PinAlready { name, pinned }),
            Ok(TuiSetPinned::PrefixBusy) => {
                self.info("the prefix is busy (another cargo-lbin holds its lock); try again");
                Flow::Done
            },
            Err(e) => {
                self.error(
                    cat5(
                        pin_text(pinned),
                        " failed for `",
                        name.as_str(),
                        "`: ",
                        e.as_str(),
                    ).as_str(),
                );
                Flow::Done
            },
        }
    }

    /// The removal was tried, with or without a password.
    pub fn remove_applied(&mut self, name: String, result: Result<TuiRemove, String>) -> (r: Flow)
        ensures
            removal_answered(*old(self), name, result, *final(self), r),
    {
        match result {
            Ok(TuiRemove::Removed(bins)) => Flow::Reload(AfterReload::Removed { name, bins }),
            Ok(TuiRemove::PrefixBusy) => {
                self.info("the prefix is busy (another cargo-lbin holds its lock); try again");
                Flow::Done
            },
            Err(e) => {
                self.error(
                    cat4("removing `", name.as_str(), "` failed: ", e.as_str()).as_str(),
                );
                Flow::Done
            },
        }
    }

    /// A command that had the terminal, reloaded.
    fn terminal_reloaded(
        &mut self,
        action: PendingAction,
        outcome: Result<(), String>,
        read: PrefixRead,
    ) -> (r: Result<Flow, String>)
        ensures
            terminal_left(*old(self), action, outcome, read, *final(self), r),
    {
        match self.reload(read) {
            Err(e) => {
                return Err(e);
            },
            Ok(_) => {},
        }
        let label = action_label(&action);
        match outcome {
            Ok(()) => self.info(cat(label.as_str(), " finished").as_str()),
            Err(e) => self.error(cat3(label.as_str(), " failed: ", e.as_str()).as_str()),
        }
        Ok(Flow::Done)
    }
}

/// Whether what waits for a reload can be taken up in this state.
pub open spec fn resumable(app: App, after: AfterReload) -> bool {
    match after {
        AfterReload::Check => app.job is None,
        AfterReload::BatchStep(fin) => fin.kind is Migrate && app.valid() && (
        app.migrate_batch matches Some(b) ==> processed(b.runner) < usize::MAX),
        AfterReload::InstallBatch(close) => super::sections_fit(close.batch),
        AfterReload::Build(fin) => !(fin.outcome is Cancelled),
        _ => true,
    }
}

/// What a reload changes, by what waited for it.
pub open spec fn resumed(
    before: App,
    waiting: AfterReload,
    read: PrefixRead,
    after: App,
    r: Result<Flow, String>,
) -> bool {
    match waiting {
        AfterReload::Retry => (r matches Ok(Flow::Done)) && reload_told(
            before,
            read,
            "reload failed: "@,
            "the manifest loads again"@,
            after,
        ),
        AfterReload::Check => r matches Ok(flow) && check_begun(before, read, after, flow),
        AfterReload::MigrateAll { dest } => (r matches Ok(Flow::Done)) && migrate_all_planned(
            before,
            dest,
            read,
            after,
        ),
        AfterReload::PinChanged { name, pinned, version } => (r matches Ok(Flow::Done))
            && reload_told(
            before,
            read,
            pin_word(pinned) + " "@ + name@ + ", but the reload failed: "@,
            pin_word(pinned) + " "@ + name@ + " at "@ + version@,
            after,
        ),
        AfterReload::PinAlready { name, pinned } => (r matches Ok(Flow::Done)) && reload_told(
            before,
            read,
            Seq::empty(),
            name@ + " is already "@ + pin_word(pinned),
            after,
        ),
        AfterReload::Removed { name, bins } => (r matches Ok(Flow::Done)) && reload_told(
            before,
            read,
            "removed "@ + name@ + ", but the reload failed: "@,
            "removed "@ + name@ + " ("@ + joined(texts(bins@), ", "@) + ")"@,
            after,
        ),
        AfterReload::Jump { keep, search, back } => r matches Ok(flow) && jumped(
            before,
            keep,
            search,
            back,
            read,
            after,
            flow,
        ),
        AfterReload::JumpBack { failed, error, search } => (r matches Ok(Flow::Done))
            && jump_rolled_back(before, failed, error, search, read, after),
        AfterReload::BatchStep(fin) => (r matches Ok(Flow::Done)) && relisted(before, read, after)
            && step_done(before, fin, read, after) && after.valid() && (before.adds_up()
            ==> after.adds_up()) && after == (App {
            migrate_batch: after.migrate_batch,
            pending_migrate: after.pending_migrate,
            message: after.message,
            build_report: after.build_report,
            report_scroll: after.report_scroll,
            search_result: None,
            downgrade_choice: None,
            rows: after.rows,
            report_age: after.report_age,
            selected: after.selected,
            manifest_error: after.manifest_error,
            ..before
        }),
        AfterReload::InstallBatch(close) => (r matches Ok(Flow::Done)) && relisted(
            before,
            read,
            after,
        ) && batch_told(before, close, read, after) && panel_and_list_only(before, after),
        AfterReload::Build(fin) => (r matches Ok(Flow::Done)) && relisted(before, read, after)
            && build_told(before, fin, read, after) && panel_and_list_only(before, after),
        AfterReload::Search { query, hits } => (r matches Ok(Flow::Done)) && search_shown(
            before,
            query,
            hits,
            read,
            after,
        ),
        AfterReload::Terminal { action, outcome } => terminal_left(
            before,
            action,
            outcome,
            read,
            after,
            r,
        ),
    }
}

/// Only the list, the panel and the footer changed.
pub open spec fn panel_and_list_only(before: App, after: App) -> bool {
    after == (App {
        message: after.message,
        build_report: after.build_report,
        report_scroll: after.report_scroll,
        search_result: None,
        downgrade_choice: None,
        rows: after.rows,
        report_age: after.report_age,
        selected: after.selected,
        manifest_error: after.manifest_error,
        ..before
    })
}

impl App {
    /// The prefix was read again: go on with what waited for it. The only hard
    /// end is a command that had the terminal and left a prefix whose lock is not
    /// to be had.
    pub fn reloaded(&mut self, waiting: AfterReload, read: PrefixRead) -> (r: Result<Flow, String>)
        requires
            resumable(*old(self), waiting),
        ensures
            resumed(*old(self), waiting, read, *final(self), r),
    {
        match waiting {
            AfterReload::Retry => {
                self.reload_and_say(read, "reload failed: ", "the manifest loads again");
            },
            AfterReload::Check => {
                return Ok(self.check_reloaded(read));
            },
            AfterReload::MigrateAll { dest } => self.migrate_all_reloaded(dest, read),
            AfterReload::PinChanged { name, pinned, version } => {
                let verb = pin_text(pinned);
                let failed = cat4(verb, " ", name.as_str(), ", but the reload failed: ");
                let loaded = cat5(verb, " ", name.as_str(), " at ", version.as_str());
                self.reload_and_say(read, failed.as_str(), loaded.as_str());
            },
            AfterReload::PinAlready { name, pinned } => {
                let failed = String::new();
                let loaded = cat3(name.as_str(), " is already ", pin_text(pinned));
                self.reload_and_say(read, failed.as_str(), loaded.as_str());
            },
            AfterReload::Removed { name, bins } => {
                let failed = cat3("removed ", name.as_str(), ", but the reload failed: ");
                let loaded = cat5(
                    "removed ",
                    name.as_str(),
                    " (",
                    join(&bins, ", ").as_str(),
                    ")",
                );
                self.reload_and_say(read, failed.as_str(), loaded.as_str());
            },
            AfterReload::Jump { keep, search, back } => {
                return Ok(self.jump_reloaded(keep, search, back, read));
            },
            AfterReload::JumpBack { failed, error, search } => self.jump_back_reloaded(
                failed,
                error,
                search,
                read,
            ),
            AfterReload::BatchStep(fin) => self.finish_batch_step(fin, read),
            AfterReload::InstallBatch(close) => self.install_batch_reloaded(close, read),
            AfterReload::Build(fin) => self.build_reloaded(fin, read),
            AfterReload::Search { query, hits } => self.search_reloaded(query, hits, read),
            AfterReload::Terminal { action, outcome } => {
                return self.terminal_reloaded(action, outcome, read);
            },
        }
        Ok(Flow::Done)
    }
}

} // verus!
