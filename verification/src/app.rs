//! The interface's state machine: what every key, every finished job and every
//! answer from outside changes, and what is to be done outside next.
//!
//! Nothing here touches the terminal, the disk or a process. A step that needs
//! one of them returns a [`Flow`] that names it; the run loop does it and hands
//! the answer to the method that the flow names.
use crate::batch::{BatchRunner, InstallBatch, InstallSection, MigrateBatch, MigrateSection};
use crate::decimal::{
    count_of, decimal, decimal2, decimal2_of, decimal_of, law_decimal_round_trips, value,
};
use crate::job::{BuildJob, BuildKind, BuildOutcome, Job, PendingBuild};
use crate::state::{
    admits, admitted, rows_from, rows_show, AlsoIn, BuildReport, Checked, Confirm, DowngradeChoice,
    Entry, Filter, Hit, Input, Manifest, Message, MessageKind, PendingAction, PendingInPlace,
    PendingMigrate, PlannedUpdate, ReinstallPlan, ReloadOutcome, Report, Row, RowStatus,
    SearchResult,
};
use crate::text::{cat, cat3, cat5, cat6, sanitize, sanitized, texts};
use crate::version::Version;
use std::collections::VecDeque;
use vstd::prelude::*;

pub mod end_laws;
pub mod finish;
pub mod frame_laws;
pub mod key_laws;
pub mod keys;
pub mod laws;
pub mod oneshot;
pub mod poll;
pub mod result_laws;
pub mod resume;
pub mod run_laws;
pub mod sound;
pub mod start;

verus! {

/// Grace an accepted cancel gets before the run loop escalates, in
/// milliseconds.
pub const CANCEL_GRACE: u64 = 2000;

/// Output lines kept for the failure panel; the full text is in the log file.
pub const BUILD_TAIL: usize = 40;

/// Hits the details panel shows.
pub const SEARCH_HITS: usize = 6;

/// How many versions a downgrade offers: what a single digit can name.
pub const DOWNGRADE_CHOICES: usize = 9;

/// The interface's whole state.
pub struct App {
    pub prefix: String,
    /// Ctrl-C during a build: quit once the worker reports back.
    pub quit_after_build: bool,
    /// Every manifest entry, in manifest (alphabetical) order.
    pub rows: Vec<Row>,
    /// Age in seconds of the report the rows' statuses came from; `None`
    /// without a report.
    pub report_age: Option<u64>,
    pub filter: Filter,
    /// Index into the visible rows, not into `rows`.
    pub selected: usize,
    pub message: Option<Message>,
    pub input: Option<Input>,
    pub confirm: Option<Confirm>,
    /// A confirmed migration waiting for the run loop.
    pub pending_migrate: Option<PendingMigrate>,
    /// A running migration batch.
    pub migrate_batch: Option<MigrateBatch>,
    /// A running list of installs, or a sweep.
    pub install_batch: Option<InstallBatch>,
    /// Asked for, not yet started: the preflight may need the terminal.
    pub pending_install_batch: Option<(Vec<String>, bool)>,
    pub pending_reinstall_sweep: Option<Vec<(String, ReinstallPlan)>>,
    pub pending_update_sweep: Option<Vec<PlannedUpdate>>,
    pub pending_in_place: Option<PendingInPlace>,
    pub search_result: Option<SearchResult>,
    pub downgrade_choice: Option<DowngradeChoice>,
    /// A build's sticky report pinned to the details panel until dismissed.
    pub build_report: Option<BuildReport>,
    /// The loader's refusal: the degraded state.
    pub manifest_error: Option<String>,
    /// Sticky-report scroll offset.
    pub report_scroll: u16,
    /// The report panel's real scroll bound, written back by the renderer.
    pub report_scroll_max: u16,
    pub show_help: bool,
    pub pending: Option<PendingAction>,
    /// A captured build waiting for the run loop.
    pub pending_build: Option<PendingBuild>,
    pub job: Option<Job>,
    /// Frame counter; drives the gauge spinner.
    pub ticks: usize,
    pub should_quit: bool,
}

/// What a read of the manifest brought.
pub enum ManifestRead {
    /// The lock was not to be had: a hard failure.
    Locked(String),
    /// The loader refused what it found.
    Refused(String),
    /// The entries, and per crate the other prefixes that carry it.
    Loaded { manifest: Manifest, also: Vec<(String, Vec<AlsoIn>)> },
}

/// What a read of the prefix brought: the recorded update check, and the
/// manifest.
pub struct PrefixRead {
    pub report: Result<Option<Report>, String>,
    pub manifest: ManifestRead,
}

/// What waits for a reload.
pub enum AfterReload {
    /// The degraded state's retry.
    Retry,
    /// An update check.
    Check,
    /// The plan of a whole-prefix migration.
    MigrateAll { dest: String },
    /// A pin that was set or lifted.
    PinChanged { name: String, pinned: bool, version: String },
    /// A pin that the manifest had already.
    PinAlready { name: String, pinned: bool },
    /// A removal.
    Removed { name: String, bins: Vec<String> },
    /// A jump to the other prefix, with what a rollback restores.
    Jump { keep: Option<String>, search: Option<SearchResult>, back: String },
    /// A jump that failed, back at the old prefix.
    JumpBack { failed: String, error: String, search: Option<SearchResult> },
    /// A member of a migration batch that ended.
    BatchStep(Finished),
    /// A batch that ended.
    InstallBatch(BatchClose),
    /// A single build that ended.
    Build(Finished),
    /// A search that found something.
    Search { query: String, hits: Vec<Hit> },
    /// A command that had the terminal.
    Terminal { action: PendingAction, outcome: Result<(), String> },
}

/// A build that ended: what it was, how it ended, and what it said.
pub struct Finished {
    pub name: String,
    pub kind: BuildKind,
    pub outcome: BuildOutcome,
    pub tail: VecDeque<String>,
    pub warnings: Vec<String>,
}

/// A batch that ended, with everything filed but the reload.
pub struct BatchClose {
    pub batch: InstallBatch,
    /// The failure that belongs to the plan, if there is one.
    pub plan_failure: Option<Vec<String>>,
    pub cancelled: bool,
}

/// Who asked for a cancel.
#[derive(Clone, Copy, PartialEq, Eq, Debug, Structural)]
pub enum CancelFor {
    /// The cancel key.
    Key,
    /// Ctrl-C: cancel, and quit once the worker reports back.
    Quit,
    /// The grace that ran out.
    Overdue,
}

/// What asks for the other prefix of the known pair.
#[derive(Clone, Copy, PartialEq, Eq, Debug, Structural)]
pub enum PairFor {
    Migrate,
    MigrateAll,
    Jump,
}

/// Work for a worker thread, once the job slot is taken.
pub enum Work {
    Verify,
    Check { entries: Vec<(String, Entry)> },
    Search { query: String },
    UpdateSweepCheck,
    ReinstallPlan,
    UpdatePlan { name: String },
    Downgrade { name: String, current: Version },
}

/// What has to be done outside before the interface goes on.
pub enum Flow {
    /// Nothing.
    Done,
    /// Read the prefix again; then `reloaded`.
    Reload(AfterReload),
    /// Ask what is running to stop; then `cancel_answered`.
    RequestCancel(CancelFor),
    /// Find the other prefix of the known pair; then `pair_found`.
    FindPair(PairFor),
    /// Look whether the selected crate is at the destination already; then
    /// `destination_seen`.
    LookAt { dest: String, name: String },
    /// Probe whether this mutation needs privilege; then `privilege_probed`.
    ProbePrivilege(PendingInPlace),
    /// Do it; then `pin_applied` or `remove_applied`.
    Apply(PendingInPlace),
    /// Make a report of this, store it, and read the manifest; then
    /// `check_recorded`.
    Record { checked: Vec<Checked>, sweep: bool },
    /// Start a worker.
    Start(Work),
}

/// A row is counted for one of these.
#[derive(Clone, Copy, PartialEq, Eq, Debug, Structural)]
pub enum Tally {
    Updates,
    Pinned,
    PinnedOutdated,
    Outdated,
    Unchecked,
}

/// Whether a row is counted.
pub open spec fn counts(what: Tally, row: Row) -> bool {
    match what {
        Tally::Updates => row.status is Outdated && !row.pinned,
        Tally::Pinned => row.pinned,
        Tally::PinnedOutdated => row.pinned && row.status is Outdated,
        Tally::Outdated => row.status is Outdated,
        Tally::Unchecked => row.status is Unknown,
    }
}

/// How many rows are counted.
pub open spec fn tally(what: Tally, rows: Seq<Row>) -> nat
    decreases rows.len(),
{
    if rows.len() == 0 {
        0
    } else {
        tally(what, rows.drop_last()) + if counts(what, rows.last()) {
            1nat
        } else {
            0
        }
    }
}

/// The rows that a view shows, in order.
pub open spec fn shown(rows: Seq<Row>, filter: Filter) -> Seq<Row>
    decreases rows.len(),
{
    if rows.len() == 0 {
        Seq::empty()
    } else if admitted(filter, rows.last()) {
        shown(rows.drop_last(), filter).push(rows.last())
    } else {
        shown(rows.drop_last(), filter)
    }
}

/// A selection that stands within the visible rows.
pub open spec fn clamped(selected: int, len: nat) -> int {
    if len == 0 {
        0
    } else if selected >= len {
        len - 1
    } else {
        selected
    }
}

/// The frames of the gauge's spinner.
pub open spec fn spinner(ticks: int) -> char {
    seq!['⠋', '⠙', '⠹', '⠸', '⠼', '⠴', '⠦', '⠧'][ticks % 8]
}

/// Seconds as a clock: mm:ss, rolling to h:mm:ss; the widest field grows
/// instead of wrapping.
pub open spec fn elapsed(total: nat) -> Seq<char> {
    let (h, m, s) = (total / 3600, (total % 3600) / 60, total % 60);
    if h > 0 {
        decimal(h) + ":"@ + decimal2(m) + ":"@ + decimal2(s)
    } else {
        decimal2(m) + ":"@ + decimal2(s)
    }
}

/// Whole seconds from `started` to `now`, both in milliseconds.
pub open spec fn seconds_since(started: u64, now: u64) -> nat {
    if now <= started {
        0
    } else {
        ((now - started) / 1000) as nat
    }
}

/// Seconds as a clock.
pub fn format_elapsed(total: u64) -> (r: String)
    ensures
        r@ == elapsed(total as nat),
{
    let h: u64 = total / 3600;
    let m: u64 = (total % 3600) / 60;
    let s: u64 = total % 60;
    if h > 0 {
        cat5(
            decimal_of(h).as_str(),
            ":",
            decimal2_of(m).as_str(),
            ":",
            decimal2_of(s).as_str(),
        )
    } else {
        cat3(decimal2_of(m).as_str(), ":", decimal2_of(s).as_str())
    }
}

fn elapsed_since(started: u64, now: u64) -> (r: String)
    ensures
        r@ == elapsed(seconds_since(started, now)),
{
    if now <= started {
        format_elapsed(0)
    } else {
        format_elapsed((now - started) / 1000)
    }
}

/// The spinner's frame as a text.
fn spinner_frame(ticks: usize) -> (r: String)
    ensures
        r@ == seq![spinner(ticks as int)],
{
    let c = match ticks % 8 {
        0 => '⠋',
        1 => '⠙',
        2 => '⠹',
        3 => '⠸',
        4 => '⠼',
        5 => '⠴',
        6 => '⠦',
        _ => '⠧',
    };
    let mut out = String::new();
    out.push(c);
    assert(out@ =~= seq![spinner(ticks as int)]);
    out
}

/// The words of the degraded state.
pub open spec fn degraded_text() -> Seq<char> {
    "the manifest cannot be loaded — v lists the findings; mutating actions are disabled until it is repaired (r retries the load)"@
}

/// A batch member as the gauge names it.
pub open spec fn member_label(batch: InstallBatch) -> Option<Seq<char>> {
    match batch.current {
        Some(name) => Some(
            "["@ + decimal(batch.attempted as nat) + "/"@ + decimal(batch.runner.total as nat)
                + "] "@ + name@,
        ),
        None => None,
    }
}

/// What a build's lines are about: the member that is building, or the job.
pub open spec fn subject_of(batch: Option<InstallBatch>, name: Seq<char>) -> Seq<char> {
    match batch {
        Some(b) => match member_label(b) {
            Some(label) => label,
            None => name,
        },
        None => name,
    }
}

/// What a build's lines are about.
fn subject_text(batch: &Option<InstallBatch>, name: &str) -> (r: String)
    ensures
        r@ == subject_of(*batch, name@),
{
    match batch {
        Some(b) => match &b.current {
            Some(member) => cat6(
                "[",
                count_of(b.attempted).as_str(),
                "/",
                count_of(b.runner.total).as_str(),
                "] ",
                member.as_str(),
            ),
            None => name.to_owned(),
        },
        None => name.to_owned(),
    }
}

impl PrefixRead {
    /// The report that the rows are joined with.
    pub open spec fn usable_report(self) -> Option<Report> {
        match self.report {
            Ok(report) => report,
            Err(_) => None,
        }
    }
}

/// Whether the rows of `after` are those that a read of the manifest gives:
/// loaded, degraded, or as they were where the lock was not to be had.
pub open spec fn list_read(
    before: App,
    read: ManifestRead,
    report: Option<&Report>,
    after: App,
) -> bool {
    match read {
        ManifestRead::Locked(_) => {
            &&& after.rows == before.rows
            &&& after.report_age == before.report_age
            &&& after.manifest_error == before.manifest_error
        },
        ManifestRead::Refused(e) => {
            &&& after.rows@.len() == 0
            &&& after.report_age is None
            &&& after.manifest_error matches Some(m) && m@ == sanitized(e@)
        },
        ManifestRead::Loaded { manifest, also } => {
            &&& rows_show(after.rows@, manifest, report, also@)
            &&& after.report_age == match report {
                Some(report) => Some(report.age),
                None => None,
            }
            &&& after.manifest_error is None
        },
    }
}

/// Whether the list of `after` is the one that a read of the manifest gives,
/// with the selection brought back within it.
pub open spec fn listed(
    before: App,
    read: ManifestRead,
    report: Option<&Report>,
    after: App,
) -> bool {
    &&& list_read(before, read, report, after)
    &&& after.selected == match read {
        ManifestRead::Locked(_) => before.selected as int,
        ManifestRead::Refused(_) => 0,
        ManifestRead::Loaded { .. } => clamped(
            before.selected as int,
            shown(after.rows@, before.filter).len(),
        ),
    }
}

/// What a read of the manifest answers.
pub open spec fn read_answer(read: ManifestRead) -> Result<ReloadOutcome, String> {
    match read {
        ManifestRead::Locked(e) => Err(e),
        ManifestRead::Refused(_) => Ok(ReloadOutcome::Degraded),
        ManifestRead::Loaded { .. } => Ok(ReloadOutcome::Loaded),
    }
}

/// Whether the rows of `after` are those that a reload gives.
pub open spec fn rows_reread(before: App, read: PrefixRead, after: App) -> bool {
    list_read(
        before,
        read.manifest,
        match read.usable_report() {
            Some(report) => Some(&report),
            None => None,
        },
        after,
    )
}

/// Whether the list of `after` is the one that a reload gives, with the selection
/// brought back within it.
pub open spec fn list_reread(before: App, read: PrefixRead, after: App) -> bool {
    listed(
        before,
        read.manifest,
        match read.usable_report() {
            Some(report) => Some(&report),
            None => None,
        },
        after,
    )
}

/// Whether the list of `after` is the one that a reload gives: what a search
/// or an offer said about the prefix is gone with it.
pub open spec fn relisted(before: App, read: PrefixRead, after: App) -> bool {
    &&& after.search_result is None
    &&& after.downgrade_choice is None
    &&& list_reread(before, read, after)
}

/// Whether the message of `after` is the one that a reload leaves.
pub open spec fn reload_says(before: App, read: PrefixRead, after: App) -> bool {
    if read.manifest is Refused {
        after.says(degraded_text(), MessageKind::Error)
    } else {
        match read.report {
            Err(e) => after.says("update report unreadable: "@ + e@, MessageKind::Warning),
            Ok(_) => after.message == before.message,
        }
    }
}

impl App {
    /// Whether the last message is this one.
    pub open spec fn says(self, text: Seq<char>, kind: MessageKind) -> bool {
        self.message matches Some(m) && m.text@ == sanitized(text) && m.kind == kind
    }

    /// Whether the panel holds this report, from its first line.
    pub open spec fn pins(self, title: Seq<char>, lines: Seq<Seq<char>>, failed: bool) -> bool {
        &&& self.report_scroll == 0
        &&& self.build_report matches Some(report) && report.title@ == title && texts(
            report.lines@,
        ) == lines && report.failed == failed
    }

    /// The rows on screen.
    pub open spec fn view_rows(self) -> Seq<Row> {
        shown(self.rows@, self.filter)
    }

    /// Whether the selection stands within the rows on screen.
    pub open spec fn in_view(self) -> bool {
        self.selected == clamped(self.selected as int, self.view_rows().len())
    }

    /// The selected row.
    pub open spec fn chosen(self) -> Option<Row> {
        if self.selected < self.view_rows().len() {
            Some(self.view_rows()[self.selected as int])
        } else {
            None
        }
    }

    /// Anything running or queued.
    pub open spec fn occupied(self) -> bool {
        ||| self.job is Some
        ||| self.migrate_batch is Some
        ||| self.install_batch is Some
        ||| self.pending_install_batch is Some
        ||| self.pending_reinstall_sweep is Some
        ||| self.pending_update_sweep is Some
        ||| self.pending_in_place is Some
        ||| self.pending_migrate is Some
        ||| self.pending_build is Some
        ||| self.pending is Some
    }

    /// Whether the batches have the sections that their members are filed
    /// under.
    pub open spec fn valid(self) -> bool {
        &&& self.install_batch matches Some(b) ==> sections_fit(b)
        &&& self.migrate_batch matches Some(b) ==> migrate_sections_fit(b.runner)
    }

    /// Whether a migration of everything adds up: of its members, each has an
    /// answer or waits in the queue, but for one that is on its way.
    pub open spec fn adds_up(self) -> bool {
        self.migrate_batch matches Some(b) ==> crate::batch::accounted(b.runner) < b.runner.total
    }

    /// The state of an interface that has read nothing yet.
    pub open spec fn blank(self, prefix: String) -> bool {
        &&& self.prefix == prefix
        &&& !self.quit_after_build
        &&& self.rows@.len() == 0
        &&& self.report_age is None
        &&& self.filter == Filter::All
        &&& self.selected == 0
        &&& self.message is None
        &&& self.input is None
        &&& self.confirm is None
        &&& !self.occupied()
        &&& self.search_result is None
        &&& self.downgrade_choice is None
        &&& self.build_report is None
        &&& self.manifest_error is None
        &&& self.report_scroll == 0
        &&& self.report_scroll_max == 0
        &&& !self.show_help
        &&& self.ticks == 0
        &&& !self.should_quit
    }

    fn empty(prefix: String) -> (r: App)
        ensures
            r.blank(prefix),
    {
        App {
            prefix,
            quit_after_build: false,
            rows: Vec::new(),
            report_age: None,
            filter: Filter::All,
            selected: 0,
            message: None,
            input: None,
            confirm: None,
            pending_migrate: None,
            migrate_batch: None,
            install_batch: None,
            pending_install_batch: None,
            pending_reinstall_sweep: None,
            pending_update_sweep: None,
            pending_in_place: None,
            search_result: None,
            downgrade_choice: None,
            build_report: None,
            manifest_error: None,
            report_scroll: 0,
            report_scroll_max: 0,
            show_help: false,
            pending: None,
            pending_build: None,
            job: None,
            ticks: 0,
            should_quit: false,
        }
    }

    /// An interface over a prefix, from its first read. Both a loaded and a
    /// refused manifest are a session: degraded starts are by design. Only a
    /// lock that is not to be had keeps the interface out.
    pub fn new(prefix: String, read: PrefixRead) -> (r: Result<App, String>)
        ensures
            match r {
                Ok(app) => !(read.manifest is Locked) && exists|start: App|
                    {
                        &&& #[trigger] start.blank(prefix)
                        &&& relisted(start, read, app)
                        &&& reload_says(start, read, app)
                        &&& app == (App {
                            message: app.message,
                            rows: app.rows,
                            report_age: app.report_age,
                            selected: app.selected,
                            manifest_error: app.manifest_error,
                            ..start
                        })
                    },
                Err(e) => read.manifest == ManifestRead::Locked(e),
            },
    {
        let mut app = App::empty(prefix);
        match app.reload(read) {
            Ok(_) => Ok(app),
            Err(e) => Err(e),
        }
    }

    /// Re-read: at start, after handoffs, before checks and search results, each
    /// a moment the person is about to see or act on the prefix.
    ///
    /// A search result marks hits installed, a fact about the prefix that is
    /// stale the moment anything re-reads it. A downgrade offer goes for the
    /// same reason.
    pub fn reload(&mut self, read: PrefixRead) -> (r: Result<ReloadOutcome, String>)
        ensures
            r == read_answer(read.manifest),
            relisted(*old(self), read, *final(self)),
            reload_says(*old(self), read, *final(self)),
            *final(self) == (App {
                message: final(self).message,
                search_result: None,
                downgrade_choice: None,
                rows: final(self).rows,
                report_age: final(self).report_age,
                selected: final(self).selected,
                manifest_error: final(self).manifest_error,
                ..*old(self)
            }),
    {
        self.search_result = None;
        self.downgrade_choice = None;
        let report = match read.report {
            Ok(report) => report,
            Err(e) => {
                self.warn(cat("update report unreadable: ", e.as_str()).as_str());
                None
            },
        };
        self.apply_report(read.manifest, report.as_ref())
    }

    /// Rebuild rows from a fresh manifest and the given report, possibly one
    /// that failed to persist; what the index answered is shown.
    ///
    /// The loader's refusal is a state to present, not a reason to keep the
    /// interface out: degrade, and recover on the next successful reload.
    pub fn apply_report(&mut self, read: ManifestRead, report: Option<&Report>) -> (r: Result<
        ReloadOutcome,
        String,
    >)
        ensures
            r == read_answer(read),
            listed(*old(self), read, report, *final(self)),
            if read is Refused {
                final(self).says(degraded_text(), MessageKind::Error)
            } else {
                final(self).message == old(self).message
            },
            *final(self) == (App {
                message: final(self).message,
                rows: final(self).rows,
                report_age: final(self).report_age,
                selected: final(self).selected,
                manifest_error: final(self).manifest_error,
                ..*old(self)
            }),
    {
        match read {
            ManifestRead::Locked(e) => Err(e),
            ManifestRead::Refused(e) => {
                self.manifest_error = Some(sanitize(e.as_str()));
                self.rows = Vec::new();
                self.report_age = None;
                self.clamp_selection();
                self.error(
                    "the manifest cannot be loaded — v lists the findings; mutating actions are disabled until it is repaired (r retries the load)",
                );
                Ok(ReloadOutcome::Degraded)
            },
            ManifestRead::Loaded { manifest, also } => {
                self.manifest_error = None;
                self.rows = rows_from(&manifest, report, &also);
                self.report_age = match report {
                    Some(report) => Some(report.age),
                    None => None,
                };
                self.clamp_selection();
                Ok(ReloadOutcome::Loaded)
            },
        }
    }

    /// Rows under the current filter.
    pub fn visible(&self) -> (r: Vec<&Row>)
        ensures
            r.len() == self.view_rows().len(),
            forall|i: int| 0 <= i < r.len() ==> *(#[trigger] r@[i]) == self.view_rows()[i],
    {
        let mut out: Vec<&Row> = Vec::new();
        let mut i: usize = 0;
        assert(self.rows@.take(0) =~= Seq::<Row>::empty());
        while i < self.rows.len()
            invariant
                i <= self.rows.len(),
                out.len() == shown(self.rows@.take(i as int), self.filter).len(),
                forall|j: int|
                    0 <= j < out.len() ==> *(#[trigger] out@[j]) == shown(
                        self.rows@.take(i as int),
                        self.filter,
                    )[j],
            decreases self.rows.len() - i,
        {
            let row = &self.rows[i];
            assert(self.rows@.take(i + 1).drop_last() =~= self.rows@.take(i as int));
            assert(self.rows@.take(i + 1).last() == row);
            if admits(self.filter, row) {
                out.push(row);
            }
            i = i + 1;
        }
        assert(self.rows@.take(i as int) =~= self.rows@);
        out
    }

    /// Is a build job running? While one runs the hint bar swaps to the build's
    /// controls.
    pub fn build_running(&self) -> (r: bool)
        ensures
            r == (self.job matches Some(Job::Build(_))),
    {
        matches!(self.job, Some(Job::Build(_)))
    }

    /// A read-only or planning job holds the slot; the footer advertises its
    /// cancel door.
    pub fn oneshot_running(&self) -> (r: bool)
        ensures
            r == (self.job is Some && !(self.job matches Some(Job::Build(_)))),
    {
        match self.job {
            None => false,
            Some(Job::Build(_)) => false,
            Some(_) => true,
        }
    }

    /// Anything running or queued: the union every in-place mutation and the
    /// jump consult. A batch between members has an empty job slot and a full
    /// queue, and both count.
    pub fn anything_running(&self) -> (r: bool)
        ensures
            r == self.occupied(),
    {
        self.job.is_some() || self.migrate_batch.is_some() || self.install_batch.is_some()
            || self.pending_install_batch.is_some() || self.pending_reinstall_sweep.is_some()
            || self.pending_update_sweep.is_some() || self.pending_in_place.is_some()
            || self.pending_migrate.is_some() || self.pending_build.is_some()
            || self.pending.is_some()
    }

    /// The selected row, if there is one.
    pub fn selected_row(&self) -> (r: Option<&Row>)
        ensures
            match r {
                Some(row) => self.chosen() == Some(*row),
                None => self.chosen() is None,
            },
    {
        let visible = self.visible();
        if self.selected < visible.len() {
            Some(visible[self.selected])
        } else {
            None
        }
    }

    /// How many rows are counted.
    fn count(&self, what: Tally) -> (r: usize)
        ensures
            r == tally(what, self.rows@),
    {
        let mut n: usize = 0;
        let mut i: usize = 0;
        assert(self.rows@.take(0) =~= Seq::<Row>::empty());
        while i < self.rows.len()
            invariant
                i <= self.rows.len(),
                n <= i,
                n == tally(what, self.rows@.take(i as int)),
            decreases self.rows.len() - i,
        {
            let row = &self.rows[i];
            assert(self.rows@.take(i + 1).drop_last() =~= self.rows@.take(i as int));
            assert(self.rows@.take(i + 1).last() == row);
            let outdated = matches!(row.status, RowStatus::Outdated(_));
            let counted = match what {
                Tally::Updates => outdated && !row.pinned,
                Tally::Pinned => row.pinned,
                Tally::PinnedOutdated => row.pinned && outdated,
                Tally::Outdated => outdated,
                Tally::Unchecked => matches!(row.status, RowStatus::Unknown),
            };
            if counted {
                n = n + 1;
            }
            i = i + 1;
        }
        assert(self.rows@.take(i as int) =~= self.rows@);
        n
    }

    /// Crates that an update of everything would move: pinned crates are held
    /// back and counted separately.
    pub fn updates_available(&self) -> (r: usize)
        ensures
            r == tally(Tally::Updates, self.rows@),
    {
        self.count(Tally::Updates)
    }

    /// Pinned crates.
    pub fn pinned_count(&self) -> (r: usize)
        ensures
            r == tally(Tally::Pinned, self.rows@),
    {
        self.count(Tally::Pinned)
    }

    /// Pinned crates the last check found newer versions for.
    pub fn pinned_outdated(&self) -> (r: usize)
        ensures
            r == tally(Tally::PinnedOutdated, self.rows@),
    {
        self.count(Tally::PinnedOutdated)
    }

    /// Installed crates.
    pub fn total(&self) -> (r: usize)
        ensures
            r == self.rows@.len(),
    {
        self.rows.len()
    }

    /// Rows the report says nothing about, counted so "0 updates" never implies
    /// "all current".
    pub fn not_checked(&self) -> (r: usize)
        ensures
            r == tally(Tally::Unchecked, self.rows@),
    {
        self.count(Tally::Unchecked)
    }

    /// What the running job is called.
    pub fn busy(&self) -> (r: Option<String>)
        ensures
            match self.job {
                Some(job) => r matches Some(label) && label@ == job.words(),
                None => r is None,
            },
    {
        match &self.job {
            Some(job) => Some(job.label()),
            None => None,
        }
    }

    /// The transient panel's frame title, following the job it hosts: the shape
    /// is shared, the name is not.
    pub fn transient_panel_title(&self) -> (r: &'static str)
        ensures
            r@ == if self.job matches Some(Job::Verify { .. }) {
                " Verify "@
            } else {
                " Build "@
            },
    {
        match &self.job {
            Some(Job::Verify { .. }) => " Verify ",
            _ => " Build ",
        }
    }

    /// The live gauge line of a running build or audit at the time `now`.
    pub open spec fn gauge(self, now: u64) -> Option<Seq<char>> {
        let frame = seq![spinner(self.ticks as int)];
        match self.job {
            Some(Job::Verify { started, cancel }) => Some(
                frame + " verify: "@ + (if cancel {
                    "cancel requested"@
                } else {
                    "checking"@
                }) + " "@ + self.prefix@ + " · elapsed "@ + elapsed(seconds_since(started, now)),
            ),
            Some(Job::Build(build)) => {
                let name = subject_of(self.install_batch, build.name@);
                let clock = elapsed(seconds_since(build.started, now));
                Some(
                    match build.status_note {
                        Some(note) => frame + " "@ + name + ": "@ + note@ + " · elapsed "@ + clock,
                        None => (frame + " building "@ + name + " · "@ + decimal(
                            build.units_started as nat,
                        ) + " "@ + (if build.units_started == 1 {
                            "unit"@
                        } else {
                            "units"@
                        })) + match build.current {
                            Some(current) => " · compiling "@ + current@,
                            None => Seq::empty(),
                        } + (" · elapsed "@ + clock),
                    },
                )
            },
            _ => None,
        }
    }

    /// The live gauge line for a running build, or `None`. The spinner keeps the
    /// line visibly alive between units: one large crate can compile for
    /// minutes without a new line. A running audit borrows the same panel.
    ///
    /// A pipeline notice is the live truth; the clock runs through it. In a
    /// batch the line names the member for as long as it is that member.
    pub fn build_progress(&self, now: u64) -> (r: Option<String>)
        ensures
            match self.gauge(now) {
                Some(line) => r matches Some(text) && text@ == line,
                None => r is None,
            },
    {
        let frame = spinner_frame(self.ticks);
        match &self.job {
            Some(Job::Verify { started, cancel }) => {
                let state = if *cancel {
                    "cancel requested"
                } else {
                    "checking"
                };
                let mut line = cat5(
                    frame.as_str(),
                    " verify: ",
                    state,
                    " ",
                    self.prefix.as_str(),
                );
                line.append(" · elapsed ");
                line.append(elapsed_since(*started, now).as_str());
                Some(line)
            },
            Some(Job::Build(build)) => {
                let clock = elapsed_since(build.started, now);
                let name = subject_text(&self.install_batch, build.name.as_str());
                match &build.status_note {
                    Some(note) => {
                        let mut line = cat6(
                            frame.as_str(),
                            " ",
                            name.as_str(),
                            ": ",
                            note.as_str(),
                            " · elapsed ",
                        );
                        line.append(clock.as_str());
                        Some(line)
                    },
                    None => {
                        let word = if build.units_started == 1 {
                            "unit"
                        } else {
                            "units"
                        };
                        let mut line = cat6(
                            frame.as_str(),
                            " building ",
                            name.as_str(),
                            " · ",
                            count_of(build.units_started).as_str(),
                            " ",
                        );
                        line.append(word);
                        let unit = match &build.current {
                            Some(current) => cat(" · compiling ", current.as_str()),
                            None => String::new(),
                        };
                        line.append(unit.as_str());
                        line.append(cat(" · elapsed ", clock.as_str()).as_str());
                        Some(line)
                    },
                }
            },
            _ => None,
        }
    }

    /// The prefix this interface is over.
    pub fn prefix(&self) -> (r: &str)
        ensures
            r@ == self.prefix@,
    {
        self.prefix.as_str()
    }

    /// Bring the selection back within the rows on screen.
    pub fn clamp_selection(&mut self)
        ensures
            final(self).selected == clamped(
                old(self).selected as int,
                old(self).view_rows().len(),
            ),
            *final(self) == (App { selected: final(self).selected, ..*old(self) }),
    {
        let len = self.visible().len();
        self.selected = if len == 0 {
            0
        } else if self.selected >= len {
            len - 1
        } else {
            self.selected
        };
    }

    /// The name of the selected crate.
    pub fn selected_name(&self) -> (r: Option<String>)
        ensures
            match r {
                Some(name) => self.chosen() matches Some(row) && row.name == name,
                None => self.chosen() is None,
            },
    {
        match self.selected_row() {
            Some(row) => Some(row.name.clone()),
            None => None,
        }
    }

    /// One row down, if there is one.
    pub fn select_next(&mut self)
        ensures
            final(self).selected == if old(self).selected + 1 < old(self).view_rows().len() {
                old(self).selected + 1
            } else {
                old(self).selected as int
            },
            *final(self) == (App { selected: final(self).selected, ..*old(self) }),
    {
        let len = self.visible().len();
        if len > 0 && self.selected < len - 1 {
            self.selected = self.selected + 1;
        }
    }

    /// One row up, if there is one.
    pub fn select_prev(&mut self)
        ensures
            final(self).selected == if old(self).selected > 0 {
                old(self).selected - 1
            } else {
                0
            },
            *final(self) == (App { selected: final(self).selected, ..*old(self) }),
    {
        if self.selected > 0 {
            self.selected = self.selected - 1;
        }
    }

    /// The one door to the sticky panel: pinning resets the scroll, since a
    /// leftover offset would open the next report in its middle.
    pub fn pin_report(&mut self, report: BuildReport)
        ensures
            *final(self) == (App { report_scroll: 0, build_report: Some(report), ..*old(self) }),
    {
        self.report_scroll = 0;
        self.build_report = Some(report);
    }

    /// Say something routine.
    pub fn info(&mut self, text: &str)
        ensures
            final(self).says(text@, MessageKind::Info),
            *final(self) == (App { message: final(self).message, ..*old(self) }),
    {
        self.notify(text, MessageKind::Info);
    }

    /// Say that something succeeded with something around it that did not.
    pub fn warn(&mut self, text: &str)
        ensures
            final(self).says(text@, MessageKind::Warning),
            *final(self) == (App { message: final(self).message, ..*old(self) }),
    {
        self.notify(text, MessageKind::Warning);
    }

    /// Say that something failed or is refused.
    pub fn error(&mut self, text: &str)
        ensures
            final(self).says(text@, MessageKind::Error),
            *final(self) == (App { message: final(self).message, ..*old(self) }),
    {
        self.notify(text, MessageKind::Error);
    }

    /// Say something: bound for the screen like everything else, so sanitized.
    pub fn notify(&mut self, text: &str, kind: MessageKind)
        ensures
            final(self).says(text@, kind),
            *final(self) == (App { message: final(self).message, ..*old(self) }),
    {
        self.message = Some(Message { text: sanitize(text), kind });
    }
}

/// Whether a batch of installs has every section that its members are filed
/// under: a sweep can skip, a list of crates somebody typed cannot.
pub open spec fn sections_fit(batch: InstallBatch) -> bool {
    &&& crate::batch::declared(batch.runner.sections@, InstallSection::Failed)
    &&& crate::batch::declared(batch.runner.sections@, InstallSection::Refused)
    &&& crate::batch::declared(batch.runner.sections@, InstallSection::Noticed)
}

/// Whether a migration batch has every section that its members are filed
/// under.
pub open spec fn migrate_sections_fit(runner: BatchRunner<PendingMigrate, MigrateSection>) -> bool {
    &&& crate::batch::declared(runner.sections@, MigrateSection::Failed)
    &&& crate::batch::declared(runner.sections@, MigrateSection::Refused)
    &&& crate::batch::declared(runner.sections@, MigrateSection::Incomplete)
    &&& crate::batch::declared(runner.sections@, MigrateSection::Noticed)
}

/// The Updates tab counts what the Updates view shows, the Pinned tab what the
/// Pinned view shows, and the Packages tab everything.
pub proof fn law_tabs_count_their_views(rows: Seq<Row>)
    ensures
        tally(Tally::Updates, rows) == shown(rows, Filter::Updates).len(),
        tally(Tally::Pinned, rows) == shown(rows, Filter::Pinned).len(),
        rows.len() == shown(rows, Filter::All).len(),
    decreases rows.len(),
{
    if rows.len() > 0 {
        law_tabs_count_their_views(rows.drop_last());
    }
}

/// The updates on offer and the pinned backlog are together everything that is
/// out of date: a pin holds a crate back, it never hides it.
pub proof fn law_pins_hide_nothing(rows: Seq<Row>)
    ensures
        tally(Tally::Updates, rows) + tally(Tally::PinnedOutdated, rows) == tally(
            Tally::Outdated,
            rows,
        ),
        tally(Tally::Outdated, rows) + tally(Tally::Unchecked, rows) <= rows.len(),
        tally(Tally::PinnedOutdated, rows) <= tally(Tally::Pinned, rows),
    decreases rows.len(),
{
    if rows.len() > 0 {
        law_pins_hide_nothing(rows.drop_last());
    }
}

/// A view shows rows of the list, each of them admitted.
pub proof fn law_views_show_admitted_rows(rows: Seq<Row>, filter: Filter, i: int)
    requires
        0 <= i < shown(rows, filter).len(),
    ensures
        admitted(filter, shown(rows, filter)[i]),
        rows.contains(shown(rows, filter)[i]),
    decreases rows.len(),
{
    let front = rows.drop_last();
    if i < shown(front, filter).len() {
        law_views_show_admitted_rows(front, filter, i);
        let j = choose|j: int| 0 <= j < front.len() && front[j] == shown(front, filter)[i];
        assert(rows[j] == shown(rows, filter)[i]);
    } else {
        assert(rows[rows.len() - 1] == shown(rows, filter)[i]);
    }
}

/// A reload leaves the selection within the rows on screen, whatever was read,
/// if it stood there before.
pub proof fn law_reload_keeps_the_selection_in_view(before: App, read: PrefixRead, after: App)
    requires
        before.in_view(),
        relisted(before, read, after),
        after.filter == before.filter,
    ensures
        after.in_view(),
{
}

proof fn lemma_shown_filtered(rows: Seq<Row>, filter: Filter, belongs: spec_fn(Row) -> bool)
    requires
        forall|row: Row| belongs(row) == admitted(filter, row),
    ensures
        shown(rows, filter) == rows.filter(belongs),
    decreases rows.len(),
{
    reveal(Seq::filter);
    if rows.len() > 0 {
        lemma_shown_filtered(rows.drop_last(), filter, belongs);
    } else {
        assert(shown(rows, filter) =~= rows.filter(belongs));
    }
}

/// The rows on screen are the rows of the list that belong to the view, all of
/// them and in the list's order: in Packages everything, in Updates what is out
/// of date and not pinned, in Pinned what is pinned.
pub proof fn law_a_view_is_the_list_filtered(app: App, r: Vec<&Row>)
    requires
        call_ensures(App::visible, (&app,), r),
    ensures
        ({
            let seen = Seq::new(r@.len(), |i: int| *r@[i]);
            &&& app.filter is All ==> seen == app.rows@
            &&& app.filter is Updates ==> seen == app.rows@.filter(
                |row: Row| row.status is Outdated && !row.pinned,
            )
            &&& app.filter is Pinned ==> seen == app.rows@.filter(|row: Row| row.pinned)
        }),
{
    let seen = Seq::new(r@.len(), |i: int| *r@[i]);
    assert(seen =~= app.view_rows());
    if app.filter is Updates {
        lemma_shown_filtered(
            app.rows@,
            app.filter,
            |row: Row| row.status is Outdated && !row.pinned,
        );
    } else if app.filter is Pinned {
        lemma_shown_filtered(app.rows@, app.filter, |row: Row| row.pinned);
    } else {
        lemma_shown_filtered(app.rows@, app.filter, |row: Row| true);
        lemma_filter_all(app.rows@);
    }
}

proof fn lemma_filter_all(rows: Seq<Row>)
    ensures
        rows.filter(|row: Row| true) == rows,
    decreases rows.len(),
{
    reveal(Seq::filter);
    if rows.len() > 0 {
        lemma_filter_all(rows.drop_last());
        assert(rows.drop_last().push(rows.last()) =~= rows);
    } else {
        assert(rows.filter(|row: Row| true) =~= rows);
    }
}

proof fn lemma_tally_filtered(what: Tally, rows: Seq<Row>, counted: spec_fn(Row) -> bool)
    requires
        forall|row: Row| counted(row) == counts(what, row),
    ensures
        tally(what, rows) == rows.filter(counted).len(),
    decreases rows.len(),
{
    reveal(Seq::filter);
    if rows.len() > 0 {
        lemma_tally_filtered(what, rows.drop_last(), counted);
    }
}

/// The counts are counts of rows: updates of what is out of date and not pinned,
/// pins of what is pinned, the backlog of what is both pinned and out of date, the
/// unchecked of what no check spoke about, and the total of everything.
pub proof fn law_counts_are_counts_of_rows(
    app: App,
    updates: usize,
    pinned: usize,
    behind: usize,
    unchecked: usize,
    total: usize,
)
    requires
        call_ensures(App::updates_available, (&app,), updates),
        call_ensures(App::pinned_count, (&app,), pinned),
        call_ensures(App::pinned_outdated, (&app,), behind),
        call_ensures(App::not_checked, (&app,), unchecked),
        call_ensures(App::total, (&app,), total),
    ensures
        updates == app.rows@.filter(|row: Row| row.status is Outdated && !row.pinned).len(),
        pinned == app.rows@.filter(|row: Row| row.pinned).len(),
        behind == app.rows@.filter(|row: Row| row.pinned && row.status is Outdated).len(),
        unchecked == app.rows@.filter(|row: Row| row.status is Unknown).len(),
        total == app.rows.len(),
{
    let rows = app.rows@;
    lemma_tally_filtered(
        Tally::Updates,
        rows,
        |row: Row| row.status is Outdated && !row.pinned,
    );
    lemma_tally_filtered(Tally::Pinned, rows, |row: Row| row.pinned);
    lemma_tally_filtered(
        Tally::PinnedOutdated,
        rows,
        |row: Row| row.pinned && row.status is Outdated,
    );
    lemma_tally_filtered(Tally::Unchecked, rows, |row: Row| row.status is Unknown);
}

/// The selected row is the one on screen at the selection, and there is none
/// where the selection stands behind the last.
pub proof fn law_the_selection_is_a_row_on_screen(
    app: App,
    seen: Vec<&Row>,
    row: Option<&Row>,
    name: Option<String>,
)
    requires
        call_ensures(App::visible, (&app,), seen),
        call_ensures(App::selected_row, (&app,), row),
        call_ensures(App::selected_name, (&app,), name),
    ensures
        row is Some <==> app.selected < seen.len(),
        row is Some ==> *row->0 == *seen@[app.selected as int],
        name is Some <==> row is Some,
        name is Some ==> name->0 == row->0.name,
{
}

/// The selection moves one row at a time and never off the screen: down from any
/// row but the last, up from any row but the first, and a step back undoes a step
/// that moved.
pub proof fn law_the_selection_moves_by_one(
    down: &mut App,
    up: &mut App,
    clamp: &mut App,
    below: Vec<&Row>,
    around: Vec<&Row>,
)
    requires
        call_ensures(App::visible, (&*old(down),), below),
        call_ensures(App::select_next, (down,), ()),
        call_ensures(App::select_prev, (up,), ()),
        call_ensures(App::visible, (&*old(clamp),), around),
        call_ensures(App::clamp_selection, (clamp,), ()),
    ensures
        old(down).selected + 1 < below.len() ==> final(down).selected == old(down).selected + 1,
        old(down).selected + 1 >= below.len() ==> final(down).selected == old(down).selected,
        old(up).selected > 0 ==> final(up).selected == old(up).selected - 1,
        old(up).selected == 0 ==> final(up).selected == 0,
        *final(down) == (App { selected: final(down).selected, ..*old(down) }),
        *final(up) == (App { selected: final(up).selected, ..*old(up) }),
        around.len() == 0 ==> final(clamp).selected == 0,
        around.len() > 0 ==> final(clamp).selected < around.len(),
        old(clamp).selected < around.len() ==> final(clamp).selected == old(clamp).selected,
        old(clamp).selected >= around.len() && around.len() > 0 ==> final(clamp).selected + 1
            == around.len(),
{
}

/// A reload shows the manifest that was read, entry by entry, under the report
/// that was read with it; a refused manifest empties the list and says so, and a
/// lock that was not to be had leaves it as it was.
pub proof fn law_a_reload_shows_what_was_read(
    app: &mut App,
    read: PrefixRead,
    r: Result<ReloadOutcome, String>,
    i: int,
)
    requires
        call_ensures(App::reload, (app, read), r),
    ensures
        final(app).search_result is None && final(app).downgrade_choice is None,
        final(app).prefix == old(app).prefix && final(app).job == old(app).job,
        read.manifest is Locked <==> r is Err,
        read.manifest is Locked ==> final(app).rows == old(app).rows && final(app).selected
            == old(app).selected && final(app).manifest_error == old(app).manifest_error
            && r->Err_0 == read.manifest->Locked_0,
        read.manifest is Refused ==> r->Ok_0 is Degraded && final(app).rows.len() == 0
            && final(app).manifest_error is Some && final(app).message is Some
            && final(app).message->0.kind is Error,
        read.manifest is Loaded ==> {
            let manifest = read.manifest->manifest;
            &&& r->Ok_0 is Loaded
            &&& final(app).manifest_error is None
            &&& final(app).rows.len() == manifest.crates.len()
            &&& 0 <= i < manifest.crates.len() ==> {
                let (row, entry) = (final(app).rows@[i], manifest.crates@[i].1);
                &&& row.name@ == manifest.crates@[i].0@
                &&& row.version@ == entry.version@
                &&& row.bins@ == entry.bins@
                &&& row.locked == entry.locked
                &&& row.pinned == entry.pinned
                &&& row.built_with_rustc == entry.built_with_rustc
                &&& read.report is Err ==> row.status is Unknown
                &&& read.report is Ok && read.report->Ok_0 is None ==> row.status is Unknown
            }
            &&& read.report is Ok && read.report->Ok_0 is Some ==> final(app).report_age == Some(
                read.report->Ok_0->0.age,
            )
            &&& read.report is Err ==> final(app).report_age is None
        },
        read.report is Err && !(read.manifest is Refused) ==> final(app).message is Some
            && final(app).message->0.kind is Warning,
        read.report is Ok && !(read.manifest is Refused) ==> final(app).message == old(
            app,
        ).message,
{
    if read.manifest is Loaded {
        let manifest = read.manifest->manifest;
        if 0 <= i < manifest.crates.len() {
            let report = read.usable_report();
            let row = final(app).rows@[i];
            assert(row.shows(
                manifest.crates@[i].0@,
                manifest.crates@[i].1,
                match report {
                    Some(report) => Some(&report),
                    None => None,
                },
                read.manifest->also@,
            ));
        }
    }
}

/// A session starts where its manifest could be locked, loaded or not: over that
/// prefix, at the first row of Packages, with nothing running and nothing asked.
pub proof fn law_a_session_starts_unless_locked_out(
    prefix: String,
    read: PrefixRead,
    r: Result<App, String>,
)
    requires
        call_ensures(App::new, (prefix, read), r),
    ensures
        r is Err <==> read.manifest is Locked,
        r is Err ==> r->Err_0 == read.manifest->Locked_0,
        r is Ok ==> {
            let app = r->Ok_0;
            &&& app.prefix == prefix
            &&& app.selected == 0
            &&& app.filter is All
            &&& app.job is None && app.confirm is None && app.input is None
            &&& !app.should_quit && !app.quit_after_build && !app.show_help
            &&& app.manifest_error is Some <==> read.manifest is Refused
            &&& read.manifest is Loaded ==> app.rows.len() == read.manifest->manifest.crates.len()
        },
{
}

/// A session is idle exactly where nothing runs and nothing is queued, in any of
/// the places where something can be.
pub proof fn law_anything_counts_as_running(app: App, any: bool, build: bool, oneshot: bool)
    requires
        call_ensures(App::anything_running, (&app,), any),
        call_ensures(App::build_running, (&app,), build),
        call_ensures(App::oneshot_running, (&app,), oneshot),
    ensures
        !any <==> {
            &&& app.job is None
            &&& app.migrate_batch is None
            &&& app.install_batch is None
            &&& app.pending_install_batch is None
            &&& app.pending_reinstall_sweep is None
            &&& app.pending_update_sweep is None
            &&& app.pending_in_place is None
            &&& app.pending_migrate is None
            &&& app.pending_build is None
            &&& app.pending is None
        },
        build <==> app.job is Some && app.job->0 is Build,
        build || oneshot <==> app.job is Some,
        !(build && oneshot),
{
}

/// A clock reads minutes and seconds, and hours before them where there are any:
/// the fields are the seconds' own, and the last two never reach sixty.
pub proof fn law_a_clock_reads_the_seconds(total: u64, r: String)
    requires
        call_ensures(format_elapsed, (total,), r),
    ensures
        ({
            let n = r@.len() as int;
            &&& n >= 5
            &&& r@[n - 3] == ':'
            &&& value(r@.skip(n - 2)) == total % 60
            &&& total < 3600 ==> n == 5 && value(r@.take(2)) == total / 60
            &&& total >= 3600 ==> n >= 7 && r@[n - 6] == ':' && value(r@.take(n - 6)) == total
                / 3600 && value(r@.subrange(n - 5, n - 3)) == (total % 3600) / 60
        }),
{
    reveal_strlit(":");
    let (h, m, s) = ((total / 3600) as nat, ((total % 3600) / 60) as nat, (total % 60) as nat);
    lemma_two_digits(m);
    lemma_two_digits(s);
    let text = r@;
    let n = text.len() as int;
    if h > 0 {
        law_decimal_round_trips(h);
        assert(text.take(n - 6) =~= decimal(h));
        assert(text.subrange(n - 5, n - 3) =~= decimal2(m));
    } else {
        assert(text.take(2) =~= decimal2(m));
    }
    assert(text.skip(n - 2) =~= decimal2(s));
}

proof fn lemma_two_digits(n: nat)
    requires
        n < 60,
    ensures
        decimal2(n).len() == 2,
        value(decimal2(n)) == n,
{
    if n < 10 {
        assert(decimal2(n).drop_last() =~= seq!['0']);
        assert(seq!['0'].drop_last() =~= Seq::<char>::empty());
        reveal_with_fuel(value, 3);
    } else {
        law_decimal_round_trips(n);
        reveal_with_fuel(decimal, 2);
        assert(decimal(n).len() == 2);
    }
}

/// The gauge shows for a build and for an audit, and for nothing else; its clock
/// runs from when the work was started.
pub proof fn law_the_gauge_follows_the_job(app: App, now: u64, r: Option<String>, clock: String)
    requires
        call_ensures(App::build_progress, (&app, now), r),
        app.job is Some && app.job->0 is Build && app.job->0->Build_0.started <= now
            ==> call_ensures(
            format_elapsed,
            (((now - app.job->0->Build_0.started) / 1000) as u64,),
            clock,
        ),
        app.job is Some && app.job->0 is Verify && app.job->0->started <= now ==> call_ensures(
            format_elapsed,
            (((now - app.job->0->started) / 1000) as u64,),
            clock,
        ),
    ensures
        r is Some <==> app.job is Some && (app.job->0 is Build || app.job->0 is Verify),
        r is Some && (app.job->0 is Build ==> app.job->0->Build_0.started <= now) && (
        app.job->0 is Verify ==> app.job->0->started <= now) ==> ({
            let end = " · elapsed "@ + clock@;
            r->0@.len() >= end.len() && r->0@.skip(r->0@.len() - end.len()) == end
        }),
{
    if r is Some && (app.job->0 is Build ==> app.job->0->Build_0.started <= now) && (
    app.job->0 is Verify ==> app.job->0->started <= now) {
        let end = " · elapsed "@ + clock@;
        assert(r->0@.skip(r->0@.len() - end.len()) =~= end);
    }
}

/// What is said is what was to be said, without control characters, and of the
/// kind that it was said as; a pinned report opens at its first line.
pub proof fn law_what_is_said_is_shown(
    routine: &mut App,
    warned: &mut App,
    failed: &mut App,
    text: &str,
    pinned: &mut App,
    report: BuildReport,
)
    requires
        call_ensures(App::info, (routine, text), ()),
        call_ensures(App::warn, (warned, text), ()),
        call_ensures(App::error, (failed, text), ()),
        call_ensures(App::pin_report, (pinned, report), ()),
    ensures
        final(routine).message is Some && final(routine).message->0.kind is Info
            && final(routine).message->0.text@ == sanitized(text@),
        final(warned).message is Some && final(warned).message->0.kind is Warning
            && final(warned).message->0.text@ == sanitized(text@),
        final(failed).message is Some && final(failed).message->0.kind is Error
            && final(failed).message->0.text@ == sanitized(text@),
        *final(routine) == (App { message: final(routine).message, ..*old(routine) }),
        final(pinned).build_report == Some(report),
        final(pinned).report_scroll == 0,
        final(pinned).message == old(pinned).message,
{
}

/// What a build's gauge says: the crate, or the member of a batch with its number,
/// and then the pipeline's notice, or how many units were started and which one is
/// compiled.
pub proof fn law_the_gauge_names_what_is_built(app: App, build: BuildJob, now: u64, r: Option<String>, clock: String)
    requires
        app.job == Some(Job::Build(build)),
        build.started <= now,
        call_ensures(format_elapsed, (((now - build.started) / 1000) as u64,), clock),
        call_ensures(App::build_progress, (&app, now), r),
    ensures
        r is Some,
        ({
            let name = if app.install_batch is Some && app.install_batch->0.current is Some {
                "["@ + decimal(app.install_batch->0.attempted as nat) + "/"@ + decimal(
                    app.install_batch->0.runner.total as nat,
                ) + "] "@ + app.install_batch->0.current->0@
            } else {
                build.name@
            };
            let end = " · elapsed "@ + clock@;
            r->0@.skip(1) == if build.status_note is Some {
                " "@ + name + ": "@ + build.status_note->0@ + end
            } else {
                " building "@ + name + " · "@ + decimal(build.units_started as nat) + " "@ + (
                if build.units_started == 1 {
                    "unit"@
                } else {
                    "units"@
                }) + (if build.current is Some {
                    " · compiling "@ + build.current->0@
                } else {
                    Seq::empty()
                }) + end
            }
        }),
{
    let name = subject_of(app.install_batch, build.name@);
    let end = " · elapsed "@ + clock@;
    if build.status_note is Some {
        assert(r->0@.skip(1) =~= " "@ + name + ": "@ + build.status_note->0@ + end);
    } else {
        assert(r->0@.skip(1) =~= " building "@ + name + " · "@ + decimal(
            build.units_started as nat,
        ) + " "@ + (if build.units_started == 1 {
            "unit"@
        } else {
            "units"@
        }) + (if build.current is Some {
            " · compiling "@ + build.current->0@
        } else {
            Seq::empty()
        }) + end);
    }
}

/// An audit's gauge says where it looks, and whether its cancel was asked; the
/// panel is called after the job in it.
pub proof fn law_an_audits_gauge_says_where(
    app: App,
    started: u64,
    cancel: bool,
    now: u64,
    r: Option<String>,
    clock: String,
    title: &'static str,
)
    requires
        app.job == Some(Job::Verify { started, cancel }),
        started <= now,
        call_ensures(format_elapsed, (((now - started) / 1000) as u64,), clock),
        call_ensures(App::build_progress, (&app, now), r),
        call_ensures(App::transient_panel_title, (&app,), title),
    ensures
        r is Some && r->0@.skip(1) == " verify: "@ + (if cancel {
            "cancel requested"@
        } else {
            "checking"@
        }) + " "@ + app.prefix@ + " · elapsed "@ + clock@,
        title@ == " Verify "@,
{
    assert(r->0@.skip(1) =~= " verify: "@ + (if cancel {
        "cancel requested"@
    } else {
        "checking"@
    }) + " "@ + app.prefix@ + " · elapsed "@ + clock@);
}

/// What is said of a manifest that does not load, and of a report that cannot be
/// read, is said as it is.
pub proof fn law_a_degraded_reload_says_so(
    app: &mut App,
    read: PrefixRead,
    r: Result<ReloadOutcome, String>,
)
    requires
        call_ensures(App::reload, (app, read), r),
    ensures
        read.manifest is Refused ==> final(app).message->0.text@ == sanitized(
            "the manifest cannot be loaded — v lists the findings; mutating actions are disabled until it is repaired (r retries the load)"@,
        ) && final(app).manifest_error->0@ == sanitized(read.manifest->Refused_0@),
        read.report is Err && !(read.manifest is Refused) ==> final(app).message->0.text@
            == sanitized("update report unreadable: "@ + read.report->Err_0@),
{
}

/// A reload lists the other prefixes beside each row as they were read, and what
/// each row's report says is what the report that was read says.
pub proof fn law_a_reload_joins_what_was_read(
    app: &mut App,
    read: PrefixRead,
    r: Result<ReloadOutcome, String>,
    rows: Vec<Row>,
    report: Option<&Report>,
    i: int,
)
    requires
        read.manifest is Loaded,
        report == match read.report {
            Ok(Some(known)) => Some(&known),
            _ => None,
        },
        call_ensures(App::reload, (app, read), r),
        call_ensures(rows_from, (&read.manifest->manifest, report, &read.manifest->also), rows),
        0 <= i < rows.len(),
    ensures
        final(app).rows.len() == rows.len(),
        final(app).rows@[i].name@ == rows@[i].name@,
        final(app).rows@[i].also@ == rows@[i].also@,
        final(app).rows@[i].status is Unknown <==> rows@[i].status is Unknown,
        final(app).rows@[i].status is UpToDate <==> rows@[i].status is UpToDate,
        final(app).rows@[i].status is Outdated ==> rows@[i].status is Outdated
            && final(app).rows@[i].status->Outdated_0@ == rows@[i].status->Outdated_0@,
{
    let manifest = read.manifest->manifest;
    let also = read.manifest->also@;
    assert(rows@[i].shows(manifest.crates@[i].0@, manifest.crates@[i].1, report, also));
    assert(final(app).rows@[i].shows(
        manifest.crates@[i].0@,
        manifest.crates@[i].1,
        report,
        also,
    ));
}

/// What runs is called by its own label.
pub proof fn law_what_runs_is_called_by_its_label(app: App, r: Option<String>, label: String)
    requires
        call_ensures(App::busy, (&app,), r),
        app.job is Some ==> call_ensures(Job::label, (&app.job->0,), label),
    ensures
        r is Some <==> app.job is Some,
        r is Some ==> r->0@ == label@,
{
}

/// A lock that is not to be had leaves the list as it was, and a manifest that does
/// not load leaves no age of a report.
pub proof fn law_a_failed_read_keeps_or_empties_the_list(
    app: &mut App,
    read: ManifestRead,
    report: Option<&Report>,
    r: Result<ReloadOutcome, String>,
)
    requires
        call_ensures(App::apply_report, (app, read, report), r),
    ensures
        read is Locked ==> *final(app) == *old(app) && r == Err::<ReloadOutcome, String>(
            read->Locked_0,
        ),
        read is Refused ==> final(app).report_age is None && final(app).rows.len() == 0
            && final(app).selected == 0 && r == Ok::<ReloadOutcome, String>(
            ReloadOutcome::Degraded,
        ),
        read is Loaded ==> r == Ok::<ReloadOutcome, String>(ReloadOutcome::Loaded)
            && final(app).message == old(app).message,
{
}

/// Any job but an audit has the panel of a build.
pub proof fn law_the_panel_is_called_after_its_job(app: App, title: &'static str)
    requires
        call_ensures(App::transient_panel_title, (&app,), title),
    ensures
        app.job is Some && app.job->0 is Verify ==> title@ == " Verify "@,
        !(app.job is Some && app.job->0 is Verify) ==> title@ == " Build "@,
{
}

} // verus!
