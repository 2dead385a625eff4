//! The model and the dialog state: rows and filters, confirmations and pending
//! intents.
use crate::text::{
    cat, cat3, comes_before, copied, first_named, in_name_order, join, joined,
    law_no_text_comes_before_itself, lemma_first_named, lemma_first_named_is, same, sanitize,
    sanitized, texts,
};
use crate::version::{is_semver, semver_greater, Version};
use vstd::prelude::*;

verus! {

/// Another prefix that carries a crate, and the version it carries.
#[derive(Debug, PartialEq, Eq)]
pub struct AlsoIn {
    pub prefix: String,
    pub version: String,
}

impl Clone for AlsoIn {
    fn clone(&self) -> (r: AlsoIn)
        ensures
            r == *self,
    {
        AlsoIn { prefix: self.prefix.clone(), version: self.version.clone() }
    }
}

/// What the manifest records about an installed crate.
#[derive(Debug, PartialEq, Eq)]
pub struct Entry {
    pub version: String,
    pub bins: Vec<String>,
    pub locked: bool,
    pub pinned: bool,
    /// Cargo's recorded `rustc` for the installed artefact.
    pub built_with_rustc: Option<String>,
}

/// What is installed under a prefix, in the order of the names, each of them
/// once.
#[derive(Debug, PartialEq, Eq)]
pub struct Manifest {
    pub crates: Vec<(String, Entry)>,
}

/// The names in a list of named things.
pub open spec fn names_of<T>(list: Seq<(String, T)>) -> Seq<Seq<char>> {
    Seq::new(list.len(), |i: int| list[i].0@)
}

/// The position of the first thing with this name.
pub fn named<T>(list: &Vec<(String, T)>, name: &str) -> (r: Option<usize>)
    ensures
        match r {
            Some(i) => i < list.len() && list@[i as int].0@ == name@ && first_named(
                names_of(list@),
                name@,
            ) == Some(i as int),
            None => first_named(names_of(list@), name@) is None,
        },
{
    let ghost names = names_of(list@);
    let mut i: usize = 0;
    while i < list.len()
        invariant
            i <= list.len(),
            names == names_of(list@),
            forall|j: int| 0 <= j < i ==> names[j] != name@,
        decreases list.len() - i,
    {
        if same(list[i].0.as_str(), name) {
            proof {
                lemma_first_named_is(names, name@, i as int);
            }
            return Some(i);
        }
        i = i + 1;
    }
    proof {
        lemma_first_named(names, name@);
    }
    None
}

impl Manifest {
    /// Whether no crate is listed twice.
    pub open spec fn names_once(self) -> bool {
        forall|i: int, j: int|
            0 <= i < j < self.crates.len() ==> (#[trigger] names_of(self.crates@)[i]) != (
            #[trigger] names_of(self.crates@)[j])
    }

    /// Whether the crates stand in the order of their names.
    pub open spec fn names_in_order(self) -> bool {
        in_name_order(names_of(self.crates@))
    }

    /// The entry under this name, if there is one.
    pub open spec fn entry(self, name: Seq<char>) -> Option<Entry> {
        match first_named(names_of(self.crates@), name) {
            Some(i) => Some(self.crates@[i].1),
            None => None,
        }
    }

    /// The entry under this name, if there is one.
    pub fn get(&self, name: &str) -> (r: Option<&Entry>)
        ensures
            match r {
                Some(e) => self.entry(name@) == Some(*e),
                None => self.entry(name@) is None,
            },
    {
        match named(&self.crates, name) {
            Some(i) => Some(&self.crates[i].1),
            None => None,
        }
    }
}

/// What an update check found about one crate.
#[derive(Debug, PartialEq, Eq)]
pub struct Checked {
    pub name: String,
    pub current: Version,
    pub latest: Version,
}

/// The recorded update check of a prefix, and how many seconds ago it was.
#[derive(Debug, PartialEq, Eq)]
pub struct Report {
    pub age: u64,
    pub checked: Vec<Checked>,
}

/// What a recorded check says about an installed version.
#[derive(Debug, PartialEq, Eq)]
pub enum Status {
    UpToDate,
    Outdated(Version),
}

/// What the last recorded update check says about a row: three states, the
/// third silence, never a guess.
#[derive(Debug, PartialEq, Eq)]
pub enum RowStatus {
    UpToDate,
    Outdated(Version),
    Unknown,
}

impl Clone for RowStatus {
    fn clone(&self) -> (r: RowStatus)
        ensures
            r == *self,
    {
        match self {
            RowStatus::UpToDate => RowStatus::UpToDate,
            RowStatus::Outdated(latest) => RowStatus::Outdated(latest.clone()),
            RowStatus::Unknown => RowStatus::Unknown,
        }
    }
}

/// [`RowStatus`], with the newer version as text.
pub enum Standing {
    UpToDate,
    Outdated(Seq<char>),
    Unknown,
}

impl RowStatus {
    /// This status, with the newer version as text.
    pub open spec fn standing(self) -> Standing {
        match self {
            RowStatus::UpToDate => Standing::UpToDate,
            RowStatus::Outdated(latest) => Standing::Outdated(latest@),
            RowStatus::Unknown => Standing::Unknown,
        }
    }
}

/// The names in a list of checked crates.
pub open spec fn checked_names(checked: Seq<Checked>) -> Seq<Seq<char>> {
    Seq::new(checked.len(), |i: int| checked[i].name@)
}

impl Report {
    /// What this check says about a crate installed at `current`: the checked
    /// version is out of date where the registry had a greater one, the
    /// registry's own version is up to date, and any other version is one this
    /// check never saw.
    pub open spec fn standing(self, name: Seq<char>, current: Seq<char>) -> Standing {
        match first_named(checked_names(self.checked@), name) {
            None => Standing::Unknown,
            Some(i) => {
                let seen = self.checked@[i];
                if current == seen.current@ {
                    if semver_greater(seen.latest@, seen.current@) {
                        Standing::Outdated(seen.latest@)
                    } else {
                        Standing::UpToDate
                    }
                } else if current == seen.latest@ {
                    Standing::UpToDate
                } else {
                    Standing::Unknown
                }
            },
        }
    }

    /// What this check says about a crate installed at `current`.
    pub fn status_for(&self, name: &str, current: &Version) -> (r: Option<Status>)
        ensures
            match r {
                None => self.standing(name@, current@) is Unknown,
                Some(Status::UpToDate) => self.standing(name@, current@) is UpToDate,
                Some(Status::Outdated(v)) => self.standing(name@, current@) == Standing::Outdated(
                    v@,
                ),
            },
    {
        let ghost names = checked_names(self.checked@);
        let mut i: usize = 0;
        while i < self.checked.len()
            invariant
                i <= self.checked.len(),
                names == checked_names(self.checked@),
                forall|j: int| 0 <= j < i ==> names[j] != name@,
            decreases self.checked.len() - i,
        {
            let seen = &self.checked[i];
            if same(seen.name.as_str(), name) {
                proof {
                    lemma_first_named_is(names, name@, i as int);
                }
                return if current.same(&seen.current) {
                    if seen.latest.exceeds(&seen.current) {
                        Some(Status::Outdated(seen.latest.clone()))
                    } else {
                        Some(Status::UpToDate)
                    }
                } else if current.same(&seen.latest) {
                    Some(Status::UpToDate)
                } else {
                    None
                };
            }
            i = i + 1;
        }
        proof {
            lemma_first_named(names, name@);
        }
        None
    }
}

/// One installed crate as the list shows it.
pub struct Row {
    pub name: String,
    pub version: String,
    pub bins: Vec<String>,
    pub locked: bool,
    pub pinned: bool,
    /// Cargo's recorded `rustc` for the installed artefact, carried so a frozen
    /// migration plan holds the whole entry identity.
    pub built_with_rustc: Option<String>,
    /// The other prefixes carrying this crate, as facts rather than as
    /// presentation.
    pub also: Vec<AlsoIn>,
    pub status: RowStatus,
}

/// What a report, if there is one, says about an installed crate. A version
/// that does not parse is one no report can speak about.
pub open spec fn standing_in(
    report: Option<&Report>,
    name: Seq<char>,
    version: Seq<char>,
) -> Standing {
    match report {
        Some(report) => if is_semver(version) {
            report.standing(name, version)
        } else {
            Standing::Unknown
        },
        None => Standing::Unknown,
    }
}

/// The other prefixes listed under a name.
pub open spec fn also_of(also: Seq<(String, Vec<AlsoIn>)>, name: Seq<char>) -> Seq<AlsoIn> {
    match first_named(names_of(also), name) {
        Some(i) => also[i].1@,
        None => Seq::empty(),
    }
}

impl Row {
    /// Whether this row shows a manifest entry, joined with the report and the
    /// other prefixes.
    pub open spec fn shows(
        self,
        name: Seq<char>,
        entry: Entry,
        report: Option<&Report>,
        also: Seq<(String, Vec<AlsoIn>)>,
    ) -> bool {
        &&& self.name@ == name
        &&& self.version == entry.version
        &&& self.bins@ == entry.bins@
        &&& self.locked == entry.locked
        &&& self.pinned == entry.pinned
        &&& self.built_with_rustc == entry.built_with_rustc
        &&& self.also@ == also_of(also, name)
        &&& self.status.standing() == standing_in(report, name, entry.version@)
    }
}

/// Whether the rows are those of a manifest: one for each entry, in its order.
pub open spec fn rows_show(
    rows: Seq<Row>,
    manifest: Manifest,
    report: Option<&Report>,
    also: Seq<(String, Vec<AlsoIn>)>,
) -> bool {
    &&& rows.len() == manifest.crates.len()
    &&& forall|i: int|
        0 <= i < rows.len() ==> (#[trigger] rows[i]).shows(
            manifest.crates@[i].0@,
            manifest.crates@[i].1,
            report,
            also,
        )
}

/// A copy of the prefixes listed under a name.
fn also_for(also: &Vec<(String, Vec<AlsoIn>)>, name: &str) -> (r: Vec<AlsoIn>)
    ensures
        r@ == also_of(also@, name@),
{
    let mut out: Vec<AlsoIn> = Vec::new();
    match named(also, name) {
        Some(i) => {
            let list = &also[i].1;
            let mut j: usize = 0;
            while j < list.len()
                invariant
                    j <= list.len(),
                    out@ == list@.take(j as int),
                decreases list.len() - j,
            {
                out.push(list[j].clone());
                j = j + 1;
                assert(list@.take(j as int) == list@.take(j - 1).push(list@[j - 1]));
            }
            assert(list@.take(j as int) == list@);
            assert(out@ == also@[i as int].1@);
        },
        None => {},
    }
    out
}

/// Manifest entries joined with the report, consulted per installed version: a
/// crate changed since the check comes out unknown, not stale.
pub fn rows_from(
    manifest: &Manifest,
    report: Option<&Report>,
    also: &Vec<(String, Vec<AlsoIn>)>,
) -> (r: Vec<Row>)
    ensures
        rows_show(r@, *manifest, report, also@),
{
    let mut rows: Vec<Row> = Vec::new();
    let mut i: usize = 0;
    while i < manifest.crates.len()
        invariant
            i <= manifest.crates.len(),
            rows.len() == i,
            forall|j: int|
                0 <= j < i ==> (#[trigger] rows@[j]).shows(
                    manifest.crates@[j].0@,
                    manifest.crates@[j].1,
                    report,
                    also@,
                ),
        decreases manifest.crates.len() - i,
    {
        let name = &manifest.crates[i].0;
        let entry = &manifest.crates[i].1;
        let status = match report {
            None => RowStatus::Unknown,
            Some(report) => match Version::parse(entry.version.as_str()) {
                Err(_) => RowStatus::Unknown,
                Ok(current) => match report.status_for(name.as_str(), &current) {
                    None => RowStatus::Unknown,
                    Some(Status::UpToDate) => RowStatus::UpToDate,
                    Some(Status::Outdated(v)) => RowStatus::Outdated(v),
                },
            },
        };
        let row = Row {
            name: name.clone(),
            version: entry.version.clone(),
            bins: copied(&entry.bins),
            locked: entry.locked,
            pinned: entry.pinned,
            built_with_rustc: match &entry.built_with_rustc {
                Some(rustc) => Some(rustc.clone()),
                None => None,
            },
            also: also_for(also, name.as_str()),
            status,
        };
        rows.push(row);
        i = i + 1;
    }
    rows
}

/// Without a report nothing is claimed: every row is unknown.
pub proof fn law_no_report_claims_nothing(
    rows: Seq<Row>,
    manifest: Manifest,
    also: Seq<(String, Vec<AlsoIn>)>,
    i: int,
)
    requires
        rows_show(rows, manifest, None, also),
        0 <= i < rows.len(),
    ensures
        rows[i].status is Unknown,
{
    assert(rows[i].shows(manifest.crates@[i].0@, manifest.crates@[i].1, None, also));
}

/// Where the manifest lists each crate once, so does the list on the screen.
pub proof fn law_rows_are_named_once(
    manifest: Manifest,
    report: Option<&Report>,
    also: Seq<(String, Vec<AlsoIn>)>,
    rows: Seq<Row>,
    i: int,
    j: int,
)
    requires
        manifest.names_once(),
        rows_show(rows, manifest, report, also),
        0 <= i < j < rows.len(),
    ensures
        rows[i].name@ != rows[j].name@,
{
    let names = names_of(manifest.crates@);
    assert(rows[i].shows(manifest.crates@[i].0@, manifest.crates@[i].1, report, also));
    assert(rows[j].shows(manifest.crates@[j].0@, manifest.crates@[j].1, report, also));
    assert(names[i] != names[j]);
}

/// Where the manifest stands in the order of the names, so does the list on the
/// screen.
pub proof fn law_rows_are_in_name_order(
    manifest: Manifest,
    report: Option<&Report>,
    also: Seq<(String, Vec<AlsoIn>)>,
    rows: Seq<Row>,
)
    requires
        manifest.names_in_order(),
        rows_show(rows, manifest, report, also),
    ensures
        in_name_order(Seq::new(rows.len(), |i: int| rows[i].name@)),
{
    assert forall|i: int| 0 <= i < rows.len() implies rows[i].name@ == names_of(
        manifest.crates@,
    )[i] by {
        assert(rows[i].shows(manifest.crates@[i].0@, manifest.crates@[i].1, report, also));
    }
    assert(Seq::new(rows.len(), |i: int| rows[i].name@) =~= names_of(manifest.crates@));
}

/// A manifest in the order of the names lists each crate once.
pub proof fn law_names_in_order_stand_once(manifest: Manifest)
    requires
        manifest.names_in_order(),
    ensures
        manifest.names_once(),
{
    let names = names_of(manifest.crates@);
    assert forall|i: int, j: int| 0 <= i < j < manifest.crates.len() implies (#[trigger] names[i])
        != (#[trigger] names[j]) by {
        assert(comes_before(names[i], names[j]));
        law_no_text_comes_before_itself(names[i]);
    }
}

/// A report never calls out of date what is installed at the registry's own
/// version, and never speaks about a version it did not see.
pub proof fn law_reports_do_not_guess(report: Report, name: Seq<char>, current: Seq<char>, i: int)
    requires
        first_named(checked_names(report.checked@), name) == Some(i),
    ensures
        current == report.checked@[i].latest@ && current != report.checked@[i].current@
            ==> report.standing(name, current) is UpToDate,
        current != report.checked@[i].latest@ && current != report.checked@[i].current@
            ==> report.standing(name, current) is Unknown,
{
}

/// Which rows the list shows.
#[derive(Clone, Copy, PartialEq, Eq, Debug, Structural)]
pub enum Filter {
    All,
    Updates,
    Pinned,
}

impl Filter {
    /// The views, in the order of their tabs.
    pub const ALL: [Filter; 3] = [Filter::All, Filter::Updates, Filter::Pinned];

    /// The position of this view's tab.
    pub open spec fn position(self) -> int {
        match self {
            Filter::All => 0,
            Filter::Updates => 1,
            Filter::Pinned => 2,
        }
    }

    /// The position of this view's tab.
    pub fn index(self) -> (r: usize)
        ensures
            r == self.position(),
    {
        match self {
            Filter::All => 0,
            Filter::Updates => 1,
            Filter::Pinned => 2,
        }
    }

    /// The view one tab further, around the end.
    pub open spec fn following(self) -> Filter {
        match self {
            Filter::All => Filter::Updates,
            Filter::Updates => Filter::Pinned,
            Filter::Pinned => Filter::All,
        }
    }

    /// The view one tab back, around the start.
    pub open spec fn preceding(self) -> Filter {
        match self {
            Filter::All => Filter::Pinned,
            Filter::Updates => Filter::All,
            Filter::Pinned => Filter::Updates,
        }
    }

    /// The view one tab further, around the end.
    pub fn next(self) -> (r: Filter)
        ensures
            r == self.following(),
    {
        match self {
            Filter::All => Filter::Updates,
            Filter::Updates => Filter::Pinned,
            Filter::Pinned => Filter::All,
        }
    }

    /// The view one tab back, around the start.
    pub fn prev(self) -> (r: Filter)
        ensures
            r == self.preceding(),
    {
        match self {
            Filter::All => Filter::Pinned,
            Filter::Updates => Filter::All,
            Filter::Pinned => Filter::Updates,
        }
    }
}

/// Stepping back retraces stepping on exactly, and the other way round; each
/// step moves one tab, around the ends.
pub proof fn law_filters_cycle(f: Filter)
    ensures
        f.following().preceding() == f,
        f.preceding().following() == f,
        f.following().position() == (f.position() + 1) % 3,
        f.following().following().following() == f,
{
}

/// No two views share a tab.
pub proof fn law_filter_positions_differ(f: Filter, g: Filter)
    requires
        f.position() == g.position(),
    ensures
        f == g,
{
}

/// Whether a row belongs to a view. Updates means what `update --all` will act
/// on: a pinned crate is held back, so its backlog lives in the Pinned view
/// instead.
pub open spec fn admitted(filter: Filter, row: Row) -> bool {
    match filter {
        Filter::All => true,
        Filter::Updates => row.status is Outdated && !row.pinned,
        Filter::Pinned => row.pinned,
    }
}

/// Whether a row belongs to a view.
pub fn admits(filter: Filter, row: &Row) -> (r: bool)
    ensures
        r == admitted(filter, *row),
{
    match filter {
        Filter::All => true,
        Filter::Updates => matches!(row.status, RowStatus::Outdated(_)) && !row.pinned,
        Filter::Pinned => row.pinned,
    }
}

/// Every row is in Packages, none is both in Updates and in Pinned, and a row
/// that is out of date is in one of the two.
pub proof fn law_views_are_consistent(row: Row)
    ensures
        admitted(Filter::All, row),
        !(admitted(Filter::Updates, row) && admitted(Filter::Pinned, row)),
        row.status is Outdated ==> admitted(Filter::Updates, row) || admitted(Filter::Pinned, row),
{
}

/// How a message is to be read.
#[derive(Clone, Copy, PartialEq, Eq, Debug, Structural)]
pub enum MessageKind {
    Info,
    /// Succeeded, but something around it did not: neither routine nor a
    /// failure.
    Warning,
    Error,
}

/// The last thing that was said in the footer.
pub struct Message {
    pub text: String,
    pub kind: MessageKind,
}

/// What the footer input line is collecting.
#[derive(Clone, Copy, PartialEq, Eq, Debug, Structural)]
pub enum InputPurpose {
    Install,
    Search,
}

/// The footer input line.
pub struct Input {
    pub purpose: InputPurpose,
    pub buffer: String,
}

/// A build's sticky report, held until dismissed: a failure carries the tail
/// and log path, a success its warnings.
pub struct BuildReport {
    pub title: String,
    pub lines: Vec<String>,
    pub failed: bool,
}

/// The versions a downgrade offers for the selected crate, and the version
/// they are older than.
pub struct DowngradeChoice {
    pub name: String,
    pub current: String,
    pub versions: Vec<Version>,
    /// Older releases the list does not show.
    pub older: usize,
}

/// A crate that a search found.
#[derive(Debug, PartialEq, Eq)]
pub struct Hit {
    pub name: String,
    pub version: String,
    pub description: String,
}

/// A finished search, shown until dismissed; digits pick a hit.
pub struct SearchResult {
    pub query: String,
    pub hits: Vec<Hit>,
    /// Installed version per hit, read when the result was presented.
    pub installed: Vec<(String, String)>,
}

/// The entry a migration was confirmed about, frozen at the keypress from the
/// very row on screen.
#[derive(Debug, PartialEq, Eq)]
pub struct MigrationSnapshot {
    pub version: Version,
    pub bins: Vec<String>,
    pub locked: bool,
    pub pinned: bool,
    pub built_with_rustc: Option<String>,
}

/// What is said of a manifest entry whose version does not parse.
pub open spec fn unparsable_version(name: Seq<char>) -> Seq<char> {
    "manifest holds unparsable version for `"@ + name + "`; verify says more"@
}

impl MigrationSnapshot {
    /// Whether this snapshot holds the facts of a row.
    pub open spec fn freezes(self, row: Row) -> bool {
        &&& self.version@ == row.version@
        &&& self.bins@ == row.bins@
        &&& self.locked == row.locked
        &&& self.pinned == row.pinned
        &&& self.built_with_rustc == row.built_with_rustc
    }

    /// The facts of a row, frozen; refused where its version does not parse.
    pub fn of(row: &Row) -> (r: Result<MigrationSnapshot, String>)
        ensures
            match r {
                Ok(snap) => is_semver(row.version@) && snap.freezes(*row),
                Err(e) => !is_semver(row.version@) && e@ == unparsable_version(row.name@),
            },
    {
        match Version::parse(row.version.as_str()) {
            Ok(version) => Ok(
                MigrationSnapshot {
                    version,
                    bins: copied(&row.bins),
                    locked: row.locked,
                    pinned: row.pinned,
                    built_with_rustc: match &row.built_with_rustc {
                        Some(rustc) => Some(rustc.clone()),
                        None => None,
                    },
                },
            ),
            Err(_) => Err(
                cat3(
                    "manifest holds unparsable version for `",
                    row.name.as_str(),
                    "`; verify says more",
                ),
            ),
        }
    }
}

/// A confirmed migration on its way to being started.
pub struct PendingMigrate {
    pub name: String,
    pub version: String,
    pub dest: String,
    pub snap: MigrationSnapshot,
}

/// A manifest entry as a rebuild restates it.
#[derive(Debug, PartialEq, Eq)]
pub struct ReinstallPlan {
    pub version: Version,
    pub pinned: bool,
    pub locked: bool,
}

/// One member of an update sweep's plan: the entry as it was read, and what
/// the registry said about it.
#[derive(Debug, PartialEq, Eq)]
pub struct PlannedUpdate {
    pub name: String,
    pub current: String,
    pub latest: Version,
}

/// What the lookup behind an update found.
#[derive(Debug, PartialEq, Eq)]
pub enum UpdatePlan {
    UpToDate { current: String },
    Outdated { current: String, latest: Version },
}

/// What a confirmed `y` triggers.
#[allow(inconsistent_fields)]
pub enum OnConfirm {
    /// Migrate one crate: the plan, frozen at the keypress.
    Migrate(PendingMigrate),
    /// The plan the person just read. What travels to the build is the version
    /// the entry had when the question was asked.
    Update { name: String, expected: String },
    /// The snapshot the person just agreed to rebuild.
    ReinstallAll { planned: Vec<(String, ReinstallPlan)> },
    /// The plan the person just read, member by member.
    UpdateAll { planned: Vec<PlannedUpdate> },
    /// The need for privilege is decided fresh at the `y`.
    Remove { name: String },
    /// The whole plan frozen at the keypress, one snapshot per row, complete or
    /// not at all.
    MigrateAll { dest: String, plan: Vec<PendingMigrate> },
}

impl OnConfirm {
    /// The questions that pin a plan of their own above themselves.
    pub open spec fn pins_a_plan(self) -> bool {
        self is ReinstallAll || self is UpdateAll
    }

    /// Whether this question pins a plan of its own above itself.
    pub fn owns_report(&self) -> (r: bool)
        ensures
            r == self.pins_a_plan(),
    {
        matches!(self, OnConfirm::ReinstallAll { .. } | OnConfirm::UpdateAll { .. })
    }
}

/// A destructive action waiting for a `y`.
pub struct Confirm {
    pub prompt: String,
    pub action: OnConfirm,
}

impl Confirm {
    /// Does the panel above this question belong to it?
    ///
    /// A report is sticky: a failed build's log can still be on screen when an
    /// unrelated question opens. The question says which panel is its own.
    pub fn owns_report(&self) -> (r: bool)
        ensures
            r == self.action.pins_a_plan(),
    {
        self.action.owns_report()
    }

    /// The one funnel: the prompt is bound for the screen, and its builders
    /// interpolate strings the interface does not control.
    pub fn new(prompt: &str, action: OnConfirm) -> (r: Confirm)
        ensures
            r.prompt@ == sanitized(prompt@),
            r.action == action,
    {
        Confirm { prompt: sanitize(prompt), action }
    }
}

/// Commands that take over the terminal: the fallback taken when a privileged
/// step cannot run noninteractively.
#[derive(Debug, PartialEq, Eq)]
pub enum PendingAction {
    Update(String),
    /// Rebuild every entry.
    ReinstallAll,
    /// Rebuild one entry as it stands.
    Reinstall(String),
    /// The command asks for a version again, which is the price of the
    /// handover.
    Downgrade(String),
    UpdateAll,
    Install { crates: Vec<String>, locked: bool },
    Remove(String),
    SetPinned { name: String, pinned: bool },
}

impl PendingAction {
    /// The words for this action in a result line.
    pub open spec fn label(self) -> Seq<char> {
        match self {
            PendingAction::Update(name) => "update "@ + name@,
            PendingAction::Downgrade(name) => "downgrade "@ + name@,
            PendingAction::Reinstall(name) => "reinstall "@ + name@,
            PendingAction::ReinstallAll => "reinstall all"@,
            PendingAction::UpdateAll => "update --all"@,
            PendingAction::Install { crates, locked } => {
                let label = "install "@ + joined(texts(crates@), " "@);
                if locked {
                    label + " --locked"@
                } else {
                    label
                }
            },
            PendingAction::Remove(name) => "remove "@ + name@,
            PendingAction::SetPinned { name, pinned } => if pinned {
                "pin "@ + name@
            } else {
                "unpin "@ + name@
            },
        }
    }
}

/// The words for an action in a result line.
pub fn action_label(action: &PendingAction) -> (r: String)
    ensures
        r@ == action.label(),
{
    match action {
        PendingAction::Update(name) => cat("update ", name),
        PendingAction::Downgrade(name) => cat("downgrade ", name),
        PendingAction::Reinstall(name) => cat("reinstall ", name),
        PendingAction::ReinstallAll => "reinstall all".to_owned(),
        PendingAction::UpdateAll => "update --all".to_owned(),
        PendingAction::Install { crates, locked } => {
            let mut label = cat("install ", join(crates, " ").as_str());
            if *locked {
                label.append(" --locked");
            }
            label
        },
        PendingAction::Remove(name) => cat("remove ", name),
        PendingAction::SetPinned { name, pinned } => if *pinned {
            cat("pin ", name)
        } else {
            cat("unpin ", name)
        },
    }
}

/// A command as the terminal runs it, outside the interface.
#[derive(Debug, PartialEq, Eq)]
pub enum Command {
    ReinstallAll,
    Install { crates: Vec<String>, locked: bool, reinstall: bool },
    Downgrade(String),
    Update { crates: Vec<String>, all: bool },
    Remove(Vec<String>),
    SetPinned { crates: Vec<String>, pinned: bool },
}

/// Whether `r` is the command for a handover. A rebuild is an install of the one
/// crate with `--reinstall`; an install line never is.
pub open spec fn commands(action: PendingAction, r: Command) -> bool {
    match action {
        PendingAction::ReinstallAll => r is ReinstallAll,
        PendingAction::Reinstall(name) => r matches Command::Install { crates, locked, reinstall }
            && texts(crates@) == seq![name@] && !locked && reinstall,
        PendingAction::Downgrade(name) => r matches Command::Downgrade(n) && n@ == name@,
        PendingAction::Update(name) => r matches Command::Update { crates, all } && texts(crates@)
            == seq![name@] && !all,
        PendingAction::UpdateAll => r matches Command::Update { crates, all } && crates@.len() == 0
            && all,
        PendingAction::Install { crates: given, locked: flag } => r matches Command::Install {
            crates,
            locked,
            reinstall,
        } && texts(crates@) == texts(given@) && locked == flag && !reinstall,
        PendingAction::Remove(name) => r matches Command::Remove(crates) && texts(crates@)
            == seq![name@],
        PendingAction::SetPinned { name, pinned } => r matches Command::SetPinned {
            crates,
            pinned: to,
        } && texts(crates@) == seq![name@] && to == pinned,
    }
}

/// A list of one name.
fn alone(name: &String) -> (r: Vec<String>)
    ensures
        texts(r@) == seq![name@],
{
    let mut list: Vec<String> = Vec::new();
    list.push(name.clone());
    assert(texts(list@) =~= seq![name@]);
    list
}

/// The command that a handover runs.
pub fn command_of(action: &PendingAction) -> (r: Command)
    ensures
        commands(*action, r),
{
    match action {
        PendingAction::ReinstallAll => Command::ReinstallAll,
        PendingAction::Reinstall(name) => Command::Install {
            crates: alone(name),
            locked: false,
            reinstall: true,
        },
        PendingAction::Downgrade(name) => Command::Downgrade(name.clone()),
        PendingAction::Update(name) => Command::Update { crates: alone(name), all: false },
        PendingAction::UpdateAll => Command::Update { crates: Vec::new(), all: true },
        PendingAction::Install { crates, locked } => Command::Install {
            crates: copied(crates),
            locked: *locked,
            reinstall: false,
        },
        PendingAction::Remove(name) => Command::Remove(alone(name)),
        PendingAction::SetPinned { name, pinned } => Command::SetPinned {
            crates: alone(name),
            pinned: *pinned,
        },
    }
}

/// What a privileged step is for.
#[derive(Clone, Copy, PartialEq, Eq, Debug, Structural)]
pub enum AuthPurpose {
    Placement,
    Retirement,
    Mutation,
}

/// The interface's answer to a worker waiting at a privileged step. A refusal
/// carries its reason, because there are several and they are not
/// interchangeable.
#[derive(Debug, PartialEq, Eq)]
pub enum AuthAnswer {
    Authorized,
    Refused(String),
}

/// What a build answered to a cancel.
#[derive(Clone, Copy, PartialEq, Eq, Debug, Structural)]
pub enum CancelOutcome {
    /// The cancel was taken; the build has its grace to stop.
    Accepted,
    /// A second cancel: the build was killed.
    Killed,
    /// The build is stopping already.
    AlreadyStopping,
    /// Placement has begun and cannot be cancelled.
    TooLate,
}

/// What a cancel reached: a build with its own answer, or a batch between
/// members, where there is nothing to interrupt and nothing to kill.
#[derive(Clone, Copy, PartialEq, Eq, Debug, Structural)]
pub enum ActiveCancel {
    Build(CancelOutcome),
    BatchBetweenMembers,
}

/// An in-place mutation waiting for the run loop, because it may need a
/// password and only the run loop owns the terminal to ask for one.
#[derive(PartialEq, Eq, Debug)]
pub enum PendingInPlace {
    Remove(String),
    SetPinned { name: String, pinned: bool },
}

/// What a reload found: since the degraded state exists, success no longer
/// means that the list is fresh.
#[derive(Clone, Copy, PartialEq, Eq, Debug, Structural)]
pub enum ReloadOutcome {
    Loaded,
    Degraded,
}

/// The entry under a name is the one that stands there: where each crate is
/// listed once, every listed entry is found under its own name, and nothing is
/// found under a name that is not listed.
pub proof fn law_an_entry_is_found_under_its_name(manifest: Manifest, name: &str, r: Option<&Entry>)
    requires
        call_ensures(Manifest::get, (&manifest, name), r),
    ensures
        r is None <==> forall|i: int|
            0 <= i < manifest.crates.len() ==> (#[trigger] manifest.crates@[i]).0@ != name@,
        r matches Some(entry) ==> exists|i: int|
            0 <= i < manifest.crates.len() && (#[trigger] manifest.crates@[i]).0@ == name@
                && manifest.crates@[i].1 == *entry,
        forall|i: int|
            manifest.names_once() && 0 <= i < manifest.crates.len() && (
            #[trigger] manifest.crates@[i]).0@ == name@ ==> r is Some && manifest.crates@[i].1
                == *r->0,
{
    let names = names_of(manifest.crates@);
    lemma_first_named(names, name@);
    if r is Some {
        let at = first_named(names, name@)->0;
        assert(manifest.crates@[at].0@ == names[at]);
        assert forall|i: int|
            manifest.names_once() && 0 <= i < manifest.crates.len() && (
            #[trigger] manifest.crates@[i]).0@ == name@ implies i == at by {
            assert(names[i] == names[at]);
        }
    } else {
        assert forall|i: int| 0 <= i < manifest.crates.len() implies (
        #[trigger] manifest.crates@[i]).0@ != name@ by {
            assert(names[i] == manifest.crates@[i].0@);
        }
    }
}

/// A crate that was checked at the version it is installed at is out of date
/// exactly where the registry's version is the greater one by semantic
/// versioning, and the version shown is the registry's. At the registry's own
/// version it is up to date, at any other nothing is said, and nothing is said of
/// a crate that was not checked.
pub proof fn law_a_check_speaks_by_semver(
    report: Report,
    name: &str,
    current: Version,
    i: int,
    r: Option<Status>,
)
    requires
        call_ensures(Report::status_for, (&report, name, &current), r),
        0 <= i < report.checked.len(),
        report.checked@[i].name@ == name@,
        forall|j: int| 0 <= j < i ==> (#[trigger] report.checked@[j]).name@ != name@,
    ensures
        ({
            let seen = report.checked@[i];
            let newer = semver_greater(seen.latest@, seen.current@);
            &&& current@ == seen.current@ && newer ==> (r matches Some(Status::Outdated(v)) && v@
                == seen.latest@)
            &&& current@ == seen.current@ && !newer ==> r == Some(Status::UpToDate)
            &&& current@ != seen.current@ && current@ == seen.latest@ ==> r == Some(
                Status::UpToDate,
            )
            &&& current@ != seen.current@ && current@ != seen.latest@ ==> r is None
        }),
{
    let names = checked_names(report.checked@);
    assert forall|j: int| 0 <= j < i implies names[j] != name@ by {
        assert(report.checked@[j].name@ != name@);
    }
    lemma_first_named_is(names, name@, i);
}

/// Nothing is said of a crate that was not checked.
pub proof fn law_an_unchecked_crate_is_unknown(
    report: Report,
    name: &str,
    current: Version,
    r: Option<Status>,
)
    requires
        call_ensures(Report::status_for, (&report, name, &current), r),
        forall|j: int|
            0 <= j < report.checked.len() ==> (#[trigger] report.checked@[j]).name@ != name@,
    ensures
        r is None,
{
    let names = checked_names(report.checked@);
    lemma_first_named(names, name@);
    if first_named(names, name@) is Some {
        let i = first_named(names, name@)->0;
        assert(report.checked@[i].name@ == names[i]);
    }
}

/// What a check calls out of date, it has a greater version for: a version found
/// in the check itself.
pub proof fn law_outdated_means_a_greater_version(
    report: Report,
    name: &str,
    current: Version,
    r: Option<Status>,
)
    requires
        call_ensures(Report::status_for, (&report, name, &current), r),
    ensures
        r matches Some(Status::Outdated(v)) ==> semver_greater(v@, current@) && exists|i: int|
            0 <= i < report.checked.len() && (#[trigger] report.checked@[i]).name@ == name@
                && report.checked@[i].latest@ == v@ && report.checked@[i].current@ == current@,
{
    let names = checked_names(report.checked@);
    lemma_first_named(names, name@);
    if first_named(names, name@) is Some {
        let i = first_named(names, name@)->0;
        assert(report.checked@[i].name@ == names[i]);
    }
}

/// The list is the manifest, row by row: each row has its entry's facts as they
/// are.
pub proof fn law_rows_are_the_entries(
    manifest: Manifest,
    report: Option<&Report>,
    also: Vec<(String, Vec<AlsoIn>)>,
    rows: Vec<Row>,
    i: int,
)
    requires
        call_ensures(rows_from, (&manifest, report, &also), rows),
        0 <= i < manifest.crates.len(),
    ensures
        rows.len() == manifest.crates.len(),
        rows@[i].name@ == manifest.crates@[i].0@,
        rows@[i].version@ == manifest.crates@[i].1.version@,
        rows@[i].bins@ == manifest.crates@[i].1.bins@,
        rows@[i].locked == manifest.crates@[i].1.locked,
        rows@[i].pinned == manifest.crates@[i].1.pinned,
        rows@[i].built_with_rustc == manifest.crates@[i].1.built_with_rustc,
{
    assert(rows@[i].shows(manifest.crates@[i].0@, manifest.crates@[i].1, report, also@));
}

/// A row says what the report says of the crate at the version installed, and
/// nothing where there is no report or the version is none.
pub proof fn law_rows_say_what_the_report_says(
    manifest: Manifest,
    report: Option<&Report>,
    also: Vec<(String, Vec<AlsoIn>)>,
    rows: Vec<Row>,
    i: int,
    name: &str,
    current: Version,
    said: Option<Status>,
)
    requires
        call_ensures(rows_from, (&manifest, report, &also), rows),
        0 <= i < rows.len(),
        name@ == rows@[i].name@,
        is_semver(rows@[i].version@) ==> current@ == rows@[i].version@,
        report matches Some(known) ==> call_ensures(
            Report::status_for,
            (known, name, &current),
            said,
        ),
    ensures
        match rows@[i].status {
            RowStatus::Outdated(v) => report is Some && (said matches Some(Status::Outdated(w)) && w@
                == v@) && semver_greater(v@, rows@[i].version@),
            RowStatus::UpToDate => report is Some && said matches Some(Status::UpToDate),
            RowStatus::Unknown => report is None || !is_semver(rows@[i].version@) || said is None,
        },
{
    assert(rows@[i].shows(manifest.crates@[i].0@, manifest.crates@[i].1, report, also@));
    if report is Some {
        let known = *report->0;
        law_outdated_means_a_greater_version(known, name, current, said);
    }
}

/// The other prefixes beside a row are those listed under its name, and none are
/// where none is listed.
pub proof fn law_rows_list_the_other_prefixes(
    manifest: Manifest,
    report: Option<&Report>,
    also: Vec<(String, Vec<AlsoIn>)>,
    rows: Vec<Row>,
    i: int,
    k: int,
)
    requires
        call_ensures(rows_from, (&manifest, report, &also), rows),
        0 <= i < manifest.crates.len(),
    ensures
        0 <= k < also.len() && also@[k].0@ == rows@[i].name@ && (forall|j: int|
            0 <= j < k ==> (#[trigger] also@[j]).0@ != rows@[i].name@) ==> rows@[i].also@
            == also@[k].1@,
        (forall|j: int| 0 <= j < also.len() ==> (#[trigger] also@[j]).0@ != rows@[i].name@)
            ==> rows@[i].also@.len() == 0,
{
    let row = rows@[i];
    assert(row.shows(manifest.crates@[i].0@, manifest.crates@[i].1, report, also@));
    let names = names_of(also@);
    lemma_first_named(names, row.name@);
    assert forall|j: int| 0 <= j < also.len() implies names[j] == (#[trigger] also@[j]).0@ by {}
    if 0 <= k < also.len() && also@[k].0@ == row.name@ && (forall|j: int|
        0 <= j < k ==> (#[trigger] also@[j]).0@ != row.name@) {
        lemma_first_named_is(names, row.name@, k);
    }
}

/// Every row is in Packages. A pinned row is in Pinned and not in Updates; any
/// other row is not in Pinned, and is in Updates exactly where it is out of date.
pub proof fn law_each_row_has_its_views(row: Row, all: bool, updates: bool, pinned: bool)
    requires
        call_ensures(admits, (Filter::All, &row), all),
        call_ensures(admits, (Filter::Updates, &row), updates),
        call_ensures(admits, (Filter::Pinned, &row), pinned),
    ensures
        all,
        pinned == row.pinned,
        row.pinned ==> !updates,
        !row.pinned ==> (updates <==> row.status is Outdated),
{
}

/// The tabs stand in the order Packages, Updates, Pinned; a step on moves one tab
/// to the right, around the end, and a step back undoes it.
pub proof fn law_tabs_step_one_by_one(f: Filter, next: Filter, back: Filter, at: usize, then: usize)
    requires
        call_ensures(Filter::next, (f,), next),
        call_ensures(Filter::prev, (next,), back),
        call_ensures(Filter::index, (f,), at),
        call_ensures(Filter::index, (next,), then),
    ensures
        back == f,
        at == 0 <==> f == Filter::All,
        at == 1 <==> f == Filter::Updates,
        at == 2 <==> f == Filter::Pinned,
        then == if at == 2 {
            0int
        } else {
            at + 1
        },
{
}

/// A frozen row is the row: every fact of it that a migration carries over is
/// the row's own, and only a version that does not parse refuses it.
pub proof fn law_a_snapshot_is_the_row(row: Row, r: Result<MigrationSnapshot, String>)
    requires
        call_ensures(MigrationSnapshot::of, (&row,), r),
    ensures
        r is Ok <==> is_semver(row.version@),
        r matches Ok(snap) ==> {
            &&& snap.version@ == row.version@
            &&& snap.bins@ == row.bins@
            &&& snap.locked == row.locked
            &&& snap.pinned == row.pinned
            &&& snap.built_with_rustc == row.built_with_rustc
        },
{
}

/// Rows that differ in a fact that a migration carries over have snapshots that
/// differ in it, and only in it.
pub proof fn law_snapshots_tell_rows_apart(
    a: Row,
    b: Row,
    from_a: MigrationSnapshot,
    from_b: MigrationSnapshot,
)
    requires
        call_ensures(MigrationSnapshot::of, (&a,), Ok(from_a)),
        call_ensures(MigrationSnapshot::of, (&b,), Ok(from_b)),
    ensures
        from_a.version@ == from_b.version@ <==> a.version@ == b.version@,
        from_a.bins@ == from_b.bins@ <==> a.bins@ == b.bins@,
        from_a.locked == from_b.locked <==> a.locked == b.locked,
        from_a.pinned == from_b.pinned <==> a.pinned == b.pinned,
        from_a.built_with_rustc == from_b.built_with_rustc <==> a.built_with_rustc
            == b.built_with_rustc,
{
    law_a_snapshot_is_the_row(a, Ok(from_a));
    law_a_snapshot_is_the_row(b, Ok(from_b));
}

/// A handover runs the action that was chosen, on the crates it was chosen for:
/// a name goes over as it is and alone, `--locked` and the pin as they were, only
/// a rebuild says `--reinstall`, and only the sweep says `--all`.
pub proof fn law_a_handover_runs_what_was_chosen(action: PendingAction, r: Command)
    requires
        call_ensures(command_of, (&action,), r),
    ensures
        r is ReinstallAll <==> action is ReinstallAll,
        r is Downgrade <==> action is Downgrade,
        r is Remove <==> action is Remove,
        r is SetPinned <==> action is SetPinned,
        r is Update <==> action is Update || action is UpdateAll,
        r is Install <==> action is Install || action is Reinstall,
        r matches Command::Install { crates, locked, reinstall } ==> reinstall == (
        action is Reinstall),
        r matches Command::Update { crates, all } ==> all == (action is UpdateAll) && (all
            <==> crates.len() == 0),
        action matches PendingAction::Reinstall(name) ==> (r matches Command::Install {
            crates,
            locked,
            ..
        } && crates.len() == 1 && crates@[0]@ == name@ && !locked),
        action matches PendingAction::Install { crates: asked, locked: flag } ==> (
        r matches Command::Install { crates, locked, .. } && locked == flag && crates.len()
            == asked.len() && forall|i: int|
            0 <= i < asked.len() ==> (#[trigger] crates@[i])@ == asked@[i]@),
        action matches PendingAction::Update(name) ==> (r matches Command::Update { crates, .. }
            && crates.len() == 1 && crates@[0]@ == name@),
        action matches PendingAction::Downgrade(name) ==> (r matches Command::Downgrade(n) && n@
            == name@),
        action matches PendingAction::Remove(name) ==> (r matches Command::Remove(crates)
            && crates.len() == 1 && crates@[0]@ == name@),
        action matches PendingAction::SetPinned { name, pinned: to } ==> (
        r matches Command::SetPinned { crates, pinned } && pinned == to && crates.len() == 1
            && crates@[0]@ == name@),
{
    match r {
        Command::Install { crates, .. } => {
            lemma_texts_index(crates@);
            if let PendingAction::Install { crates: asked, .. } = action {
                lemma_texts_index(asked@);
            }
        },
        Command::Update { crates, .. } => lemma_texts_index(crates@),
        Command::Remove(crates) => lemma_texts_index(crates@),
        Command::SetPinned { crates, .. } => lemma_texts_index(crates@),
        _ => {},
    }
}

proof fn lemma_texts_index(list: Seq<String>)
    ensures
        texts(list).len() == list.len(),
        forall|i: int| 0 <= i < list.len() ==> texts(list)[i] == (#[trigger] list[i])@,
{
}

/// The words for an action end in the crate they are about, and begin with the
/// action: a pin and an unpin of one crate, an update, a removal and a downgrade
/// of it are all told apart.
pub proof fn law_labels_name_the_crate(action: PendingAction, r: String)
    requires
        call_ensures(action_label, (&action,), r),
    ensures
        match action {
            PendingAction::Update(name) => r@ == "update "@ + name@,
            PendingAction::Downgrade(name) => r@ == "downgrade "@ + name@,
            PendingAction::Reinstall(name) => r@ == "reinstall "@ + name@,
            PendingAction::Remove(name) => r@ == "remove "@ + name@,
            PendingAction::SetPinned { name, pinned } => r@ == (if pinned {
                "pin "@
            } else {
                "unpin "@
            }) + name@,
            PendingAction::ReinstallAll => r@ == "reinstall all"@,
            PendingAction::UpdateAll => r@ == "update --all"@,
            PendingAction::Install { crates, locked } => r@ == "install "@ + joined(
                texts(crates@),
                " "@,
            ) + (if locked {
                " --locked"@
            } else {
                Seq::empty()
            }),
        },
{
    if let PendingAction::Install { crates, locked } = action {
        let words = "install "@ + joined(texts(crates@), " "@);
        assert(words + Seq::<char>::empty() =~= words);
    }
}

/// Exactly the two sweeps' questions pin a plan above themselves, and a question
/// keeps the action it was asked for.
pub proof fn law_only_sweeps_pin_a_plan(prompt: &str, action: OnConfirm, asked: Confirm, owns: bool)
    requires
        call_ensures(Confirm::new, (prompt, action), asked),
        call_ensures(Confirm::owns_report, (&asked,), owns),
    ensures
        asked.action == action,
        owns <==> action is ReinstallAll || action is UpdateAll,
{
}

/// A row whose version does not parse is refused by its name.
pub proof fn law_an_unparsable_row_is_named(row: Row, r: Result<MigrationSnapshot, String>)
    requires
        call_ensures(MigrationSnapshot::of, (&row,), r),
    ensures
        r is Err ==> r->Err_0@ == "manifest holds unparsable version for `"@ + row.name@
            + "`; verify says more"@,
{
}

} // verus!
