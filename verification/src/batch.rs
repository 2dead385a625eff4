//! The batch machinery: shared tally and reporting state, the per-verb sections
//! that classify member outcomes, and migration's queue and stopping state. The
//! crate stays the unit of execution and commit; a batch is only an iteration
//! policy above it.
use crate::decimal::{count_of, decimal};
use crate::state::{PendingAction, PendingMigrate};
use crate::text::{cat, cat3, lines, lines_of, sanitize, sanitized, texts};
use std::collections::VecDeque;
use vstd::prelude::*;

verus! {

/// A key by which a batch files its members' lines.
pub trait SectionKey: Copy {
    /// Whether two keys are the same.
    fn same_key(self, other: Self) -> (r: bool)
        ensures
            r == (self == other),
    ;
}

/// What an install batch's members can end up being. Fewer than a migration's:
/// an install has no half-done outcome to name, a crate is installed or it is
/// not.
#[derive(Clone, Copy, PartialEq, Eq, Debug, Structural)]
pub enum InstallSection {
    Failed,
    /// A sweep's own outcome: the plan was confirmed about an entry that has
    /// since moved. Neither built nor broken.
    Skipped,
    /// Built, and then the placement door could not be opened. Not a failure to
    /// build, and the panel must not imply one.
    Refused,
    Noticed,
}

impl SectionKey for InstallSection {
    fn same_key(self, other: InstallSection) -> (r: bool) {
        self == other
    }
}

/// What a migration's members can end up being. No other batch can commit a
/// destination and leave a source standing.
#[derive(Clone, Copy, PartialEq, Eq, Debug, Structural)]
pub enum MigrateSection {
    /// The same diagnostics a single failure panel gets.
    Failed,
    /// Destination built, placement not authorized: the reason, not the
    /// diagnostics of a failure that did not happen.
    Refused,
    /// Destination committed, source not retired: the reason plus that member's
    /// warnings.
    Incomplete,
    /// Fully migrated members whose build spoke warnings: the summary must not
    /// launder them.
    Noticed,
}

impl SectionKey for MigrateSection {
    fn same_key(self, other: MigrateSection) -> (r: bool) {
        self == other
    }
}

/// What kind of batch a panel is summarising. A list of crates somebody typed
/// stops where it cannot deliver; a sweep over what is already installed asks
/// about every member, so a failure among them is a shortfall rather than a
/// stop.
#[derive(Clone, Copy, PartialEq, Eq, Debug, Structural)]
pub enum BatchShape {
    List,
    Rebuild,
    Update,
}

impl BatchShape {
    /// What the summary says was done.
    pub open spec fn word(self) -> Seq<char> {
        match self {
            BatchShape::List => "installed"@,
            BatchShape::Rebuild => "rebuilt"@,
            BatchShape::Update => "updated"@,
        }
    }

    /// What the summary says was done.
    pub fn verb(self) -> (r: &'static str)
        ensures
            r@ == self.word(),
    {
        match self {
            BatchShape::List => "installed",
            BatchShape::Rebuild => "rebuilt",
            BatchShape::Update => "updated",
        }
    }

    /// Does a member that did not install end the run?
    pub fn stops_at_a_member(self) -> (r: bool)
        ensures
            r == (self == BatchShape::List),
    {
        matches!(self, BatchShape::List)
    }
}

/// A batch member's name and the lines it contributed.
pub type BatchEntries = Vec<(String, Vec<String>)>;

/// The views of a section's entries.
pub open spec fn entries_view(entries: Seq<(String, Vec<String>)>) -> Seq<
    (Seq<char>, Seq<Seq<char>>),
> {
    Seq::new(entries.len(), |i: int| (entries[i].0@, texts(entries[i].1@)))
}

/// A group of per-member lines in a batch's closing panel: the backend's key
/// for it, and the heading the person reads.
pub struct BatchSection<K> {
    pub key: K,
    pub header: &'static str,
    pub entries: BatchEntries,
}

/// The queue and the tallies of a batch, and nothing about what its members do.
///
/// Sections are declared by the backend at construction, in the order the panel
/// should show them, and named afterwards by the backend's own key, never by
/// the heading, which is there to be read.
pub struct BatchRunner<T, K> {
    pub queue: VecDeque<T>,
    pub total: usize,
    pub succeeded: usize,
    pub sections: Vec<BatchSection<K>>,
    /// The last reload failure, resurfaced at the summary.
    pub reload_error: Option<String>,
}

/// The lines that one member contributes to the panel.
pub open spec fn member_lines(name: Seq<char>, lines: Seq<Seq<char>>) -> Seq<Seq<char>> {
    seq![sanitized("  "@ + name + ":"@)] + Seq::new(
        lines.len(),
        |i: int| sanitized("    "@ + lines[i]),
    )
}

/// The lines that a section's members contribute to the panel.
pub open spec fn section_lines(entries: Seq<(Seq<char>, Seq<Seq<char>>)>) -> Seq<Seq<char>>
    decreases entries.len(),
{
    if entries.len() == 0 {
        Seq::empty()
    } else {
        section_lines(entries.drop_last()) + member_lines(entries.last().0, entries.last().1)
    }
}

/// An empty line between what stands already and what follows.
pub open spec fn spaced(lines: Seq<Seq<char>>) -> Seq<Seq<char>> {
    if lines.len() == 0 {
        lines
    } else {
        lines.push(Seq::empty())
    }
}

/// The sections of a panel: the non-empty ones in declared order, each under
/// its heading.
pub open spec fn panel_lines<K>(sections: Seq<BatchSection<K>>) -> Seq<Seq<char>>
    decreases sections.len(),
{
    if sections.len() == 0 {
        Seq::empty()
    } else {
        let before = panel_lines(sections.drop_last());
        let section = sections.last();
        if section.entries@.len() == 0 {
            before
        } else {
            spaced(before).push(section.header@) + section_lines(entries_view(section.entries@))
        }
    }
}

/// The closing panel: the sections, then the reload failure if there was one.
pub open spec fn closing_lines<K>(
    sections: Seq<BatchSection<K>>,
    reload_error: Option<String>,
) -> Seq<Seq<char>> {
    match reload_error {
        None => panel_lines(sections),
        Some(e) => spaced(panel_lines(sections)).push(
            sanitized("(and the list reload failed: "@ + e@ + ")"@),
        ),
    }
}

/// The position of the section declared under a key; the number of sections
/// where none is.
pub open spec fn slot<K>(sections: Seq<BatchSection<K>>, key: K) -> int
    decreases sections.len(),
{
    if sections.len() == 0 {
        0
    } else if sections[0].key == key {
        0
    } else {
        1 + slot(sections.drop_first(), key)
    }
}

/// Whether a section was declared under a key.
pub open spec fn declared<K>(sections: Seq<BatchSection<K>>, key: K) -> bool {
    slot(sections, key) < sections.len()
}

/// The members filed under a key.
pub open spec fn filed<K>(sections: Seq<BatchSection<K>>, key: K) -> Seq<
    (Seq<char>, Seq<Seq<char>>),
> {
    entries_view(sections[slot(sections, key)].entries@)
}

/// Whether nothing was filed in any section.
pub open spec fn none_filed<K>(sections: Seq<BatchSection<K>>) -> bool {
    forall|i: int| 0 <= i < sections.len() ==> (#[trigger] sections[i]).entries@.len() == 0
}

/// Whether `after` is `before` with one more member filed under `key`.
pub open spec fn filed_one<K>(
    before: Seq<BatchSection<K>>,
    after: Seq<BatchSection<K>>,
    key: K,
    name: Seq<char>,
    lines: Seq<Seq<char>>,
) -> bool {
    let at = slot(before, key);
    &&& after.len() == before.len()
    &&& forall|i: int| 0 <= i < before.len() && i != at ==> #[trigger] after[i] == before[i]
    &&& after[at].key == before[at].key
    &&& after[at].header == before[at].header
    &&& entries_view(after[at].entries@) == entries_view(before[at].entries@).push((name, lines))
}

pub proof fn lemma_slot<K>(sections: Seq<BatchSection<K>>, key: K)
    ensures
        0 <= slot(sections, key) <= sections.len(),
        forall|i: int| 0 <= i < slot(sections, key) ==> sections[i].key != key,
        declared(sections, key) ==> sections[slot(sections, key)].key == key,
    decreases sections.len(),
{
    if sections.len() > 0 && sections[0].key != key {
        let rest = sections.drop_first();
        lemma_slot(rest, key);
        assert forall|i: int| 0 <= i < slot(sections, key) implies sections[i].key != key by {
            if i > 0 {
                assert(rest[i - 1].key != key);
            }
        }
    }
}

/// Where a key stands first, if every earlier section has another.
proof fn lemma_slot_is<K>(sections: Seq<BatchSection<K>>, key: K, at: int)
    requires
        0 <= at < sections.len(),
        sections[at].key == key,
        forall|i: int| 0 <= i < at ==> sections[i].key != key,
    ensures
        slot(sections, key) == at,
{
    lemma_slot(sections, key);
}

/// The sections of `after` are those of `before`, filed further: the slots of
/// the keys stay what they were.
pub proof fn lemma_slots_stay<K>(
    before: Seq<BatchSection<K>>,
    after: Seq<BatchSection<K>>,
    key: K,
)
    requires
        after.len() == before.len(),
        forall|i: int| 0 <= i < before.len() ==> (#[trigger] after[i]).key == before[i].key,
    ensures
        slot(after, key) == slot(before, key),
{
    lemma_slot(before, key);
    lemma_slot(after, key);
    if slot(before, key) < before.len() {
        assert(after[slot(before, key)].key == key);
    }
    if slot(after, key) < after.len() {
        assert(after[slot(after, key)].key == before[slot(after, key)].key);
    }
}

impl<T, K: SectionKey> BatchRunner<T, K> {
    /// Declared with the backend's own key per section, paired with the heading
    /// it shows. Keeping them apart means rewording a panel cannot silently
    /// move where a member's lines are filed. A key declared twice would file
    /// everything into the first and leave the second empty.
    pub fn new(queue: VecDeque<T>, sections: &Vec<(K, &'static str)>) -> (r: BatchRunner<T, K>)
        requires
            forall|i: int, j: int|
                0 <= i < j < sections.len() ==> (#[trigger] sections@[i]).0 != (
                #[trigger] sections@[j]).0,
        ensures
            r.queue == queue,
            r.total == queue@.len(),
            r.succeeded == 0,
            r.reload_error is None,
            r.sections.len() == sections.len(),
            forall|i: int|
                0 <= i < sections.len() ==> {
                    &&& (#[trigger] r.sections@[i]).key == sections@[i].0
                    &&& r.sections@[i].header == sections@[i].1
                    &&& r.sections@[i].entries@.len() == 0
                },
    {
        let mut out: Vec<BatchSection<K>> = Vec::new();
        let mut i: usize = 0;
        while i < sections.len()
            invariant
                i <= sections.len(),
                out.len() == i,
                forall|j: int|
                    0 <= j < i ==> {
                        &&& (#[trigger] out@[j]).key == sections@[j].0
                        &&& out@[j].header == sections@[j].1
                        &&& out@[j].entries@.len() == 0
                    },
            decreases sections.len() - i,
        {
            out.push(
                BatchSection { key: sections[i].0, header: sections[i].1, entries: Vec::new() },
            );
            i = i + 1;
        }
        BatchRunner {
            total: queue.len(),
            queue,
            succeeded: 0,
            sections: out,
            reload_error: None,
        }
    }

    /// The member to start next, if the queue still has one.
    pub fn next_member(&mut self) -> (r: Option<T>)
        ensures
            match r {
                Some(member) => {
                    &&& old(self).queue@.len() > 0
                    &&& member == old(self).queue@[0]
                    &&& final(self).queue@ == old(self).queue@.drop_first()
                },
                None => old(self).queue@.len() == 0 && final(self).queue@ == old(self).queue@,
            },
            *final(self) == (BatchRunner { queue: final(self).queue, ..*old(self) }),
    {
        let r = self.queue.pop_front();
        proof {
            if r is Some {
                assert(self.queue@ =~= old(self).queue@.drop_first());
            }
        }
        r
    }

    /// How many members are still queued.
    pub fn remaining(&self) -> (r: usize)
        ensures
            r == self.queue@.len(),
    {
        self.queue.len()
    }

    /// One member finished well.
    pub fn succeeded(&mut self)
        requires
            old(self).succeeded < usize::MAX,
        ensures
            *final(self) == (BatchRunner {
                succeeded: (old(self).succeeded + 1) as usize,
                ..*old(self)
            }),
    {
        self.succeeded = self.succeeded + 1;
    }

    /// The position of the section declared under a key.
    fn find(&self, key: K) -> (r: usize)
        requires
            declared(self.sections@, key),
        ensures
            r == slot(self.sections@, key),
            r < self.sections.len(),
    {
        let mut i: usize = 0;
        while i < self.sections.len()
            invariant
                i <= self.sections.len(),
                declared(self.sections@, key),
                forall|j: int| 0 <= j < i ==> self.sections@[j].key != key,
            decreases self.sections.len() - i,
        {
            if self.sections[i].key.same_key(key) {
                proof {
                    lemma_slot_is(self.sections@, key, i as int);
                }
                return i;
            }
            i = i + 1;
        }
        proof {
            lemma_slot(self.sections@, key);
        }
        i
    }

    /// One member has something to say, filed under a section the backend
    /// declared. A key that was never declared is a programming error.
    pub fn record(&mut self, key: K, name: &str, lines: Vec<String>)
        requires
            declared(old(self).sections@, key),
        ensures
            filed_one(old(self).sections@, final(self).sections@, key, name@, texts(lines@)),
            *final(self) == (BatchRunner { sections: final(self).sections, ..*old(self) }),
    {
        let at = self.find(key);
        let ghost before = self.sections@[at as int].entries@;
        let ghost entry = (name@, texts(lines@));
        self.sections[at].entries.push((name.to_owned(), lines));
        assert(entries_view(self.sections@[at as int].entries@) =~= entries_view(before).push(
            entry,
        ));
    }

    /// How many members are filed under a section.
    pub fn recorded(&self, key: K) -> (r: usize)
        requires
            declared(self.sections@, key),
        ensures
            r == filed(self.sections@, key).len(),
    {
        let at = self.find(key);
        self.sections[at].entries.len()
    }

    /// Whether the batch has nothing to show.
    pub fn quiet(&self) -> (r: bool)
        ensures
            r == (self.reload_error is None && none_filed(self.sections@)),
    {
        if self.reload_error.is_some() {
            return false;
        }
        let mut i: usize = 0;
        while i < self.sections.len()
            invariant
                i <= self.sections.len(),
                forall|j: int| 0 <= j < i ==> (#[trigger] self.sections@[j]).entries@.len() == 0,
            decreases self.sections.len() - i,
        {
            if self.sections[i].entries.len() > 0 {
                assert(self.sections@[i as int].entries@.len() != 0);
                return false;
            }
            i = i + 1;
        }
        true
    }

    /// The closing panel's lines: the non-empty sections in declared order,
    /// then the reload failure if there was one.
    pub fn report_lines(&self) -> (r: Vec<String>)
        ensures
            texts(r@) == closing_lines(self.sections@, self.reload_error),
    {
        let mut out: Vec<String> = Vec::new();
        let mut i: usize = 0;
        assert(texts(out@) =~= panel_lines(self.sections@.take(0)));
        while i < self.sections.len()
            invariant
                i <= self.sections.len(),
                texts(out@) == panel_lines(self.sections@.take(i as int)),
            decreases self.sections.len() - i,
        {
            let section = &self.sections[i];
            proof {
                assert(self.sections@.take(i + 1).drop_last() =~= self.sections@.take(i as int));
                assert(self.sections@.take(i + 1).last() == section);
            }
            i = i + 1;
            if section.entries.len() == 0 {
                continue ;
            }
            space(&mut out);
            let ghost head = texts(out@).push(section.header@);
            let ghost was = texts(out@);
            out.push(section.header.to_owned());
            assert(texts(out@) =~= head);
            let mut k: usize = 0;
            let ghost all = entries_view(section.entries@);
            assert(head + section_lines(all.take(0)) =~= head);
            while k < section.entries.len()
                invariant
                    k <= section.entries.len(),
                    all == entries_view(section.entries@),
                    texts(out@) == head + section_lines(all.take(k as int)),
                decreases section.entries.len() - k,
            {
                let ghost before = texts(out@);
                assert(all.take(k + 1).drop_last() =~= all.take(k as int));
                assert(all.take(k + 1).last() == all[k as int]);
                member(&mut out, section.entries[k].0.as_str(), &section.entries[k].1);
                assert(texts(out@) =~= head + section_lines(all.take(k + 1)));
                k = k + 1;
            }
            assert(all.take(k as int) =~= all);
        }
        assert(self.sections@.take(i as int) =~= self.sections@);
        match &self.reload_error {
            None => {},
            Some(e) => {
                space(&mut out);
                let ghost before = texts(out@);
                out.push(
                    sanitize(cat3("(and the list reload failed: ", e.as_str(), ")").as_str()),
                );
                assert(texts(out@) =~= before.push(
                    sanitized("(and the list reload failed: "@ + e@ + ")"@),
                ));
            },
        }
        out
    }

    /// `<head>`, plus what was left when a batch stopped early. The head is the
    /// backend's sentence: only it knows what the work was called or where it
    /// was going.
    pub fn summary(&self, head: &str, ended_early: Option<&str>) -> (r: String)
        ensures
            r@ == head@ + match ended_early {
                Some(how) => left_over(how@, self.queue@.len()),
                None => Seq::empty(),
            },
    {
        match ended_early {
            Some(how) => cat(head, left_over_text(how, self.remaining()).as_str()),
            None => {
                assert(head@ + Seq::<char>::empty() =~= head@);
                head.to_owned()
            },
        }
    }
}

/// How a batch ended early, and how many members it left unattempted.
pub open spec fn left_over(how: Seq<char>, left: nat) -> Seq<char> {
    " ("@ + how + "; "@ + decimal(left) + " not attempted)"@
}

/// How a batch ended early, and how many members it left unattempted.
pub fn left_over_text(how: &str, left: usize) -> (r: String)
    ensures
        r@ == left_over(how@, left as nat),
{
    let mut out = cat3(" (", how, "; ");
    out.append(count_of(left).as_str());
    out.append(" not attempted)");
    out
}

/// An empty line, where something stands already.
pub fn space(lines: &mut Vec<String>)
    ensures
        texts(final(lines)@) == spaced(texts(old(lines)@)),
{
    if lines.len() > 0 {
        lines.push(String::new());
        assert(texts(lines@) =~= texts(old(lines)@).push(Seq::empty()));
    }
}

/// The lines that one member contributes to the panel.
fn member(out: &mut Vec<String>, name: &str, lines: &Vec<String>)
    ensures
        texts(final(out)@) == texts(old(out)@) + member_lines(name@, texts(lines@)),
{
    let ghost before = texts(out@);
    let ghost all = member_lines(name@, texts(lines@));
    out.push(sanitize(cat3("  ", name, ":").as_str()));
    assert(texts(out@) =~= before + all.take(1));
    let mut i: usize = 0;
    while i < lines.len()
        invariant
            i <= lines.len(),
            all == member_lines(name@, texts(lines@)),
            texts(out@) == before + all.take(i + 1),
        decreases lines.len() - i,
    {
        let ghost was = texts(out@);
        out.push(sanitize(cat("    ", lines[i].as_str()).as_str()));
        assert(texts(out@) =~= was.push(all[i + 1]));
        assert(all.take(i + 2) =~= all.take(i + 1).push(all[i + 1]));
        assert(texts(out@) =~= before + all.take(i + 2));
        i = i + 1;
    }
    assert(all.take(i + 1) =~= all);
}

/// A batch is quiet exactly where its closing panel has no line.
pub proof fn law_quiet_means_no_lines<K>(
    sections: Seq<BatchSection<K>>,
    reload_error: Option<String>,
)
    ensures
        (reload_error is None && none_filed(sections)) <==> closing_lines(
            sections,
            reload_error,
        ).len() == 0,
{
    lemma_panel_empty(sections);
}

proof fn lemma_panel_empty<K>(sections: Seq<BatchSection<K>>)
    ensures
        none_filed(sections) <==> panel_lines(sections).len() == 0,
    decreases sections.len(),
{
    if sections.len() > 0 {
        let front = sections.drop_last();
        lemma_panel_empty(front);
        if none_filed(sections) {
            assert forall|i: int| 0 <= i < front.len() implies (
            #[trigger] front[i]).entries@.len() == 0 by {
                assert(sections[i].entries@.len() == 0);
            }
            assert(sections.last().entries@.len() == 0);
        } else if none_filed(front) {
            let i = choose|i: int|
                0 <= i < sections.len() && (#[trigger] sections[i]).entries@.len() != 0;
            if i < front.len() {
                assert(front[i].entries@.len() == 0);
            }
        }
    }
}

/// Sections appear in the order the backend declared: the panel of the first
/// sections is the beginning of the whole panel.
pub proof fn law_sections_keep_their_order<K>(sections: Seq<BatchSection<K>>, k: int)
    requires
        0 <= k <= sections.len(),
    ensures
        panel_lines(sections.take(k)).len() <= panel_lines(sections).len(),
        panel_lines(sections).take(panel_lines(sections.take(k)).len() as int) == panel_lines(
            sections.take(k),
        ),
    decreases sections.len(),
{
    if k < sections.len() {
        let front = sections.drop_last();
        law_sections_keep_their_order(front, k);
        assert(front.take(k) =~= sections.take(k));
        let n = panel_lines(sections.take(k)).len() as int;
        assert(panel_lines(sections).take(n) =~= panel_lines(front).take(n));
    } else {
        assert(sections.take(k) =~= sections);
        assert(panel_lines(sections).take(panel_lines(sections).len() as int) =~= panel_lines(
            sections,
        ));
    }
}

/// A migration batch: a queue of single migrations, each its own unit,
/// preflight and cancel door. What stays here beside the queue is the
/// destination, because only a migration has one.
pub struct MigrateBatch {
    pub dest: String,
    pub runner: BatchRunner<PendingMigrate, MigrateSection>,
    /// The batch-level stop intent. Set the moment a cancel is pressed, before
    /// the member's own door answers, so a cancel that loses to placement still
    /// speaks for the members not yet started.
    pub stopping: bool,
}

/// The members that a migration batch has an answer for or still has queued:
/// what is missing to the plan is the member in flight.
pub open spec fn accounted(runner: BatchRunner<PendingMigrate, MigrateSection>) -> nat {
    processed(runner) + runner.queue@.len()
}

/// The members that a migration batch has an answer for. A member filed for its
/// warnings also succeeded, so the tally is the successes plus the sections that
/// are not one.
pub open spec fn processed(runner: BatchRunner<PendingMigrate, MigrateSection>) -> nat {
    runner.succeeded as nat + filed(runner.sections@, MigrateSection::Incomplete).len() + filed(
        runner.sections@,
        MigrateSection::Failed,
    ).len() + filed(runner.sections@, MigrateSection::Refused).len()
}

/// The headings of a migration's sections, in panel order.
pub fn migrate_sections() -> (r: Vec<(MigrateSection, &'static str)>)
    ensures
        r@ == seq![
            (MigrateSection::Failed, "failed:"),
            (MigrateSection::Refused, "built, but not placed:"),
            (MigrateSection::Incomplete, "destination committed, source not retired:"),
            (MigrateSection::Noticed, "migrated, with build warnings:"),
        ],
{
    vec![
        (MigrateSection::Failed, "failed:"),
        (MigrateSection::Refused, "built, but not placed:"),
        (MigrateSection::Incomplete, "destination committed, source not retired:"),
        (MigrateSection::Noticed, "migrated, with build warnings:"),
    ]
}

/// The headings of an install batch's sections, in panel order.
pub fn install_sections() -> (r: Vec<(InstallSection, &'static str)>)
    ensures
        r@ == seq![
            (InstallSection::Failed, "failed:"),
            (InstallSection::Refused, "built, but not placed:"),
            (InstallSection::Noticed, "installed, with build warnings:"),
        ],
{
    vec![
        (InstallSection::Failed, "failed:"),
        (InstallSection::Refused, "built, but not placed:"),
        (InstallSection::Noticed, "installed, with build warnings:"),
    ]
}

/// The headings of a rebuild sweep's sections. A sweep can skip; it cannot
/// refuse a plan, because its plan is its own snapshot rather than a list
/// somebody typed.
pub fn sweep_sections() -> (r: Vec<(InstallSection, &'static str)>)
    ensures
        r@ == seq![
            (InstallSection::Failed, "failed:"),
            (InstallSection::Refused, "built, but not placed:"),
            (InstallSection::Skipped, "skipped, changed since the plan was confirmed:"),
            (InstallSection::Noticed, "rebuilt, with build warnings:"),
        ],
{
    vec![
        (InstallSection::Failed, "failed:"),
        (InstallSection::Refused, "built, but not placed:"),
        (InstallSection::Skipped, "skipped, changed since the plan was confirmed:"),
        (InstallSection::Noticed, "rebuilt, with build warnings:"),
    ]
}

/// The headings of an update sweep's sections.
pub fn update_sections() -> (r: Vec<(InstallSection, &'static str)>)
    ensures
        r@ == seq![
            (InstallSection::Failed, "failed:"),
            (InstallSection::Refused, "built, but not placed:"),
            (InstallSection::Skipped, "skipped, changed since the plan was confirmed:"),
            (InstallSection::Noticed, "updated, with build warnings:"),
        ],
{
    vec![
        (InstallSection::Failed, "failed:"),
        (InstallSection::Refused, "built, but not placed:"),
        (InstallSection::Skipped, "skipped, changed since the plan was confirmed:"),
        (InstallSection::Noticed, "updated, with build warnings:"),
    ]
}

/// How one member of a batch ended.
///
/// `Refused` is not `Failed`: a crate whose build succeeded and whose placement
/// could not be authorized did not fail to build.
#[derive(Debug, PartialEq, Eq)]
pub enum MemberOutcome {
    Installed,
    /// The plan said one thing about this entry and the manifest now says
    /// another: not built, and not a failure either.
    Skipped(String),
    Failed(String),
    Refused(String),
    Cancelled,
}

/// The last `n` of these lines.
pub open spec fn last_lines(lines: Seq<Seq<char>>, n: int) -> Seq<Seq<char>> {
    if lines.len() <= n {
        lines
    } else {
        lines.skip(lines.len() - n)
    }
}

/// Each of these lines, sanitized.
pub open spec fn all_sanitized(lines: Seq<Seq<char>>) -> Seq<Seq<char>> {
    Seq::new(lines.len(), |i: int| sanitized(lines[i]))
}

/// The diagnostics a failure shows: the error chain, plus the last eight lines
/// of the tail when the chain is terse (the compiler's actual message often
/// lives there).
pub open spec fn failure_of(error: Seq<char>, tail: Seq<Seq<char>>) -> Seq<Seq<char>> {
    let chain = all_sanitized(lines_of(error));
    if chain.len() <= 1 {
        chain + last_lines(tail, 8)
    } else {
        chain
    }
}

/// The diagnostics a failure shows, single job and batch member alike.
pub fn failure_lines(error: &str, tail: &VecDeque<String>) -> (r: Vec<String>)
    ensures
        texts(r@) == failure_of(error@, texts(tail@)),
{
    let chain = lines(error);
    let ghost all = all_sanitized(lines_of(error@));
    let mut out: Vec<String> = Vec::new();
    let mut i: usize = 0;
    while i < chain.len()
        invariant
            i <= chain.len(),
            texts(chain@) == lines_of(error@),
            all == all_sanitized(lines_of(error@)),
            texts(out@) == all.take(i as int),
        decreases chain.len() - i,
    {
        let ghost before = texts(out@);
        assert(texts(chain@)[i as int] == chain@[i as int]@);
        out.push(sanitize(chain[i].as_str()));
        assert(texts(out@) =~= before.push(all[i as int]));
        assert(all.take(i + 1) =~= all.take(i as int).push(all[i as int]));
        i = i + 1;
    }
    assert(all.take(i as int) =~= all);
    if out.len() <= 1 {
        let ghost last = last_lines(texts(tail@), 8);
        let from: usize = if tail.len() <= 8 {
            0
        } else {
            tail.len() - 8
        };
        let mut k: usize = from;
        assert(all + last.take(0) =~= all);
        while k < tail.len()
            invariant
                from <= k <= tail.len(),
                from == if tail@.len() <= 8 {
                    0
                } else {
                    tail@.len() - 8
                },
                last == last_lines(texts(tail@), 8),
                texts(out@) == all + last.take(k - from),
            decreases tail.len() - k,
        {
            let ghost before = texts(out@);
            out.push(tail[k].clone());
            assert(texts(out@) =~= before.push(last[k - from]));
            assert(all + last.take(k + 1 - from) =~= before.push(last[k - from]));
            k = k + 1;
        }
        assert(last.take(k - from) =~= last);
    }
    out
}

/// A list of crates being installed, or a sweep: the presentation of a batch
/// whose execution belongs to its worker.
///
/// The queue is not here. One operation holds one lock across every member, so
/// the order of execution is the worker's. What is here is what the person
/// sees: which member is running, what each had to say, and the summary.
pub struct InstallBatch {
    pub runner: BatchRunner<(), InstallSection>,
    /// Which shape of batch this is.
    pub shape: BatchShape,
    /// The member whose lines are arriving now, if one is building. `None`
    /// before the first and between members, which is exactly when a failure
    /// belongs to the plan rather than to anyone.
    pub current: Option<String>,
    /// Members that got as far as starting.
    pub attempted: usize,
    /// Warnings spoken before any member started: its lines belong to no crate.
    pub plan_warnings: Vec<String>,
}

/// The section under which an outcome is filed, and the lines filed there; a
/// member that ended well or was cancelled files nothing but its warnings.
pub open spec fn filing(
    outcome: MemberOutcome,
    warnings: Seq<Seq<char>>,
    tail: Seq<Seq<char>>,
) -> Option<(InstallSection, Seq<Seq<char>>)> {
    match outcome {
        MemberOutcome::Installed => if warnings.len() == 0 {
            None
        } else {
            Some((InstallSection::Noticed, warnings))
        },
        MemberOutcome::Failed(e) => Some((InstallSection::Failed, failure_of(e@, tail))),
        MemberOutcome::Refused(reason) => Some(
            (InstallSection::Refused, seq![sanitized(reason@)]),
        ),
        MemberOutcome::Skipped(reason) => Some(
            (InstallSection::Skipped, seq![sanitized(reason@)]),
        ),
        MemberOutcome::Cancelled => None,
    }
}

/// Whether `after` is the runner `before` once a member is done.
pub open spec fn member_filed(
    before: BatchRunner<(), InstallSection>,
    after: BatchRunner<(), InstallSection>,
    name: Seq<char>,
    outcome: MemberOutcome,
    warnings: Seq<Seq<char>>,
    tail: Seq<Seq<char>>,
) -> bool {
    &&& after == (BatchRunner {
        sections: after.sections,
        succeeded: after.succeeded,
        ..before
    })
    &&& after.succeeded == before.succeeded + if outcome is Installed {
        1int
    } else {
        0
    }
    &&& match filing(outcome, warnings, tail) {
        None => after.sections == before.sections,
        Some((key, lines)) => filed_one(before.sections@, after.sections@, key, name, lines),
    }
}

impl InstallBatch {
    /// Whether every outcome of a member has a section here: a list of crates
    /// somebody typed skips nobody.
    pub open spec fn takes(self, outcome: MemberOutcome) -> bool {
        &&& declared(self.runner.sections@, InstallSection::Failed)
        &&& declared(self.runner.sections@, InstallSection::Refused)
        &&& declared(self.runner.sections@, InstallSection::Noticed)
        &&& outcome is Skipped ==> declared(self.runner.sections@, InstallSection::Skipped)
    }

    /// A member is starting: anything said before the first one belongs to the
    /// plan, not to it.
    pub fn begin_member(&mut self, name: &str, said_before: Vec<String>)
        requires
            old(self).attempted < usize::MAX,
        ensures
            final(self).current matches Some(n) && n@ == name@,
            final(self).attempted == old(self).attempted + 1,
            final(self).plan_warnings@ == if old(self).attempted == 0 {
                old(self).plan_warnings@ + said_before@
            } else {
                old(self).plan_warnings@
            },
            final(self).runner == old(self).runner,
            final(self).shape == old(self).shape,
    {
        if self.attempted == 0 {
            let mut said = said_before;
            self.plan_warnings.append(&mut said);
        }
        self.current = Some(name.to_owned());
        self.attempted = self.attempted + 1;
    }

    /// A member is done, with its own warnings and its own tail.
    ///
    /// The same rules a single build follows: warnings survive a success and
    /// are dropped on a failure (a rollback removed the binaries they
    /// described), and a terse failure gets the tail.
    pub fn finish_member(
        &mut self,
        name: &str,
        outcome: &MemberOutcome,
        warnings: Vec<String>,
        tail: &VecDeque<String>,
    )
        requires
            old(self).takes(*outcome),
            old(self).runner.succeeded < usize::MAX,
        ensures
            final(self).current is None,
            member_filed(
                old(self).runner,
                final(self).runner,
                name@,
                *outcome,
                texts(warnings@),
                texts(tail@),
            ),
            final(self).shape == old(self).shape,
            final(self).attempted == old(self).attempted,
            final(self).plan_warnings == old(self).plan_warnings,
    {
        match outcome {
            MemberOutcome::Installed => {
                self.runner.succeeded();
                if warnings.len() > 0 {
                    self.runner.record(InstallSection::Noticed, name, warnings);
                }
            },
            MemberOutcome::Failed(e) => {
                self.runner.record(
                    InstallSection::Failed,
                    name,
                    failure_lines(e.as_str(), tail),
                );
            },
            MemberOutcome::Refused(reason) => {
                let said = vec![sanitize(reason.as_str())];
                assert(texts(said@) =~= seq![sanitized(reason@)]);
                self.runner.record(InstallSection::Refused, name, said);
            },
            MemberOutcome::Skipped(reason) => {
                let said = vec![sanitize(reason.as_str())];
                assert(texts(said@) =~= seq![sanitized(reason@)]);
                self.runner.record(InstallSection::Skipped, name, said);
            },
            MemberOutcome::Cancelled => {},
        }
        self.current = None;
    }
}

/// Did the attempt actually start a worker?
///
/// A refusal is the end of that attempt; a handover is the attempt asking to be
/// run somewhere else, and it carries the action rather than scheduling it.
/// Something comes back for every member, so a slot is never left waiting on an
/// answer that is not coming.
pub enum StartOutcome {
    Started,
    Refused(String),
    /// This attempt cannot run captured; here is what would run it, and why.
    /// Nothing has been scheduled.
    NeedsTerminal { action: PendingAction, reason: String },
}

/// What the escalation preflight found.
pub enum Preflight {
    /// Nothing to authorize before this work starts.
    Ready,
    /// sudo validated but does not cache credentials: a captured call would be
    /// asked a question it cannot voice.
    NoCache,
    /// Something failed; the message is returned, not swallowed.
    Reported(String),
}

/// Where a migration is headed.
pub struct MigrateTarget {
    pub version: String,
    pub dest: String,
}

/// Whether the sections of a batch have keys of their own.
pub open spec fn own_keys<K>(sections: Seq<BatchSection<K>>) -> bool {
    forall|i: int, j: int|
        0 <= i < j < sections.len() ==> (#[trigger] sections[i]).key != (#[trigger] sections[j]).key
}

/// A batch starts with the whole queue before it, everything still to be done,
/// and a blank section for each heading, in the order given.
pub proof fn law_a_batch_starts_blank<T, K: SectionKey>(
    queue: VecDeque<T>,
    sections: Vec<(K, &'static str)>,
    r: BatchRunner<T, K>,
)
    requires
        forall|i: int, j: int|
            0 <= i < j < sections.len() ==> (#[trigger] sections@[i]).0 != (
            #[trigger] sections@[j]).0,
        call_ensures(BatchRunner::<T, K>::new, (queue, &sections), r),
    ensures
        r.queue@ == queue@,
        r.total == queue@.len(),
        r.succeeded == 0,
        r.reload_error is None,
        r.sections.len() == sections.len(),
        forall|i: int|
            0 <= i < sections.len() ==> (#[trigger] r.sections@[i]).key == sections@[i].0
                && r.sections@[i].header@ == sections@[i].1@ && r.sections@[i].entries.len() == 0,
{
}

/// Members leave the queue from the front, one at a time; the rest of the batch
/// stays as it is.
pub proof fn law_members_leave_in_order<T, K: SectionKey>(
    runner: &mut BatchRunner<T, K>,
    r: Option<T>,
    left: usize,
)
    requires
        call_ensures(BatchRunner::<T, K>::next_member, (runner,), r),
        call_ensures(BatchRunner::<T, K>::remaining, (&*final(runner),), left),
    ensures
        r is Some <==> old(runner).queue@.len() > 0,
        r is Some ==> r->0 == old(runner).queue@[0] && left == old(runner).queue@.len() - 1
            && forall|i: int|
            0 <= i < left ==> (#[trigger] final(runner).queue@[i]) == old(runner).queue@[i + 1],
        r is None ==> left == 0,
        final(runner).total == old(runner).total,
        final(runner).succeeded == old(runner).succeeded,
        final(runner).sections == old(runner).sections,
        final(runner).reload_error == old(runner).reload_error,
{
}

/// What a member said is filed under its key, after what stands there, and
/// nowhere else; a success is counted and files nothing.
pub proof fn law_a_member_is_filed_once<T, K: SectionKey>(
    runner: &mut BatchRunner<T, K>,
    key: K,
    name: &str,
    lines: Vec<String>,
    i: int,
    well: &mut BatchRunner<T, K>,
)
    requires
        declared(old(runner).sections@, key),
        own_keys(old(runner).sections@),
        call_ensures(BatchRunner::<T, K>::record, (runner, key, name, lines), ()),
        0 <= i < old(runner).sections.len(),
        old(well).succeeded < usize::MAX,
        call_ensures(BatchRunner::<T, K>::succeeded, (well,), ()),
    ensures
        ({
            let before = old(runner).sections@[i];
            let after = final(runner).sections@[i];
            &&& final(runner).sections.len() == old(runner).sections.len()
            &&& after.key == before.key
            &&& after.header@ == before.header@
            &&& before.key != key ==> after.entries@ == before.entries@
            &&& before.key == key ==> {
                &&& after.entries.len() == before.entries.len() + 1
                &&& after.entries@.last().0@ == name@
                &&& texts(after.entries@.last().1@) == texts(lines@)
                &&& forall|k: int|
                    0 <= k < before.entries.len() ==> (#[trigger] after.entries@[k]).0@
                        == before.entries@[k].0@ && texts(after.entries@[k].1@) == texts(
                        before.entries@[k].1@,
                    )
            }
        }),
        final(runner).succeeded == old(runner).succeeded,
        final(runner).total == old(runner).total,
        final(runner).queue == old(runner).queue,
        final(well).succeeded == old(well).succeeded + 1,
        final(well).sections == old(well).sections,
        final(well).total == old(well).total,
        final(well).queue == old(well).queue,
{
    let sections = old(runner).sections@;
    lemma_slot(sections, key);
    let at = slot(sections, key);
    if sections[i].key == key {
        assert(i == at);
        let (before, after) = (sections[i].entries@, final(runner).sections@[i].entries@);
        let (was, is) = (entries_view(before), entries_view(after));
        assert(was.len() == before.len() && is.len() == after.len());
        assert(is[is.len() - 1] == (name@, texts(lines@)));
        assert forall|k: int| 0 <= k < before.len() implies (#[trigger] after[k]).0@
            == before[k].0@ && texts(after[k].1@) == texts(before[k].1@) by {
            assert(is[k] == was[k]);
        }
    }
}

/// How many are filed under a key is how many stand in its section, and a batch
/// is quiet exactly where nobody is filed anywhere and no reload failed.
pub proof fn law_the_filed_are_counted<T, K: SectionKey>(
    runner: BatchRunner<T, K>,
    key: K,
    i: int,
    count: usize,
    quiet: bool,
)
    requires
        0 <= i < runner.sections.len(),
        runner.sections@[i].key == key,
        own_keys(runner.sections@),
        call_ensures(BatchRunner::<T, K>::recorded, (&runner, key), count),
        call_ensures(BatchRunner::<T, K>::quiet, (&runner,), quiet),
    ensures
        count == runner.sections@[i].entries.len(),
        quiet <==> runner.reload_error is None && forall|k: int|
            0 <= k < runner.sections.len() ==> (#[trigger] runner.sections@[k]).entries.len() == 0,
        count > 0 ==> !quiet,
{
    lemma_slot_is(runner.sections@, key, i);
}

/// A section nobody is filed in is not shown.
pub proof fn law_empty_sections_are_not_shown<K>(
    before: Seq<BatchSection<K>>,
    section: BatchSection<K>,
    after: Seq<BatchSection<K>>,
)
    requires
        section.entries.len() == 0,
    ensures
        panel_lines(before.push(section) + after) == panel_lines(before + after),
    decreases after.len(),
{
    if after.len() == 0 {
        assert(before.push(section) + after =~= before.push(section));
        assert(before + after =~= before);
        assert(before.push(section).drop_last() =~= before);
    } else {
        law_empty_sections_are_not_shown(before, section, after.drop_last());
        assert((before.push(section) + after).drop_last() =~= before.push(section)
            + after.drop_last());
        assert((before + after).drop_last() =~= before + after.drop_last());
    }
}

/// A section somebody is filed in is shown under its heading, below the sections
/// before it and an empty line: each member's name on a line of its own, then
/// what it said, indented further.
pub proof fn law_a_section_is_shown_under_its_heading<K>(
    before: Seq<BatchSection<K>>,
    section: BatchSection<K>,
)
    requires
        section.entries.len() > 0,
    ensures
        ({
            let above = panel_lines(before);
            let panel = panel_lines(before.push(section));
            let at: int = if above.len() == 0 {
                0
            } else {
                above.len() as int + 1
            };
            let first = section.entries@[0];
            let last = section.entries@.last();
            &&& panel.len() > at + 1
            &&& panel.take(above.len() as int) == above
            &&& above.len() > 0 ==> panel[above.len() as int].len() == 0
            &&& panel[at] == section.header@
            &&& panel[at + 1] == sanitized("  "@ + first.0@ + ":"@)
            &&& panel.len() >= at + 2 + last.1.len()
            &&& panel[panel.len() - 1 - last.1.len()] == sanitized("  "@ + last.0@ + ":"@)
            &&& forall|i: int|
                0 <= i < last.1.len() ==> #[trigger] panel[panel.len() - last.1.len() + i]
                    == sanitized("    "@ + last.1@[i]@)
        }),
{
    let above = panel_lines(before);
    let all = before.push(section);
    assert(all.drop_last() =~= before);
    let entries = entries_view(section.entries@);
    lemma_section_first(entries);
    let own = section_lines(entries);
    let head = spaced(above).push(section.header@);
    let panel = panel_lines(all);
    assert(panel == head + own);
    assert(panel.take(above.len() as int) =~= above);
    let last = section.entries@.last();
    let tail = member_lines(last.0@, texts(last.1@));
    assert(own == section_lines(entries.drop_last()) + tail);
    assert(texts(last.1@).len() == last.1.len());
    assert(tail.len() == 1 + last.1.len());
    let from = panel.len() - tail.len();
    assert forall|i: int| 0 <= i < tail.len() implies panel[from + i] == tail[i] by {}
    assert(panel[from] == tail[0]);
    assert forall|i: int| 0 <= i < last.1.len() implies #[trigger] panel[panel.len() - last.1.len()
        + i] == sanitized("    "@ + last.1@[i]@) by {
        assert(panel[from + (i + 1)] == tail[i + 1]);
        assert(texts(last.1@)[i] == last.1@[i]@);
    }
    assert(panel[head.len() as int] == own[0]);
}

proof fn lemma_section_first(entries: Seq<(Seq<char>, Seq<Seq<char>>)>)
    requires
        entries.len() > 0,
    ensures
        section_lines(entries).len() > entries.last().1.len(),
        section_lines(entries)[0] == sanitized("  "@ + entries[0].0 + ":"@),
    decreases entries.len(),
{
    if entries.len() > 1 {
        lemma_section_first(entries.drop_last());
        assert(section_lines(entries)[0] == section_lines(entries.drop_last())[0]);
    } else {
        let own = member_lines(entries[0].0, entries[0].1);
        assert(section_lines(entries.drop_last()) =~= Seq::empty());
        assert(section_lines(entries) =~= own);
        assert(own[0] == sanitized("  "@ + entries[0].0 + ":"@));
    }
}

/// The members of a section are shown in the order filed.
pub proof fn law_members_are_shown_in_order(
    a: Seq<(Seq<char>, Seq<Seq<char>>)>,
    b: Seq<(Seq<char>, Seq<Seq<char>>)>,
)
    ensures
        section_lines(a + b) == section_lines(a) + section_lines(b),
    decreases b.len(),
{
    if b.len() == 0 {
        assert(a + b =~= a);
        assert(section_lines(a) + section_lines(b) =~= section_lines(a));
    } else {
        law_members_are_shown_in_order(a, b.drop_last());
        assert((a + b).drop_last() =~= a + b.drop_last());
        assert(section_lines(a + b) =~= section_lines(a) + section_lines(b));
    }
}

/// A failed reload is the last line of a closing panel, and without one the
/// panel is its sections.
pub proof fn law_a_failed_reload_closes_the_panel<T, K: SectionKey>(
    runner: BatchRunner<T, K>,
    r: Vec<String>,
)
    requires
        call_ensures(BatchRunner::<T, K>::report_lines, (&runner,), r),
    ensures
        runner.reload_error is None ==> texts(r@) == panel_lines(runner.sections@),
        runner.reload_error is Some ==> r.len() > 0 && r@.last()@ == sanitized(
            "(and the list reload failed: "@ + runner.reload_error->0@ + ")"@,
        ) && texts(r@).take(panel_lines(runner.sections@).len() as int) == panel_lines(
            runner.sections@,
        ),
{
    let shown = texts(r@);
    assert(shown.len() == r.len());
    if runner.reload_error is Some {
        assert(shown[shown.len() - 1] == r@[r.len() - 1]@);
        assert(shown.take(panel_lines(runner.sections@).len() as int) =~= panel_lines(
            runner.sections@,
        ));
    }
}

/// A summary is its head, and where the batch ended early also how, and how many
/// members are left in the queue.
pub proof fn law_a_summary_counts_what_is_left<T, K: SectionKey>(
    runner: BatchRunner<T, K>,
    head: &str,
    how: &str,
    whole: String,
    early: String,
)
    requires
        call_ensures(BatchRunner::<T, K>::summary, (&runner, head, None), whole),
        call_ensures(BatchRunner::<T, K>::summary, (&runner, head, Some(how)), early),
    ensures
        whole@ == head@,
        early@ == head@ + (" ("@ + how@ + "; "@ + decimal(runner.queue@.len()) + " not attempted)"@),
{
    assert(head@ + Seq::<char>::empty() =~= head@);
}

/// What the panels call their sections: a failure first, then what was built and
/// not placed, then what a migration left half done or a sweep skipped, and last
/// what went well with warnings.
pub proof fn law_panels_name_their_sections(
    migrate: Vec<(MigrateSection, &'static str)>,
    install: Vec<(InstallSection, &'static str)>,
    sweep: Vec<(InstallSection, &'static str)>,
    update: Vec<(InstallSection, &'static str)>,
)
    requires
        call_ensures(migrate_sections, (), migrate),
        call_ensures(install_sections, (), install),
        call_ensures(sweep_sections, (), sweep),
        call_ensures(update_sections, (), update),
    ensures
        migrate.len() == 4 && install.len() == 3 && sweep.len() == 4 && update.len() == 4,
        migrate@[0].0 is Failed && migrate@[1].0 is Refused && migrate@[2].0 is Incomplete
            && migrate@[3].0 is Noticed,
        install@[0].0 is Failed && install@[1].0 is Refused && install@[2].0 is Noticed,
        sweep@[0].0 is Failed && sweep@[1].0 is Refused && sweep@[2].0 is Skipped
            && sweep@[3].0 is Noticed,
        forall|i: int| 0 <= i < 4 ==> (#[trigger] update@[i]).0 == sweep@[i].0,
        migrate@[0].1@ == "failed:"@ && install@[0].1@ == "failed:"@ && sweep@[0].1@ == "failed:"@
            && update@[0].1@ == "failed:"@,
        migrate@[1].1@ == "built, but not placed:"@ && install@[1].1@ == migrate@[1].1@
            && sweep@[1].1@ == migrate@[1].1@ && update@[1].1@ == migrate@[1].1@,
        migrate@[2].1@ == "destination committed, source not retired:"@,
        sweep@[2].1@ == "skipped, changed since the plan was confirmed:"@ && update@[2].1@
            == sweep@[2].1@,
        migrate@[3].1@ == "migrated, with build warnings:"@,
        install@[2].1@ == "installed, with build warnings:"@,
        sweep@[3].1@ == "rebuilt, with build warnings:"@,
        update@[3].1@ == "updated, with build warnings:"@,
{
}

/// A failure shows its error line by line; one of a single line shows the last
/// lines of the output too, eight of them at most.
pub proof fn law_a_terse_failure_shows_the_output(
    error: &str,
    tail: VecDeque<String>,
    r: Vec<String>,
)
    requires
        call_ensures(failure_lines, (error, &tail), r),
    ensures
        ({
            let chain = lines_of(error@);
            let quoted = if chain.len() > 1 {
                0
            } else if tail@.len() < 8 {
                tail@.len() as int
            } else {
                8
            };
            &&& r.len() == chain.len() + quoted
            &&& forall|i: int| 0 <= i < chain.len() ==> (#[trigger] r@[i])@ == sanitized(chain[i])
            &&& forall|i: int|
                0 <= i < quoted ==> (#[trigger] r@[chain.len() + i])@ == tail@[tail@.len() - quoted
                    + i]@
        }),
{
    let chain = lines_of(error@);
    let shown = texts(r@);
    assert(shown.len() == r.len());
    assert(texts(tail@).len() == tail@.len());
    assert forall|i: int| 0 <= i < chain.len() implies (#[trigger] r@[i])@ == sanitized(chain[i]) by {
        assert(shown[i] == sanitized(chain[i]));
    }
    if chain.len() <= 1 {
        let quoted = if tail@.len() < 8 {
            tail@.len() as int
        } else {
            8
        };
        assert forall|i: int| 0 <= i < quoted implies (#[trigger] r@[chain.len() + i])@
            == tail@[tail@.len() - quoted + i]@ by {
            assert(shown[chain.len() + i] == texts(tail@)[tail@.len() - quoted + i]);
        }
    }
}

/// A member begins under its own name, and is one attempt more; what was said
/// before the first one stays with the plan, and what is said later does not.
pub proof fn law_a_member_begins_under_its_name(
    batch: &mut InstallBatch,
    name: &str,
    said_before: Vec<String>,
)
    requires
        old(batch).attempted < usize::MAX,
        call_ensures(InstallBatch::begin_member, (batch, name, said_before), ()),
    ensures
        final(batch).current is Some && final(batch).current->0@ == name@,
        final(batch).attempted == old(batch).attempted + 1,
        old(batch).attempted == 0 ==> final(batch).plan_warnings@ == old(batch).plan_warnings@
            + said_before@,
        old(batch).attempted > 0 ==> final(batch).plan_warnings@ == old(batch).plan_warnings@,
        final(batch).runner == old(batch).runner,
        final(batch).shape == old(batch).shape,
{
}

/// A member counts as a success exactly where it was installed. It is filed in
/// the one section that its end belongs to: a failure, a refusal and a skip each
/// in theirs, an install only where it has warnings, a cancel nowhere.
pub proof fn law_each_end_has_its_section(
    batch: &mut InstallBatch,
    name: &str,
    outcome: MemberOutcome,
    warnings: Vec<String>,
    tail: VecDeque<String>,
    i: int,
)
    requires
        old(batch).takes(outcome),
        old(batch).runner.succeeded < usize::MAX,
        own_keys(old(batch).runner.sections@),
        call_ensures(InstallBatch::finish_member, (batch, name, &outcome, warnings, &tail), ()),
        0 <= i < old(batch).runner.sections.len(),
    ensures
        ({
            let before = old(batch).runner.sections@[i];
            let after = final(batch).runner.sections@[i];
            let here = match before.key {
                InstallSection::Failed => outcome is Failed,
                InstallSection::Refused => outcome is Refused,
                InstallSection::Skipped => outcome is Skipped,
                InstallSection::Noticed => outcome is Installed && warnings.len() > 0,
            };
            &&& after.key == before.key
            &&& after.header@ == before.header@
            &&& !here ==> after.entries@ == before.entries@
            &&& here ==> after.entries.len() == before.entries.len() + 1
                && after.entries@.last().0@ == name@
            &&& here && outcome is Installed ==> texts(after.entries@.last().1@) == texts(
                warnings@,
            )
            &&& here && outcome is Refused ==> texts(after.entries@.last().1@) == seq![
                sanitized(outcome->Refused_0@),
            ]
            &&& here && outcome is Skipped ==> texts(after.entries@.last().1@) == seq![
                sanitized(outcome->Skipped_0@),
            ]
            &&& here && outcome is Failed ==> texts(after.entries@.last().1@) == failure_of(
                outcome->Failed_0@,
                texts(tail@),
            )
        }),
        final(batch).runner.succeeded == old(batch).runner.succeeded + if outcome is Installed {
            1int
        } else {
            0
        },
        final(batch).runner.total == old(batch).runner.total,
        final(batch).current is None,
        final(batch).attempted == old(batch).attempted,
        final(batch).plan_warnings == old(batch).plan_warnings,
{
    let sections = old(batch).runner.sections@;
    lemma_slot(sections, InstallSection::Failed);
    lemma_slot(sections, InstallSection::Refused);
    lemma_slot(sections, InstallSection::Noticed);
    lemma_slot(sections, InstallSection::Skipped);
    assert(texts(warnings@).len() == warnings.len());
    match filing(outcome, texts(warnings@), texts(tail@)) {
        None => {},
        Some((key, lines)) => {
            lemma_slot(sections, key);
            let at = slot(sections, key);
            if sections[i].key == key {
                assert(i == at);
                let (before, after) = (sections[i].entries@, final(batch).runner.sections@[i].entries@);
                let (was, is) = (entries_view(before), entries_view(after));
                assert(was.len() == before.len() && is.len() == after.len());
                assert(is[is.len() - 1] == (name@, lines));
            }
        },
    }
}

/// A typed list says installed and stops at a member; a sweep says rebuilt or
/// updated and stops at none.
pub proof fn law_a_batch_is_called_what_it_does(shape: BatchShape, word: &'static str, stops: bool)
    requires
        call_ensures(BatchShape::verb, (shape,), word),
        call_ensures(BatchShape::stops_at_a_member, (shape,), stops),
    ensures
        stops <==> shape is List,
        shape is List ==> word@ == "installed"@,
        shape is Rebuild ==> word@ == "rebuilt"@,
        shape is Update ==> word@ == "updated"@,
{
}

} // verus!
