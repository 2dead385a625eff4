//! The operations behind the interface: what each decides once its lock is held
//! and its manifest is read. Outcomes cross the boundary as typed values.
use crate::batch::MemberOutcome;
use crate::state::{
    names_of, named, AuthPurpose, CancelOutcome, Checked, Entry, Manifest, PlannedUpdate,
    ReinstallPlan, UpdatePlan,
};
use crate::text::{cat, cat3, cat6, first_named, in_name_order, lemma_first_named, same, texts};
use crate::validate::InstallSpec;
use crate::version::{semver_greater, Version};
use vstd::prelude::*;

verus! {

/// How a pin or unpin of one crate ended.
#[derive(Debug, PartialEq, Eq)]
pub enum TuiSetPinned {
    /// The bit flipped; the version, for the report line.
    Changed { version: String },
    /// Nothing to do: the manifest already agrees.
    Already,
    /// Another process holds the prefix.
    PrefixBusy,
}

/// How a removal of one crate ended.
#[derive(Debug, PartialEq, Eq)]
pub enum TuiRemove {
    Removed(Vec<String>),
    /// Another process holds the prefix.
    PrefixBusy,
}

/// What is said of a name that the list showed and the manifest does not hold.
pub open spec fn not_in_manifest(name: Seq<char>) -> Seq<char> {
    "`"@ + name + "` is not in the manifest (changed since the list was read?)"@
}

fn not_in_manifest_text(name: &str) -> (r: String)
    ensures
        r@ == not_in_manifest(name@),
{
    cat3("`", name, "` is not in the manifest (changed since the list was read?)")
}

/// What a pin or an unpin changes: one bit of one entry, where it is not set
/// already.
pub open spec fn pin_set(
    before: Manifest,
    name: Seq<char>,
    pinned: bool,
    after: Manifest,
    r: Result<TuiSetPinned, String>,
) -> bool {
    match before.entry(name) {
        None => {
            &&& r matches Err(e) && e@ == not_in_manifest(name)
            &&& after == before
        },
        Some(entry) => if entry.pinned == pinned {
            r matches Ok(TuiSetPinned::Already) && after == before
        } else {
            let at = first_named(names_of(before.crates@), name)->0;
            &&& r matches Ok(TuiSetPinned::Changed { version }) && version == entry.version
            &&& after.crates@ == before.crates@.update(
                at,
                (before.crates@[at].0, Entry { pinned, ..entry }),
            )
        },
    }
}

/// A pin is its own inverse: flipped and flipped back, the manifest holds what
/// it held; and a second flip of the same kind finds itself answered.
pub proof fn law_a_pin_flips_back(
    before: Manifest,
    name: Seq<char>,
    pinned: bool,
    flipped: Manifest,
    first: Result<TuiSetPinned, String>,
    after: Manifest,
    second: Result<TuiSetPinned, String>,
    again: Manifest,
    third: Result<TuiSetPinned, String>,
)
    requires
        pin_set(before, name, pinned, flipped, first),
        first matches Ok(TuiSetPinned::Changed { .. }),
        pin_set(flipped, name, !pinned, after, second),
        pin_set(flipped, name, pinned, again, third),
    ensures
        after.crates@ == before.crates@,
        second matches Ok(TuiSetPinned::Changed { .. }),
        third matches Ok(TuiSetPinned::Already),
{
    let names = names_of(before.crates@);
    lemma_first_named(names, name);
    let at = first_named(names, name)->0;
    assert(names_of(flipped.crates@) =~= names);
    assert(after.crates@ =~= before.crates@);
}

/// `pin`/`unpin` on a manifest read under the exclusive lock: already in that
/// state is an answer, not a write. Where the bit flips, nothing else of the
/// manifest moves.
pub fn tui_set_pinned(manifest: &mut Manifest, name: &str, pinned: bool) -> (r: Result<
    TuiSetPinned,
    String,
>)
    ensures
        pin_set(*old(manifest), name@, pinned, *final(manifest), r),
        old(manifest).names_once() ==> final(manifest).names_once(),
        old(manifest).names_in_order() ==> final(manifest).names_in_order(),
{
    let ghost names = names_of(manifest.crates@);
    match named(&manifest.crates, name) {
        None => Err(not_in_manifest_text(name)),
        Some(at) => {
            if manifest.crates[at].1.pinned == pinned {
                return Ok(TuiSetPinned::Already);
            }
            manifest.crates[at].1.pinned = pinned;
            assert(names_of(manifest.crates@) =~= names);
            Ok(TuiSetPinned::Changed { version: manifest.crates[at].1.version.clone() })
        },
    }
}

/// What a removal changes: the entry under that name leaves, and nothing else.
pub open spec fn removed_one(
    before: Manifest,
    name: Seq<char>,
    after: Manifest,
    r: Result<TuiRemove, String>,
) -> bool {
    match before.entry(name) {
        None => {
            &&& r matches Err(e) && e@ == not_in_manifest(name)
            &&& after == before
        },
        Some(entry) => {
            &&& r matches Ok(TuiRemove::Removed(bins)) && bins == entry.bins
            &&& after.crates@ == before.crates@.remove(
                first_named(names_of(before.crates@), name)->0,
            )
        },
    }
}

/// `remove` on a manifest read under the exclusive lock: the entry leaves, and
/// its binaries are what has to leave the disk.
pub fn tui_remove_one(manifest: &mut Manifest, name: &str) -> (r: Result<TuiRemove, String>)
    ensures
        removed_one(*old(manifest), name@, *final(manifest), r),
        old(manifest).names_once() ==> final(manifest).names_once(),
        old(manifest).names_in_order() ==> final(manifest).names_in_order(),
{
    let ghost names = names_of(manifest.crates@);
    match named(&manifest.crates, name) {
        None => Err(not_in_manifest_text(name)),
        Some(at) => {
            let (_, entry) = manifest.crates.remove(at);
            assert(names_of(manifest.crates@) =~= names.remove(at as int));
            Ok(TuiRemove::Removed(entry.bins))
        },
    }
}

/// How the entry that an install commits comes by its pin.
#[derive(Clone, Copy, PartialEq, Eq, Debug, Structural)]
pub enum PinPolicy {
    /// An exact version infers a pin, the newest release infers none.
    Infer,
    /// This pin, whatever the version.
    Exactly(bool),
}

/// What one pass of the install pipeline is asked for.
#[derive(Debug)]
pub struct Order {
    pub name: String,
    /// Exactly this version, or the newest release.
    pub version: Option<Version>,
    pub locked: bool,
    pub pins: PinPolicy,
}

impl Order {
    /// Whether this order asks for these things.
    pub open spec fn asks(
        self,
        name: Seq<char>,
        version: Option<Version>,
        locked: bool,
        pins: PinPolicy,
    ) -> bool {
        &&& self.name@ == name
        &&& self.version == version
        &&& self.locked == locked
        &&& self.pins == pins
    }

    /// Whether the entry that this order commits is pinned.
    pub open spec fn pins_entry(self) -> bool {
        match self.pins {
            PinPolicy::Infer => self.version is Some,
            PinPolicy::Exactly(pinned) => pinned,
        }
    }
}

/// What an install of one crate orders. `pins` is the refusal of a pinned crate:
/// it holds against a bare name, which would build the newest release, and not
/// against a named version, which is a re-pin to that version. `unchanged` is the
/// refusal of an install that would not change anything.
pub open spec fn install_ordered(
    spec: InstallSpec,
    locked: bool,
    pins: Result<(), String>,
    unchanged: Result<(), String>,
    r: Result<Order, String>,
) -> bool {
    if spec.version is None && pins is Err {
        r == Err::<Order, String>(pins->Err_0)
    } else {
        match unchanged {
            Err(refused) => r == Err::<Order, String>(refused),
            Ok(()) => r matches Ok(order) && order.asks(
                spec.name@,
                spec.version,
                locked,
                PinPolicy::Infer,
            ),
        }
    }
}

/// An install of what was typed, with the line's own `--locked`, or the refusal
/// it meets.
pub fn tui_install_one(
    spec: InstallSpec,
    locked: bool,
    pins: Result<(), String>,
    unchanged: Result<(), String>,
) -> (r: Result<Order, String>)
    ensures
        install_ordered(spec, locked, pins, unchanged, r),
{
    if spec.version.is_none() {
        match pins {
            Err(refused) => {
                return Err(refused);
            },
            Ok(()) => {},
        }
    }
    match unchanged {
        Err(refused) => Err(refused),
        Ok(()) => Ok(
            Order { name: spec.name, version: spec.version, locked, pins: PinPolicy::Infer },
        ),
    }
}

/// A bare install of a pinned crate orders nothing. A named version over a pinned
/// crate is a re-pin: it is ordered at that version, and comes back pinned.
pub proof fn law_only_a_named_version_moves_a_pin(
    spec: InstallSpec,
    locked: bool,
    refused: String,
    r: Result<Order, String>,
)
    requires
        install_ordered(spec, locked, Err(refused), Ok(()), r),
    ensures
        match spec.version {
            None => r == Err::<Order, String>(refused),
            Some(version) => r matches Ok(order) && order.name@ == spec.name@ && order.version
                == Some(version) && order.pins_entry(),
        },
{
}

/// The names that the pin refusal is asked about: those without a version.
pub open spec fn bare_names(specs: Seq<InstallSpec>) -> Seq<Seq<char>>
    decreases specs.len(),
{
    if specs.len() == 0 {
        Seq::empty()
    } else {
        let before = bare_names(specs.drop_last());
        if specs.last().version is None {
            before.push(specs.last().name@)
        } else {
            before
        }
    }
}

/// The names among what was typed that the pin refusal is asked about: a crate
/// with a named version is re-pinned by it, not held back.
pub fn pin_gated(specs: &Vec<InstallSpec>) -> (r: Vec<String>)
    ensures
        texts(r@) == bare_names(specs@),
{
    let mut names: Vec<String> = Vec::new();
    let mut i: usize = 0;
    assert(texts(names@) =~= bare_names(specs@.take(0)));
    while i < specs.len()
        invariant
            i <= specs.len(),
            texts(names@) == bare_names(specs@.take(i as int)),
        decreases specs.len() - i,
    {
        let ghost before = texts(names@);
        assert(specs@.take(i + 1).drop_last() =~= specs@.take(i as int));
        if specs[i].version.is_none() {
            names.push(specs[i].name.clone());
            assert(texts(names@) =~= before.push(specs@[i as int].name@));
        }
        i = i + 1;
    }
    assert(specs@.take(i as int) =~= specs@);
    names
}

/// The first refusal among these answers, if there is one.
pub open spec fn first_refusal<T>(answers: Seq<Result<T, String>>) -> Option<String>
    decreases answers.len(),
{
    if answers.len() == 0 {
        None
    } else {
        match answers.first() {
            Err(e) => Some(e),
            Ok(_) => first_refusal(answers.drop_first()),
        }
    }
}

/// The first refusal among these answers, if there is one.
fn refusal_among<T>(answers: &Vec<Result<T, String>>) -> (r: Option<String>)
    ensures
        r == first_refusal(answers@),
{
    let mut i: usize = 0;
    assert(answers@.skip(0) =~= answers@);
    while i < answers.len()
        invariant
            i <= answers.len(),
            first_refusal(answers@) == first_refusal(answers@.skip(i as int)),
        decreases answers.len() - i,
    {
        assert(answers@.skip(i as int).drop_first() =~= answers@.skip(i + 1));
        match &answers[i] {
            Err(refused) => {
                return Some(refused.clone());
            },
            Ok(_) => {},
        }
        i = i + 1;
    }
    None
}

/// The whole plan of an install, before the first build: `pins` is the refusal
/// of a pinned member among the [`pin_gated`], `unchanged` the answer for each member about one that
/// would not change anything. One refusal refuses the plan; else every member is
/// ordered, in the order typed.
pub fn tui_install_batch(
    specs: &Vec<InstallSpec>,
    locked: bool,
    pins: Result<(), String>,
    unchanged: &Vec<Result<(), String>>,
) -> (r: Result<Vec<Order>, String>)
    ensures
        match pins {
            Err(refused) => r == Err::<Vec<Order>, String>(refused),
            Ok(()) => match first_refusal(unchanged@) {
                Some(refused) => r == Err::<Vec<Order>, String>(refused),
                None => r matches Ok(orders) && orders@.len() == specs@.len() && forall|i: int|
                    0 <= i < orders@.len() ==> (#[trigger] orders@[i]).asks(
                        specs@[i].name@,
                        specs@[i].version,
                        locked,
                        PinPolicy::Infer,
                    ),
            },
        },
{
    match pins {
        Err(refused) => {
            return Err(refused);
        },
        Ok(()) => {},
    }
    match refusal_among(unchanged) {
        Some(refused) => {
            return Err(refused);
        },
        None => {},
    }
    let mut orders: Vec<Order> = Vec::new();
    let mut k: usize = 0;
    while k < specs.len()
        invariant
            k <= specs.len(),
            orders.len() == k,
            forall|i: int|
                0 <= i < k ==> (#[trigger] orders@[i]).asks(
                    specs@[i].name@,
                    specs@[i].version,
                    locked,
                    PinPolicy::Infer,
                ),
        decreases specs.len() - k,
    {
        let spec = &specs[k];
        let version = match &spec.version {
            Some(version) => Some(version.clone()),
            None => None,
        };
        orders.push(
            Order { name: spec.name.clone(), version, locked, pins: PinPolicy::Infer },
        );
        k = k + 1;
    }
    Ok(orders)
}

/// A rebuild of the entry that was read: its version, its `--locked` and its
/// pin, stated exactly, because an exact version would infer a pin and an
/// unpinned crate rebuilt must not come back pinned.
pub fn tui_reinstall_one(name: &str, plan: &ReinstallPlan) -> (r: Order)
    ensures
        r.asks(name@, Some(plan.version), plan.locked, PinPolicy::Exactly(plan.pinned)),
{
    Order {
        name: name.to_owned(),
        version: Some(plan.version.clone()),
        locked: plan.locked,
        pins: PinPolicy::Exactly(plan.pinned),
    }
}

/// What is said of a crate that is gone when a chosen version arrives.
pub open spec fn removed_while_choosing(name: Seq<char>) -> Seq<char> {
    "`"@ + name + "` was removed while a version was being chosen; press D again"@
}

/// What is said of a crate that moved while a version was being chosen.
pub open spec fn moved_while_choosing(
    name: Seq<char>,
    expected: Seq<char>,
    now: Seq<char>,
) -> Seq<char> {
    "`"@ + name + "` changed from "@ + expected + " to "@ + now
        + " while a version was being chosen; press D again"@
}

/// What is said of a crate that was pinned while a version was being chosen.
pub open spec fn pinned_while_choosing(name: Seq<char>) -> Seq<char> {
    "`"@ + name + "` was pinned while a version was being chosen; `p` unpins it first"@
}

/// The statement a downgrade makes under its lock: the manifest must still say
/// `expected`, and no pin may have been set meanwhile, or nothing is built.
/// Otherwise a command called downgrade could upgrade, or resurrect a crate
/// somebody just removed. The chosen version is asked for with the entry's
/// `--locked`, from this fresh read and never from the row.
pub fn tui_downgrade_one(
    manifest: &Manifest,
    name: &str,
    expected: &str,
    version: Version,
) -> (r: Result<Order, String>)
    ensures
        match manifest.entry(name@) {
            None => r matches Err(e) && e@ == removed_while_choosing(name@),
            Some(entry) => if entry.version@ != expected@ {
                r matches Err(e) && e@ == moved_while_choosing(name@, expected@, entry.version@)
            } else if entry.pinned {
                r matches Err(e) && e@ == pinned_while_choosing(name@)
            } else {
                r matches Ok(order) && order.asks(
                    name@,
                    Some(version),
                    entry.locked,
                    PinPolicy::Infer,
                )
            },
        },
{
    match manifest.get(name) {
        None => Err(
            cat3("`", name, "` was removed while a version was being chosen; press D again"),
        ),
        Some(fresh) => {
            if !same(fresh.version.as_str(), expected) {
                let mut e = cat6("`", name, "` changed from ", expected, " to ", &fresh.version);
                e.append(" while a version was being chosen; press D again");
                return Err(e);
            }
            if fresh.pinned {
                return Err(
                    cat3(
                        "`",
                        name,
                        "` was pinned while a version was being chosen; `p` unpins it first",
                    ),
                );
            }
            Ok(
                Order {
                    name: name.to_owned(),
                    version: Some(version),
                    locked: fresh.locked,
                    pins: PinPolicy::Infer,
                },
            )
        },
    }
}

/// What is said of an update asked for a crate that is not there.
pub open spec fn not_installed(name: Seq<char>) -> Seq<char> {
    "not installed: "@ + name
}

/// What is said of an update whose plan the entry outgrew.
pub open spec fn plan_outgrown(name: Seq<char>, now: Seq<char>, expected: Seq<char>) -> Seq<char> {
    "`"@ + name + "` is "@ + now + " now, not "@ + expected + "; the plan is out of date"@
}

/// The statement an update makes under its lock: `pins` is the refusal of a
/// pinned crate, and the entry must still have the version it had when the plan
/// was shown. The newest release is asked for with the entry's `--locked`: an
/// update changes the version and nothing else about how this installation is
/// built.
pub fn tui_update_one(
    manifest: &Manifest,
    pins: Result<(), String>,
    name: &str,
    expected: &str,
) -> (r: Result<Order, String>)
    ensures
        match pins {
            Err(refused) => r == Err::<Order, String>(refused),
            Ok(()) => match manifest.entry(name@) {
                None => r matches Err(e) && e@ == not_installed(name@),
                Some(entry) => if entry.version@ != expected@ {
                    r matches Err(e) && e@ == plan_outgrown(name@, entry.version@, expected@)
                } else {
                    r matches Ok(order) && order.asks(name@, None, entry.locked, PinPolicy::Infer)
                },
            },
        },
{
    match pins {
        Err(refused) => Err(refused),
        Ok(()) => match manifest.get(name) {
            None => Err(cat("not installed: ", name)),
            Some(entry) => if same(entry.version.as_str(), expected) {
                Ok(
                    Order {
                        name: name.to_owned(),
                        version: None,
                        locked: entry.locked,
                        pins: PinPolicy::Infer,
                    },
                )
            } else {
                let mut e = cat6("`", name, "` is ", &entry.version, " now, not ", expected);
                e.append("; the plan is out of date");
                Err(e)
            },
        },
    }
}

/// The premise of an update's lookup, read from the manifest and never from a
/// row: the entry is there, and `pins`, the refusal of a pinned crate, does not
/// speak. Handed back is the version that the lookup is about.
pub fn tui_update_premise(manifest: &Manifest, name: &str, pins: Result<(), String>) -> (r: Result<
    String,
    String,
>)
    ensures
        match manifest.entry(name@) {
            None => r matches Err(e) && e@ == not_installed(name@),
            Some(entry) => match pins {
                Err(refused) => r == Err::<String, String>(refused),
                Ok(()) => r == Ok::<String, String>(entry.version),
            },
        },
{
    match manifest.get(name) {
        None => Err(cat("not installed: ", name)),
        Some(entry) => match pins {
            Err(refused) => Err(refused),
            Ok(()) => Ok(entry.version.clone()),
        },
    }
}

/// What is said where the registry was asked about a crate and did not answer.
pub open spec fn no_version_information(name: Seq<char>) -> Seq<char> {
    "no version information for `"@ + name + "`"@
}

/// What the lookup behind an update comes to: `current` is the entry's version,
/// `checked` what the registry said about that entry.
pub fn tui_update_plan(name: &str, current: String, checked: Option<Checked>) -> (r: Result<
    UpdatePlan,
    String,
>)
    ensures
        match checked {
            None => r matches Err(e) && e@ == no_version_information(name@),
            Some(c) => if semver_greater(c.latest@, c.current@) {
                r == Ok::<UpdatePlan, String>(
                    UpdatePlan::Outdated { current, latest: c.latest },
                )
            } else {
                r == Ok::<UpdatePlan, String>(UpdatePlan::UpToDate { current })
            },
        },
{
    match checked {
        None => Err(cat3("no version information for `", name, "`")),
        Some(c) => if c.latest.exceeds(&c.current) {
            Ok(UpdatePlan::Outdated { current, latest: c.latest })
        } else {
            Ok(UpdatePlan::UpToDate { current })
        },
    }
}

/// What a sweep does with a member: the order for it, or the outcome of one that
/// is skipped.
#[derive(Debug)]
pub enum MemberWork {
    Build(Order),
    Skip(MemberOutcome),
}

impl MemberWork {
    /// Whether the member is skipped, for this reason.
    pub open spec fn skips(self, why: Seq<char>) -> bool {
        self matches MemberWork::Skip(MemberOutcome::Skipped(text)) && text@ == why
    }
}

/// Whether `r` is what an update sweep does with a member: the newest release
/// with the entry's `--locked`, where the entry still is what the plan read.
pub open spec fn update_ordered(
    manifest: Manifest,
    planned: PlannedUpdate,
    r: MemberWork,
) -> bool {
    match manifest.entry(planned.name@) {
        Some(e) => if e.version@ == planned.current@ && !e.pinned {
            r matches MemberWork::Build(order) && order.asks(
                planned.name@,
                None,
                e.locked,
                PinPolicy::Infer,
            )
        } else {
            r.skips("changed since the plan was confirmed"@)
        },
        None => r.skips("changed since the plan was confirmed"@),
    }
}

/// Whether `r` is what a rebuild sweep does with a member: the plan as it was
/// confirmed, where the entry still is what the plan read.
pub open spec fn rebuild_ordered(
    manifest: Manifest,
    name: Seq<char>,
    plan: ReinstallPlan,
    r: MemberWork,
) -> bool {
    match manifest.entry(name) {
        Some(e) => if e.version@ == plan.version@ && e.pinned == plan.pinned && e.locked
            == plan.locked {
            r matches MemberWork::Build(order) && order.asks(
                name,
                Some(plan.version),
                plan.locked,
                PinPolicy::Exactly(plan.pinned),
            )
        } else {
            r.skips("state changed since the reinstall was confirmed"@)
        },
        None => r.skips("state changed since the reinstall was confirmed"@),
    }
}

/// What an update sweep does with a member: it is updated where it is still what
/// the person read, at the version it had then and still unpinned. What is asked
/// for is the newest release, not the one that the plan showed.
pub fn update_member(manifest: &Manifest, planned: &PlannedUpdate) -> (r: MemberWork)
    ensures
        update_ordered(*manifest, *planned, r),
{
    match manifest.get(planned.name.as_str()) {
        Some(e) => if same(e.version.as_str(), planned.current.as_str()) && !e.pinned {
            return MemberWork::Build(
                Order {
                    name: planned.name.clone(),
                    version: None,
                    locked: e.locked,
                    pins: PinPolicy::Infer,
                },
            );
        },
        None => {},
    }
    MemberWork::Skip(MemberOutcome::Skipped("changed since the plan was confirmed".to_owned()))
}

/// The plan of a rebuild of everything: every managed entry, frozen as it stands,
/// in the manifest's order. `frozen` is the answer for each entry; one that cannot
/// be frozen leaves no plan.
pub fn tui_reinstall_plan(
    manifest: &Manifest,
    frozen: &Vec<Result<ReinstallPlan, String>>,
) -> (r: Result<Vec<(String, ReinstallPlan)>, String>)
    requires
        frozen.len() == manifest.crates.len(),
    ensures
        match first_refusal(frozen@) {
            Some(e) => r == Err::<Vec<(String, ReinstallPlan)>, String>(e),
            None => {
                &&& r matches Ok(planned) && names_of(planned@) == names_of(manifest.crates@) && (
                forall|i: int|
                    0 <= i < planned@.len() ==> frozen@[i] == Ok::<ReinstallPlan, String>(
                        (#[trigger] planned@[i]).1,
                    ))
            },
        },
        manifest.names_in_order() ==> (r matches Ok(planned) ==> in_name_order(
            names_of(planned@),
        )),
{
    match refusal_among(frozen) {
        Some(e) => {
            return Err(e);
        },
        None => {},
    }
    let mut planned: Vec<(String, ReinstallPlan)> = Vec::new();
    let mut i: usize = 0;
    while i < frozen.len()
        invariant
            i <= frozen.len(),
            frozen.len() == manifest.crates.len(),
            planned.len() == i,
            first_refusal(frozen@) is None,
            forall|j: int|
                0 <= j < i ==> (#[trigger] planned@[j]).0@ == manifest.crates@[j].0@ && frozen@[j]
                    == Ok::<ReinstallPlan, String>(planned@[j].1),
        decreases frozen.len() - i,
    {
        proof {
            lemma_none_refused(frozen@, i as int);
        }
        match &frozen[i] {
            Ok(plan) => planned.push(
                (
                    manifest.crates[i].0.clone(),
                    ReinstallPlan {
                        version: plan.version.clone(),
                        pinned: plan.pinned,
                        locked: plan.locked,
                    },
                ),
            ),
            Err(_) => {},
        }
        i = i + 1;
    }
    assert(names_of(planned@) =~= names_of(manifest.crates@));
    Ok(planned)
}

proof fn lemma_none_refused<T>(answers: Seq<Result<T, String>>, i: int)
    requires
        first_refusal(answers) is None,
        0 <= i < answers.len(),
    ensures
        answers[i] is Ok,
    decreases answers.len(),
{
    if i > 0 {
        lemma_none_refused(answers.drop_first(), i - 1);
    }
}

/// What a rebuild sweep does with a member: it is rebuilt where it is still what
/// the person confirmed, in the version, the pin and `--locked`, the three facts
/// the plan showed.
pub fn reinstall_member(manifest: &Manifest, name: &str, plan: &ReinstallPlan) -> (r: MemberWork)
    ensures
        rebuild_ordered(*manifest, name@, *plan, r),
{
    match manifest.get(name) {
        Some(e) => if same(e.version.as_str(), plan.version.as_str()) && e.pinned == plan.pinned
            && e.locked == plan.locked {
            return MemberWork::Build(tui_reinstall_one(name, plan));
        },
        None => {},
    }
    MemberWork::Skip(
        MemberOutcome::Skipped("state changed since the reinstall was confirmed".to_owned()),
    )
}

/// A rebuild sweep orders each entry as it stands: the version, the `--locked`
/// and the pin that the manifest holds, whatever the plan said.
pub proof fn law_a_rebuild_returns_the_entry_it_found(
    manifest: Manifest,
    name: Seq<char>,
    plan: ReinstallPlan,
    order: Order,
)
    requires
        rebuild_ordered(manifest, name, plan, MemberWork::Build(order)),
    ensures
        order.name@ == name,
        manifest.entry(name) matches Some(e) && order.version matches Some(v) && v@ == e.version@
            && order.locked == e.locked && order.pins == PinPolicy::Exactly(e.pinned),
{
}

/// An update sweep orders nothing for a pinned entry, and where it orders
/// something, the order sets no pin and keeps the entry's `--locked`.
pub proof fn law_an_update_sweep_honours_pins(
    manifest: Manifest,
    planned: PlannedUpdate,
    r: MemberWork,
)
    requires
        update_ordered(manifest, planned, r),
    ensures
        manifest.entry(planned.name@) matches Some(e) ==> (e.pinned ==> r is Skip),
        r matches MemberWork::Build(order) ==> order.version is None && order.pins
            == PinPolicy::Infer && (manifest.entry(planned.name@) matches Some(e) && order.locked
            == e.locked),
{
}

/// A privileged step was reached and could not be authorized: what was being
/// authorized, and why it was not.
#[derive(Debug, PartialEq, Eq)]
pub struct AuthorizationRefused {
    pub purpose: AuthPurpose,
    pub reason: String,
}

impl AuthorizationRefused {
    /// The sentence for this refusal.
    pub open spec fn text(self) -> Seq<char> {
        (match self.purpose {
            AuthPurpose::Placement => "placement"@,
            AuthPurpose::Retirement => "retiring the source installation"@,
            AuthPurpose::Mutation => "changing what is installed"@,
        }) + " could not be authorized: "@ + self.reason@
    }

    /// The sentence for this refusal.
    pub fn sentence(&self) -> (r: String)
        ensures
            r@ == self.text(),
    {
        let what = match self.purpose {
            AuthPurpose::Placement => "placement",
            AuthPurpose::Retirement => "retiring the source installation",
            AuthPurpose::Mutation => "changing what is installed",
        };
        cat3(what, " could not be authorized: ", self.reason.as_str())
    }
}

/// Why a pipeline stopped, classified where the error is still typed.
#[derive(Debug, PartialEq, Eq)]
pub enum WorkError {
    /// The person's own decision.
    Cancelled,
    /// A privileged step that was not authorized.
    Refused(AuthorizationRefused),
    /// Anything else, as the chain of its causes.
    Other(String),
}

/// How a member ended, from its pipeline's result: a cancel and a refusal at
/// this member's placement door are not build failures; anything else is.
pub fn member_outcome(result: Result<(), WorkError>) -> (r: MemberOutcome)
    ensures
        match result {
            Ok(()) => r is Installed,
            Err(WorkError::Cancelled) => r is Cancelled,
            Err(WorkError::Refused(refused)) => if refused.purpose == AuthPurpose::Placement {
                r == MemberOutcome::Refused(refused.reason)
            } else {
                r matches MemberOutcome::Failed(e) && e@ == refused.text()
            },
            Err(WorkError::Other(e)) => r == MemberOutcome::Failed(e),
        },
{
    match result {
        Ok(()) => MemberOutcome::Installed,
        Err(WorkError::Cancelled) => MemberOutcome::Cancelled,
        Err(WorkError::Refused(refused)) => if refused.purpose == AuthPurpose::Placement {
            MemberOutcome::Refused(refused.reason)
        } else {
            MemberOutcome::Failed(refused.sentence())
        },
        Err(WorkError::Other(e)) => MemberOutcome::Failed(e),
    }
}

/// How a batch itself ended: separate from any member's outcome. A plan that
/// ran to its last member completed, even if a cancel arrived too late to stop
/// that member.
#[derive(Clone, Copy, PartialEq, Eq, Debug, Structural)]
pub enum InstallBatchEnd {
    Completed,
    Cancelled,
}

/// The worker's place in a batch: which member is next, and whether the batch
/// was cancelled. One policy for the typed list and for both sweeps: a member
/// that does not install is reported and the loop carries on; only a cancel
/// ends it early.
pub struct BatchLoop {
    pub total: usize,
    pub at: usize,
    pub cancelled: bool,
}

/// What the loop learned about the member it stands at.
pub enum LoopEvent {
    /// The control did not let the member begin: the batch was already
    /// cancelled with members still to go.
    NotBegun,
    /// The member ended; `true` for a cancelled one.
    Ended(bool),
}

/// The loop after an event.
pub open spec fn loop_after(l: BatchLoop, event: LoopEvent) -> BatchLoop {
    match event {
        LoopEvent::NotBegun => BatchLoop { cancelled: true, ..l },
        LoopEvent::Ended(cancelled) => BatchLoop {
            at: (l.at + 1) as usize,
            cancelled: l.cancelled || cancelled,
            ..l
        },
    }
}

/// The loop after these events, in order.
pub open spec fn loop_after_all(l: BatchLoop, events: Seq<LoopEvent>) -> BatchLoop
    decreases events.len(),
{
    if events.len() == 0 {
        l
    } else {
        loop_after(loop_after_all(l, events.drop_last()), events.last())
    }
}

impl BatchLoop {
    /// Whether a member is left to be tried.
    pub open spec fn goes_on(self) -> bool {
        !self.cancelled && self.at < self.total
    }

    /// The end that the loop has come to.
    pub open spec fn verdict(self) -> InstallBatchEnd {
        if self.cancelled {
            InstallBatchEnd::Cancelled
        } else {
            InstallBatchEnd::Completed
        }
    }

    /// Before the first member.
    pub fn new(total: usize) -> (r: BatchLoop)
        ensures
            r == (BatchLoop { total, at: 0, cancelled: false }),
    {
        BatchLoop { total, at: 0, cancelled: false }
    }

    /// The member to try next, or `None` once the batch is over.
    pub fn next(&self) -> (r: Option<usize>)
        ensures
            r == if self.goes_on() {
                Some(self.at)
            } else {
                None
            },
    {
        if !self.cancelled && self.at < self.total {
            Some(self.at)
        } else {
            None
        }
    }

    /// The control did not let the member begin.
    pub fn not_begun(&mut self)
        ensures
            *final(self) == loop_after(*old(self), LoopEvent::NotBegun),
    {
        self.cancelled = true;
    }

    /// The member ended, in whatever way.
    pub fn ended(&mut self, outcome: &MemberOutcome)
        requires
            old(self).goes_on(),
        ensures
            *final(self) == loop_after(*old(self), LoopEvent::Ended(*outcome is Cancelled)),
    {
        self.at = self.at + 1;
        if matches!(outcome, MemberOutcome::Cancelled) {
            self.cancelled = true;
        }
    }

    /// How the batch ended, once no member is left to be tried.
    pub fn end(&self) -> (r: InstallBatchEnd)
        ensures
            r == self.verdict(),
    {
        if self.cancelled {
            InstallBatchEnd::Cancelled
        } else {
            InstallBatchEnd::Completed
        }
    }
}

/// A batch that carries past every failure completes: where each of the members
/// ended in some way other than a cancel, all of them were tried and the batch
/// is completed.
pub proof fn law_only_a_cancel_stops_a_batch(l: BatchLoop, events: Seq<LoopEvent>)
    requires
        l.at == 0,
        !l.cancelled,
        events.len() <= l.total,
        forall|i: int| 0 <= i < events.len() ==> (#[trigger] events[i]) == LoopEvent::Ended(false),
    ensures
        loop_after_all(l, events).at == events.len(),
        loop_after_all(l, events).goes_on() <==> events.len() < l.total,
        loop_after_all(l, events).verdict() == InstallBatchEnd::Completed,
    decreases events.len(),
{
    if events.len() > 0 {
        let front = events.drop_last();
        assert forall|i: int| 0 <= i < front.len() implies (#[trigger] front[i])
            == LoopEvent::Ended(false) by {
            assert(events[i] == LoopEvent::Ended(false));
        }
        law_only_a_cancel_stops_a_batch(l, front);
        assert(events.last() == LoopEvent::Ended(false));
    }
    lemma_loop_total(l, events);
}

proof fn lemma_loop_total(l: BatchLoop, events: Seq<LoopEvent>)
    ensures
        loop_after_all(l, events).total == l.total,
    decreases events.len(),
{
    if events.len() > 0 {
        lemma_loop_total(l, events.drop_last());
    }
}

/// Once a batch is cancelled nothing more is tried, whatever happens after.
pub proof fn law_a_cancelled_batch_stays_cancelled(l: BatchLoop, events: Seq<LoopEvent>)
    requires
        l.cancelled,
    ensures
        !loop_after_all(l, events).goes_on(),
        loop_after_all(l, events).verdict() == InstallBatchEnd::Cancelled,
    decreases events.len(),
{
    if events.len() > 0 {
        law_a_cancelled_batch_stays_cancelled(l, events.drop_last());
    }
}

/// What a cancel reached in a batch: a member, with that member's answer, or
/// the gap between two.
#[derive(Clone, Copy, PartialEq, Eq, Debug, Structural)]
pub enum BatchCancel {
    Member(CancelOutcome),
    BetweenMembers,
}

/// Cancellation for a batch of builds: the batch's own intention to stop, and a
/// handle to whichever member is building now.
pub struct BatchControl<C> {
    pub stopping: bool,
    pub current: Option<C>,
}

/// What happens to a batch's control.
pub enum ControlEvent {
    Begin,
    Finish,
    Cancel,
}

/// Whether the batch is stopping after an event.
pub open spec fn stopping_after(stopping: bool, event: ControlEvent) -> bool {
    stopping || event is Cancel
}

/// Whether the batch is stopping after these events, in order.
pub open spec fn stopping_after_all(stopping: bool, events: Seq<ControlEvent>) -> bool
    decreases events.len(),
{
    if events.len() == 0 {
        stopping
    } else {
        stopping_after(stopping_after_all(stopping, events.drop_last()), events.last())
    }
}

impl<C> BatchControl<C> {
    /// Not stopping, nobody building.
    pub fn new() -> (r: BatchControl<C>)
        ensures
            !r.stopping,
            r.current is None,
    {
        BatchControl { stopping: false, current: None }
    }

    /// May the next member start, and if so, publish its control, as one step.
    ///
    /// Two steps would race: the worker could read "not stopping", a cancel
    /// could arrive and reach a member that has already finished, and the worker
    /// could then publish the next one and build it.
    pub fn try_begin_member(&mut self, control: C) -> (r: bool)
        ensures
            r == !old(self).stopping,
            final(self).stopping == stopping_after(old(self).stopping, ControlEvent::Begin),
            final(self).current == if old(self).stopping {
                old(self).current
            } else {
                Some(control)
            },
    {
        if self.stopping {
            return false;
        }
        self.current = Some(control);
        true
    }

    /// That member is done. The slot is cleared, so a cancel arriving between
    /// members answers for the batch rather than for a build that has already
    /// ended.
    pub fn finish_member(&mut self)
        ensures
            final(self).stopping == stopping_after(old(self).stopping, ControlEvent::Finish),
            final(self).current is None,
    {
        self.current = None;
    }

    /// Has the batch been told to stop?
    pub fn cancelled(&self) -> (r: bool)
        ensures
            r == self.stopping,
    {
        self.stopping
    }

    /// The member building now, if there is one.
    pub fn with_current(&self) -> (r: Option<&C>)
        ensures
            match r {
                Some(c) => self.current == Some(*c),
                None => self.current is None,
            },
    {
        self.current.as_ref()
    }

    /// Record the batch-level stop intent, and name the member in flight, which
    /// is to be asked to stop too. The intent is always recorded; what the
    /// member says is its own.
    pub fn request_cancel(&mut self) -> (r: Option<&C>)
        ensures
            final(self).stopping == stopping_after(old(self).stopping, ControlEvent::Cancel),
            final(self).current == old(self).current,
            match r {
                Some(c) => old(self).current == Some(*c),
                None => old(self).current is None,
            },
    {
        self.stopping = true;
        self.current.as_ref()
    }
}

/// What a cancel reached, from the answer of the member in flight if there was
/// one.
pub fn batch_cancel(member: Option<CancelOutcome>) -> (r: BatchCancel)
    ensures
        r == match member {
            Some(answer) => BatchCancel::Member(answer),
            None => BatchCancel::BetweenMembers,
        },
{
    match member {
        Some(answer) => BatchCancel::Member(answer),
        None => BatchCancel::BetweenMembers,
    }
}

/// Stopped means stopped: once a cancel was recorded, no later event lets a
/// member begin.
pub proof fn law_stopped_means_stopped(stopping: bool, before: Seq<ControlEvent>, after: Seq<ControlEvent>)
    requires
        before.len() > 0,
        before.last() is Cancel,
    ensures
        stopping_after_all(stopping, before + after),
    decreases after.len(),
{
    if after.len() == 0 {
        assert(before + after =~= before);
    } else {
        law_stopped_means_stopped(stopping, before, after.drop_last());
        assert((before + after).drop_last() =~= before + after.drop_last());
        assert((before + after).last() == after.last());
    }
}

/// A removal from a manifest that lists each crate once leaves no entry under
/// that name, leaves every other entry, and still lists each crate once.
pub proof fn law_removed_is_gone(
    before: Manifest,
    name: Seq<char>,
    after: Manifest,
    r: Result<TuiRemove, String>,
    other: Seq<char>,
)
    requires
        before.names_once(),
        removed_one(before, name, after, r),
        other != name,
    ensures
        after.names_once(),
        after.entry(name) is None,
        after.entry(other) == before.entry(other),
{
    let names = names_of(before.crates@);
    let left = names_of(after.crates@);
    lemma_first_named(names, name);
    lemma_first_named(names, other);
    lemma_first_named(left, name);
    lemma_first_named(left, other);
    if before.entry(name) is Some {
        let at = first_named(names, name)->0;
        assert(left =~= names.remove(at));
        if first_named(left, name) is Some {
            let i = first_named(left, name)->0;
            if i < at {
                assert(names[i] != names[at]);
            } else {
                assert(names[at] != names[i + 1]);
            }
        }
        if first_named(names, other) is Some {
            let i = first_named(names, other)->0;
            let k = if i < at {
                i
            } else {
                i - 1
            };
            assert(left[k] == other);
            let f = first_named(left, other)->0;
            let g = if f < at {
                f
            } else {
                f + 1
            };
            assert(names[g] == other);
            if g != i {
                if g < i {
                    assert(names[g] != names[i]);
                } else {
                    assert(names[i] != names[g]);
                }
            }
        } else if first_named(left, other) is Some {
            let f = first_named(left, other)->0;
            let g = if f < at {
                f
            } else {
                f + 1
            };
            assert(names[g] == other);
        }
    }
}

/// A pin or an unpin of a listed crate leaves it with that pin, and leaves
/// everything else: its other facts, every other entry, and the list itself. It
/// is answered as changed exactly where the pin was the other one, and a name
/// that is not listed is refused with nothing changed.
pub proof fn law_a_pin_is_set_and_nothing_else(
    manifest: &mut Manifest,
    name: &str,
    pinned: bool,
    r: Result<TuiSetPinned, String>,
    i: int,
)
    requires
        call_ensures(tui_set_pinned, (manifest, name, pinned), r),
        0 <= i < old(manifest).crates.len(),
    ensures
        ({
            let before = old(manifest).crates@;
            let after = final(manifest).crates@;
            &&& after.len() == before.len()
            &&& after[i].0@ == before[i].0@
            &&& after[i].1.version == before[i].1.version
            &&& after[i].1.bins == before[i].1.bins
            &&& after[i].1.locked == before[i].1.locked
            &&& after[i].1.built_with_rustc == before[i].1.built_with_rustc
            &&& before[i].0@ != name@ ==> after[i] == before[i]
            &&& before[i].0@ == name@ && old(manifest).names_once() ==> {
                &&& after[i].1.pinned == pinned
                &&& r is Ok
                &&& r->Ok_0 is Already <==> before[i].1.pinned == pinned
                &&& r->Ok_0 is Changed <==> before[i].1.pinned != pinned
                &&& r->Ok_0 is Changed ==> r->Ok_0->version@ == before[i].1.version@
            }
            &&& r is Err ==> after == before && before[i].0@ != name@
        }),
{
    let names = names_of(old(manifest).crates@);
    lemma_first_named(names, name@);
    assert(names[i] == old(manifest).crates@[i].0@);
    if first_named(names, name@) is Some {
        let at = first_named(names, name@)->0;
        if old(manifest).names_once() && names[i] == name@ {
            assert(names[i] == names[at]);
            assert(i == at);
        }
    }
}

/// A removal hands back the binaries of the entry that it takes out, and refuses
/// exactly the names that are not listed.
pub proof fn law_a_removal_names_its_binaries(
    manifest: &mut Manifest,
    name: &str,
    r: Result<TuiRemove, String>,
)
    requires
        call_ensures(tui_remove_one, (manifest, name), r),
    ensures
        r is Err <==> forall|i: int|
            0 <= i < old(manifest).crates.len() ==> (#[trigger] old(manifest).crates@[i]).0@
                != name@,
        r is Err ==> *final(manifest) == *old(manifest),
        r matches Ok(removed) ==> removed is Removed && final(manifest).crates.len() + 1 == old(
            manifest,
        ).crates.len() && exists|i: int|
            0 <= i < old(manifest).crates.len() && (#[trigger] old(manifest).crates@[i]).0@ == name@
                && removed->Removed_0 == old(manifest).crates@[i].1.bins
                && final(manifest).crates@ == old(manifest).crates@.remove(i),
{
    let names = names_of(old(manifest).crates@);
    lemma_first_named(names, name@);
    assert forall|i: int| 0 <= i < old(manifest).crates.len() implies names[i] == (
    #[trigger] old(manifest).crates@[i]).0@ by {}
    if r is Ok {
        let at = first_named(names, name@)->0;
        assert(old(manifest).crates@[at].0@ == name@);
    }
}

/// An install orders exactly what was typed: that name, that version or none,
/// that `--locked`, and a pin only where a version was named.
pub proof fn law_an_install_orders_what_was_typed(
    spec: InstallSpec,
    locked: bool,
    pins: Result<(), String>,
    unchanged: Result<(), String>,
    r: Result<Order, String>,
)
    requires
        call_ensures(tui_install_one, (spec, locked, pins, unchanged), r),
    ensures
        r is Ok <==> unchanged is Ok && (spec.version is Some || pins is Ok),
        r matches Ok(order) ==> {
            &&& order.name@ == spec.name@
            &&& order.version == spec.version
            &&& order.locked == locked
            &&& order.pins == PinPolicy::Infer
        },
        r matches Err(e) ==> pins == Err::<(), String>(e) || unchanged == Err::<(), String>(e),
        spec.version is None && pins is Err ==> r == Err::<Order, String>(pins->Err_0),
{
}

/// The pin refusal is asked about exactly the names without a version.
pub proof fn law_the_pin_gate_sees_bare_names(specs: Vec<InstallSpec>, r: Vec<String>, name: Seq<char>)
    requires
        call_ensures(pin_gated, (&specs,), r),
    ensures
        texts(r@).contains(name) <==> exists|i: int|
            0 <= i < specs.len() && (#[trigger] specs@[i]).version is None && specs@[i].name@
                == name,
        r.len() <= specs.len(),
{
    lemma_bare_names(specs@, name);
}

proof fn lemma_bare_names(specs: Seq<InstallSpec>, name: Seq<char>)
    ensures
        bare_names(specs).contains(name) <==> exists|i: int|
            0 <= i < specs.len() && (#[trigger] specs[i]).version is None && specs[i].name@ == name,
        bare_names(specs).len() <= specs.len(),
    decreases specs.len(),
{
    if specs.len() > 0 {
        let front = specs.drop_last();
        let before = bare_names(front);
        lemma_bare_names(front, name);
        let all = bare_names(specs);
        if exists|i: int|
            0 <= i < specs.len() && (#[trigger] specs[i]).version is None && specs[i].name@ == name {
            let i = choose|i: int|
                0 <= i < specs.len() && (#[trigger] specs[i]).version is None && specs[i].name@
                    == name;
            if i < front.len() {
                assert(front[i].version is None);
                let k = choose|k: int| 0 <= k < before.len() && before[k] == name;
                assert(all[k] == name);
            } else {
                assert(all.last() == name);
            }
        }
        if all.contains(name) {
            let k = choose|k: int| 0 <= k < all.len() && all[k] == name;
            if k < before.len() {
                assert(before[k] == name);
                let i = choose|i: int|
                    0 <= i < front.len() && (#[trigger] front[i]).version is None && front[i].name@
                        == name;
                assert(specs[i].version is None);
            } else {
                assert(specs[specs.len() - 1].version is None);
            }
        }
    }
}

/// The names that the pin refusal is asked about keep the order typed: those of
/// two lists in a row are those of the first, then those of the second.
pub proof fn law_bare_names_keep_their_order(a: Seq<InstallSpec>, b: Seq<InstallSpec>)
    ensures
        bare_names(a + b) == bare_names(a) + bare_names(b),
    decreases b.len(),
{
    if b.len() == 0 {
        assert(a + b =~= a);
        assert(bare_names(a) + bare_names(b) =~= bare_names(a));
    } else {
        assert((a + b).drop_last() =~= a + b.drop_last());
        law_bare_names_keep_their_order(a, b.drop_last());
        assert(bare_names(a + b) =~= bare_names(a) + bare_names(b));
    }
}

proof fn lemma_first_refusal<T>(answers: Seq<Result<T, String>>)
    ensures
        match first_refusal(answers) {
            None => forall|i: int| 0 <= i < answers.len() ==> (#[trigger] answers[i]) is Ok,
            Some(e) => exists|i: int|
                0 <= i < answers.len() && (#[trigger] answers[i]) == Err::<T, String>(e)
                    && forall|j: int| 0 <= j < i ==> (#[trigger] answers[j]) is Ok,
        },
    decreases answers.len(),
{
    if answers.len() > 0 {
        if answers[0] is Ok {
            let rest = answers.drop_first();
            lemma_first_refusal(rest);
            assert forall|j: int| 0 <= j < answers.len() implies (#[trigger] answers[j]) == if j == 0 {
                answers[0]
            } else {
                rest[j - 1]
            } by {}
            if first_refusal(rest) is Some {
                let e = first_refusal(rest)->0;
                let i = choose|i: int|
                    0 <= i < rest.len() && (#[trigger] rest[i]) == Err::<T, String>(e) && forall|
                        j: int,
                    |
                        0 <= j < i ==> (#[trigger] rest[j]) is Ok;
                assert(answers[i + 1] == Err::<T, String>(e));
                assert forall|j: int| 0 <= j < i + 1 implies (#[trigger] answers[j]) is Ok by {
                    if j > 0 {
                        assert(rest[j - 1] is Ok);
                    }
                }
            }
        } else {
            assert(answers[0] == Err::<T, String>(answers[0]->Err_0));
        }
    }
}

/// The whole plan is checked before the first build. One refusal refuses all of
/// it, the first one met is the one told, and where there is none each member is
/// ordered as it was typed, in the order typed.
pub proof fn law_a_plan_is_ordered_whole_or_not_at_all(
    specs: Vec<InstallSpec>,
    locked: bool,
    pins: Result<(), String>,
    unchanged: Vec<Result<(), String>>,
    r: Result<Vec<Order>, String>,
)
    requires
        call_ensures(tui_install_batch, (&specs, locked, pins, &unchanged), r),
    ensures
        r is Ok <==> pins is Ok && forall|i: int|
            0 <= i < unchanged.len() ==> (#[trigger] unchanged@[i]) is Ok,
        pins is Err ==> r is Err && r->Err_0 == pins->Err_0,
        pins is Ok && r is Err ==> exists|i: int|
            0 <= i < unchanged.len() && (#[trigger] unchanged@[i]) == Err::<(), String>(r->Err_0)
                && forall|j: int| 0 <= j < i ==> (#[trigger] unchanged@[j]) is Ok,
        r matches Ok(orders) ==> orders.len() == specs.len() && forall|i: int|
            0 <= i < specs.len() ==> (#[trigger] orders@[i]).name@ == specs@[i].name@
                && orders@[i].version == specs@[i].version && orders@[i].locked == locked
                && orders@[i].pins == PinPolicy::Infer,
{
    lemma_first_refusal(unchanged@);
}

/// A rebuild of everything plans every listed entry, each once, in the order of
/// the list and with the facts frozen for it; one entry that cannot be frozen
/// leaves no plan.
pub proof fn law_a_rebuild_plans_the_whole_prefix(
    manifest: Manifest,
    frozen: Vec<Result<ReinstallPlan, String>>,
    r: Result<Vec<(String, ReinstallPlan)>, String>,
)
    requires
        frozen.len() == manifest.crates.len(),
        call_ensures(tui_reinstall_plan, (&manifest, &frozen), r),
    ensures
        r is Ok <==> forall|i: int| 0 <= i < frozen.len() ==> (#[trigger] frozen@[i]) is Ok,
        r matches Ok(planned) ==> planned.len() == manifest.crates.len() && forall|i: int|
            0 <= i < planned.len() ==> (#[trigger] planned@[i]).0@ == manifest.crates@[i].0@
                && frozen@[i] == Ok::<ReinstallPlan, String>(planned@[i].1),
        r matches Err(e) ==> exists|i: int|
            0 <= i < frozen.len() && (#[trigger] frozen@[i]) == Err::<ReinstallPlan, String>(e)
                && forall|j: int| 0 <= j < i ==> (#[trigger] frozen@[j]) is Ok,
{
    lemma_first_refusal(frozen@);
    if r is Ok {
        let planned = r->Ok_0;
        assert(names_of(planned@).len() == planned.len());
        assert forall|i: int| 0 <= i < planned.len() implies (#[trigger] planned@[i]).0@
            == manifest.crates@[i].0@ by {
            assert(names_of(planned@)[i] == names_of(manifest.crates@)[i]);
        }
    }
}

/// A rebuild orders what was frozen: that version exactly, that `--locked`, and
/// that pin whatever the version would infer.
pub proof fn law_a_rebuild_orders_what_was_frozen(name: &str, plan: ReinstallPlan, r: Order)
    requires
        call_ensures(tui_reinstall_one, (name, &plan), r),
    ensures
        r.name@ == name@,
        r.version is Some && r.version->0@ == plan.version@,
        r.locked == plan.locked,
        r.pins_entry() == plan.pinned,
        r.pins != PinPolicy::Infer,
{
}

/// An update sweep updates every member that is still what was confirmed, and no
/// other: the entry is there, at the version read and unpinned. Nothing else of
/// the entry decides. What is built is the newest release, with the entry's own
/// `--locked` and no pin.
pub proof fn law_an_update_sweep_skips_only_what_moved(
    manifest: Manifest,
    planned: PlannedUpdate,
    r: MemberWork,
    i: int,
)
    requires
        call_ensures(update_member, (&manifest, &planned), r),
        manifest.names_once(),
        0 <= i < manifest.crates.len(),
        manifest.crates@[i].0@ == planned.name@,
    ensures
        ({
            let entry = manifest.crates@[i].1;
            &&& r is Build <==> entry.version@ == planned.current@ && !entry.pinned
            &&& r is Build ==> {
                let order = r->Build_0;
                order.name@ == planned.name@ && order.version is None && order.locked
                    == entry.locked && !order.pins_entry()
            }
            &&& r is Skip ==> r->Skip_0 is Skipped
        }),
{
    lemma_listed(manifest, i);
}

/// A sweep skips a member that is no longer listed.
pub proof fn law_sweeps_skip_what_is_gone(
    manifest: Manifest,
    planned: PlannedUpdate,
    updated: MemberWork,
    name: &str,
    plan: ReinstallPlan,
    rebuilt: MemberWork,
)
    requires
        call_ensures(update_member, (&manifest, &planned), updated),
        call_ensures(reinstall_member, (&manifest, name, &plan), rebuilt),
    ensures
        (forall|i: int|
            0 <= i < manifest.crates.len() ==> (#[trigger] manifest.crates@[i]).0@ != planned.name@)
            ==> updated is Skip && updated->Skip_0 is Skipped,
        (forall|i: int|
            0 <= i < manifest.crates.len() ==> (#[trigger] manifest.crates@[i]).0@ != name@)
            ==> rebuilt is Skip && rebuilt->Skip_0 is Skipped,
{
    lemma_unlisted(manifest, planned.name@);
    lemma_unlisted(manifest, name@);
}

proof fn lemma_listed(manifest: Manifest, i: int)
    requires
        manifest.names_once(),
        0 <= i < manifest.crates.len(),
    ensures
        manifest.entry(manifest.crates@[i].0@) == Some(manifest.crates@[i].1),
{
    let names = names_of(manifest.crates@);
    lemma_first_named(names, names[i]);
    let at = first_named(names, names[i])->0;
    assert(names[at] == names[i]);
    assert(at == i);
}

proof fn lemma_unlisted(manifest: Manifest, name: Seq<char>)
    ensures
        (forall|i: int|
            0 <= i < manifest.crates.len() ==> (#[trigger] manifest.crates@[i]).0@ != name)
            <==> manifest.entry(name) is None,
{
    let names = names_of(manifest.crates@);
    lemma_first_named(names, name);
    assert forall|i: int| 0 <= i < manifest.crates.len() implies names[i] == (
    #[trigger] manifest.crates@[i]).0@ by {}
}

/// A rebuild sweep rebuilds every member that is still what was confirmed, in its
/// version, its pin and its `--locked`, and no other; what it orders is what was
/// confirmed.
pub proof fn law_a_rebuild_sweep_skips_only_what_moved(
    manifest: Manifest,
    plan: ReinstallPlan,
    name: &str,
    r: MemberWork,
    i: int,
)
    requires
        call_ensures(reinstall_member, (&manifest, name, &plan), r),
        manifest.names_once(),
        0 <= i < manifest.crates.len(),
        manifest.crates@[i].0@ == name@,
    ensures
        ({
            let entry = manifest.crates@[i].1;
            &&& r is Build <==> entry.version@ == plan.version@ && entry.pinned == plan.pinned
                && entry.locked == plan.locked
            &&& r is Build ==> {
                let order = r->Build_0;
                order.name@ == name@ && order.version is Some && order.version->0@
                    == entry.version@ && order.locked == entry.locked && order.pins_entry()
                    == entry.pinned
            }
            &&& r is Skip ==> r->Skip_0 is Skipped
        }),
{
    lemma_listed(manifest, i);
}

/// A downgrade builds the chosen version where the entry is still the one that
/// the choice was made about, at the version it had and unpinned, and refuses
/// anything else. What it builds keeps the entry's `--locked` and comes back
/// pinned.
pub proof fn law_a_downgrade_builds_the_chosen_version(
    manifest: Manifest,
    name: &str,
    expected: &str,
    version: Version,
    r: Result<Order, String>,
    i: int,
)
    requires
        call_ensures(tui_downgrade_one, (&manifest, name, expected, version), r),
        manifest.names_once(),
        0 <= i < manifest.crates.len(),
        manifest.crates@[i].0@ == name@,
    ensures
        ({
            let entry = manifest.crates@[i].1;
            &&& r is Ok <==> entry.version@ == expected@ && !entry.pinned
            &&& r is Ok ==> {
                let order = r->Ok_0;
                order.name@ == name@ && order.version == Some(version) && order.locked
                    == entry.locked && order.pins_entry()
            }
        }),
{
    lemma_listed(manifest, i);
}

/// An update builds the newest release where nothing refuses it and the entry is
/// still at the version that the plan showed. What it builds keeps the entry's
/// `--locked` and sets no pin.
pub proof fn law_an_update_builds_the_newest_release(
    manifest: Manifest,
    pins: Result<(), String>,
    name: &str,
    expected: &str,
    r: Result<Order, String>,
    i: int,
)
    requires
        call_ensures(tui_update_one, (&manifest, pins, name, expected), r),
        manifest.names_once(),
        0 <= i < manifest.crates.len(),
        manifest.crates@[i].0@ == name@,
    ensures
        ({
            let entry = manifest.crates@[i].1;
            &&& r is Ok <==> pins is Ok && entry.version@ == expected@
            &&& r is Ok ==> {
                let order = r->Ok_0;
                order.name@ == name@ && order.version is None && order.locked == entry.locked
                    && !order.pins_entry()
            }
            &&& pins is Err ==> r is Err && r->Err_0 == pins->Err_0
        }),
{
    lemma_listed(manifest, i);
}

/// Nothing is built for a crate that is not listed: a downgrade, an update and
/// the lookup behind one all refuse it.
pub proof fn law_what_is_not_listed_is_not_built(
    manifest: Manifest,
    pins: Result<(), String>,
    name: &str,
    expected: &str,
    version: Version,
    downgraded: Result<Order, String>,
    updated: Result<Order, String>,
    looked_up: Result<String, String>,
)
    requires
        forall|i: int|
            0 <= i < manifest.crates.len() ==> (#[trigger] manifest.crates@[i]).0@ != name@,
        call_ensures(tui_downgrade_one, (&manifest, name, expected, version), downgraded),
        call_ensures(tui_update_one, (&manifest, pins, name, expected), updated),
        call_ensures(tui_update_premise, (&manifest, name, pins), looked_up),
    ensures
        downgraded is Err,
        updated is Err,
        looked_up is Err,
{
    lemma_unlisted(manifest, name@);
}

/// The lookup behind an update is about the version that the manifest holds, and
/// happens exactly where no pin refuses it. It plans an update exactly where the
/// registry's version is the greater one by semantic versioning, to that version.
pub proof fn law_an_update_is_planned_from_the_manifest(
    manifest: Manifest,
    pins: Result<(), String>,
    name: &str,
    i: int,
    premise: Result<String, String>,
    checked: Option<Checked>,
    plan: Result<UpdatePlan, String>,
)
    requires
        manifest.names_once(),
        0 <= i < manifest.crates.len(),
        manifest.crates@[i].0@ == name@,
        call_ensures(tui_update_premise, (&manifest, name, pins), premise),
        premise is Ok ==> call_ensures(tui_update_plan, (name, premise->Ok_0, checked), plan),
    ensures
        premise is Ok <==> pins is Ok,
        premise is Ok ==> premise->Ok_0@ == manifest.crates@[i].1.version@,
        premise is Err ==> premise->Err_0 == pins->Err_0,
        premise is Ok && checked is None ==> plan is Err,
        premise is Ok && checked is Some ==> {
            let newer = semver_greater(checked->0.latest@, checked->0.current@);
            &&& plan is Ok
            &&& plan->Ok_0 is Outdated <==> newer
            &&& plan->Ok_0 is UpToDate <==> !newer
            &&& newer ==> plan->Ok_0->latest@ == checked->0.latest@ && plan->Ok_0->Outdated_current@
                == manifest.crates@[i].1.version@
            &&& !newer ==> plan->Ok_0->UpToDate_current@ == manifest.crates@[i].1.version@
        },
{
    lemma_listed(manifest, i);
}

/// A member is installed exactly where its pipeline succeeded, cancelled exactly
/// where the person cancelled it, and refused exactly at its own placement door,
/// with the reason given there. Everything else is a failure, which says why.
pub proof fn law_outcomes_are_not_confused(result: Result<(), WorkError>, r: MemberOutcome)
    requires
        call_ensures(member_outcome, (result,), r),
    ensures
        r is Installed <==> result is Ok,
        r is Cancelled <==> result == Err::<(), WorkError>(WorkError::Cancelled),
        r is Refused <==> result is Err && (result->Err_0 matches WorkError::Refused(refused)
            && refused.purpose == AuthPurpose::Placement),
        r is Refused ==> r->Refused_0 == result->Err_0->Refused_0.reason,
        !(r is Skipped),
        r is Failed && result->Err_0 is Other ==> r->Failed_0 == result->Err_0->Other_0,
        r is Failed && result->Err_0 is Refused ==> r->Failed_0@.len()
            >= result->Err_0->Refused_0.reason@.len() && r->Failed_0@.skip(
            r->Failed_0@.len() - result->Err_0->Refused_0.reason@.len(),
        ) == result->Err_0->Refused_0.reason@,
{
    if result is Err && result->Err_0 is Refused {
        let refused = result->Err_0->Refused_0;
        let text = refused.text();
        assert(text.skip(text.len() - refused.reason@.len()) =~= refused.reason@);
    }
}

/// A refusal says what was being authorized and why it was not.
pub proof fn law_a_refusal_says_what_and_why(refused: AuthorizationRefused, r: String)
    requires
        call_ensures(AuthorizationRefused::sentence, (&refused,), r),
    ensures
        refused.purpose == AuthPurpose::Placement ==> r@ == "placement"@
            + " could not be authorized: "@ + refused.reason@,
        refused.purpose == AuthPurpose::Retirement ==> r@ == "retiring the source installation"@
            + " could not be authorized: "@ + refused.reason@,
        refused.purpose == AuthPurpose::Mutation ==> r@ == "changing what is installed"@
            + " could not be authorized: "@ + refused.reason@,
{
}

/// A batch tries its members in order, one after another, and each of them once:
/// the first is the first, an ended member is followed by the next, and there is
/// none after the last or after a cancel.
pub proof fn law_a_batch_tries_each_member_once(
    total: usize,
    start: BatchLoop,
    first: Option<usize>,
    l: &mut BatchLoop,
    outcome: MemberOutcome,
    at: Option<usize>,
    then: Option<usize>,
    end: InstallBatchEnd,
)
    requires
        call_ensures(BatchLoop::new, (total,), start),
        call_ensures(BatchLoop::next, (&start,), first),
        call_ensures(BatchLoop::next, (old(l),), at),
        at is Some,
        call_ensures(BatchLoop::ended, (l, &outcome), ()),
        call_ensures(BatchLoop::next, (&*final(l),), then),
        call_ensures(BatchLoop::end, (&*final(l),), end),
    ensures
        first == if total > 0 {
            Some(0usize)
        } else {
            None
        },
        at->0 < old(l).total,
        then is Some <==> !(outcome is Cancelled) && at->0 + 1 < old(l).total,
        then is Some ==> then->0 == at->0 + 1,
        end is Cancelled <==> outcome is Cancelled,
{
}

/// A member that was not let in ends the batch as a cancelled one.
pub proof fn law_a_closed_door_ends_a_batch(
    l: &mut BatchLoop,
    then: Option<usize>,
    end: InstallBatchEnd,
)
    requires
        call_ensures(BatchLoop::not_begun, (l,), ()),
        call_ensures(BatchLoop::next, (&*final(l),), then),
        call_ensures(BatchLoop::end, (&*final(l),), end),
    ensures
        then is None,
        end is Cancelled,
        final(l).at == old(l).at,
        final(l).total == old(l).total,
{
}

/// A cancel reaches the member that is building, and no member begins after it.
/// Without one, every member may begin, and is the one that a cancel would reach;
/// once it is finished, a cancel reaches nobody.
pub proof fn law_a_cancel_reaches_the_member_and_the_batch<C>(
    fresh: BatchControl<C>,
    begin: &mut BatchControl<C>,
    control: C,
    began: bool,
    finish: &mut BatchControl<C>,
    cancel: &mut BatchControl<C>,
    reached: Option<&C>,
    told: bool,
)
    requires
        call_ensures(BatchControl::<C>::new, (), fresh),
        call_ensures(BatchControl::<C>::try_begin_member, (begin, control), began),
        call_ensures(BatchControl::<C>::finish_member, (finish,), ()),
        call_ensures(BatchControl::<C>::request_cancel, (cancel,), reached),
        call_ensures(BatchControl::<C>::cancelled, (&*final(cancel),), told),
    ensures
        !fresh.stopping && fresh.current is None,
        began <==> !old(begin).stopping,
        final(begin).stopping == old(begin).stopping,
        began ==> final(begin).current == Some(control),
        !began ==> final(begin).current == old(begin).current,
        final(finish).current is None,
        final(finish).stopping == old(finish).stopping,
        final(cancel).stopping,
        told,
        final(cancel).current == old(cancel).current,
        reached is Some <==> old(cancel).current is Some,
        reached is Some ==> old(cancel).current == Some(*reached->0),
{
}

/// A batch without a cancel never stops.
pub proof fn law_only_a_cancel_closes_the_door(events: Seq<ControlEvent>)
    requires
        forall|i: int| 0 <= i < events.len() ==> !((#[trigger] events[i]) is Cancel),
    ensures
        !stopping_after_all(false, events),
    decreases events.len(),
{
    if events.len() > 0 {
        let front = events.drop_last();
        assert forall|i: int| 0 <= i < front.len() implies !((#[trigger] front[i]) is Cancel) by {
            assert(!(events[i] is Cancel));
        }
        law_only_a_cancel_closes_the_door(front);
        assert(!(events[events.len() - 1] is Cancel));
    }
}

/// The answer of the member in flight is the cancel's answer, and a cancel with
/// nobody in flight fell between two.
pub proof fn law_a_cancel_answers_for_whom_it_reached(member: Option<CancelOutcome>, r: BatchCancel)
    requires
        call_ensures(batch_cancel, (member,), r),
    ensures
        r is BetweenMembers <==> member is None,
        member matches Some(answer) ==> r == BatchCancel::Member(answer),
{
}

/// What is refused names the crate, and the versions where they differ: what the
/// entry is now, and what it was expected to be.
pub proof fn law_a_refused_operation_names_the_crate(
    manifest: Manifest,
    name: &str,
    expected: &str,
    version: Version,
    downgraded: Result<Order, String>,
    updated: Result<Order, String>,
    looked_up: Result<String, String>,
    planned: Result<UpdatePlan, String>,
    current: String,
)
    requires
        call_ensures(tui_downgrade_one, (&manifest, name, expected, version), downgraded),
        call_ensures(tui_update_one, (&manifest, Ok(()), name, expected), updated),
        call_ensures(tui_update_premise, (&manifest, name, Ok(())), looked_up),
        call_ensures(tui_update_plan, (name, current, None), planned),
    ensures
        match manifest.entry(name@) {
            None => downgraded is Err && downgraded->Err_0@ == "`"@ + name@
                + "` was removed while a version was being chosen; press D again"@ && updated is Err
                && updated->Err_0@ == "not installed: "@ + name@ && looked_up is Err
                && looked_up->Err_0@ == "not installed: "@ + name@,
            Some(entry) => {
                &&& entry.version@ != expected@ ==> downgraded is Err && downgraded->Err_0@ == "`"@
                    + name@ + "` changed from "@ + expected@ + " to "@ + entry.version@
                    + " while a version was being chosen; press D again"@
                &&& entry.version@ != expected@ ==> updated is Err && updated->Err_0@ == "`"@
                    + name@ + "` is "@ + entry.version@ + " now, not "@ + expected@
                    + "; the plan is out of date"@
                &&& entry.version@ == expected@ && entry.pinned ==> downgraded is Err
                    && downgraded->Err_0@ == "`"@ + name@
                    + "` was pinned while a version was being chosen; `p` unpins it first"@
            },
        },
        planned is Err && planned->Err_0@ == "no version information for `"@ + name@ + "`"@,
{
}

/// A pin or a removal of a name that is not listed is refused by that name.
pub proof fn law_an_unlisted_name_is_refused_by_name(
    one: &mut Manifest,
    other: &mut Manifest,
    name: &str,
    pinned: bool,
    p: Result<TuiSetPinned, String>,
    r: Result<TuiRemove, String>,
)
    requires
        call_ensures(tui_set_pinned, (one, name, pinned), p),
        call_ensures(tui_remove_one, (other, name), r),
    ensures
        p is Err ==> p->Err_0@ == "`"@ + name@
            + "` is not in the manifest (changed since the list was read?)"@,
        r is Err ==> r->Err_0@ == "`"@ + name@
            + "` is not in the manifest (changed since the list was read?)"@,
        !(p is Ok && p->Ok_0 is PrefixBusy),
{
}

/// What a sweep says of a member that it skips.
pub proof fn law_a_skipped_member_is_told_why(
    manifest: Manifest,
    planned: PlannedUpdate,
    updated: MemberWork,
    name: &str,
    plan: ReinstallPlan,
    rebuilt: MemberWork,
)
    requires
        call_ensures(update_member, (&manifest, &planned), updated),
        call_ensures(reinstall_member, (&manifest, name, &plan), rebuilt),
    ensures
        updated is Skip ==> updated->Skip_0 is Skipped && updated->Skip_0->Skipped_0@
            == "changed since the plan was confirmed"@,
        rebuilt is Skip ==> rebuilt->Skip_0 is Skipped && rebuilt->Skip_0->Skipped_0@
            == "state changed since the reinstall was confirmed"@,
{
}

} // verus!
