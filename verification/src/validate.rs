//! Input validation.
//!
//! Everything that steers privileged file operations passes through here:
//! command line arguments, the manifest, the stage's bookkeeping. The rest of
//! the crate may then trust two invariants: a crate name is a safe crates.io
//! identifier (and a safe path component), and a binary name is exactly one
//! plain filename, never a path.
use crate::text::{cat3, cat4, chars_of, string_of_range};
use crate::version::{is_semver, semver_error, Version};
use vstd::prelude::*;

verus! {

/// What `install` was asked for: a crate, optionally at one exact version
/// (`name@1.2.3`).
#[derive(Debug, PartialEq, Eq)]
pub struct InstallSpec {
    pub name: String,
    pub version: Option<Version>,
}

/// Why an input is refused.
#[derive(Debug, PartialEq, Eq)]
pub enum Invalid {
    /// Not a crates.io package name.
    Name { name: String },
    /// An `@` with nothing after it.
    EmptyVersion { spec: String },
    /// What stands after the `@` is no exact version, and why.
    Version { spec: String, cause: String },
    /// A crate that a list names a second time.
    GivenTwice { name: String },
    /// Not a single plain filename.
    BinName { name: String },
    /// A crate without any binary.
    NoBins,
    /// A binary that a list names a second time.
    ListedTwice { bin: String },
}

impl Invalid {
    /// The sentence for this refusal.
    pub open spec fn text(self) -> Seq<char> {
        match self {
            Invalid::Name { name } => "`"@ + name@ + "` is not a valid crates.io package name"@,
            Invalid::EmptyVersion { spec } => "`"@ + spec@ + "`: empty version after `@`"@,
            Invalid::Version { spec, cause } => "`"@ + spec@
                + "`: version must be an exact semver version such as 1.2.3: "@ + cause@,
            Invalid::GivenTwice { name } => "crate `"@ + name@ + "` is given more than once"@,
            Invalid::BinName { name } => "`"@ + name@ + "` is not a valid binary name"@,
            Invalid::NoBins => "crate provides no binaries"@,
            Invalid::ListedTwice { bin } => "binary `"@ + bin@ + "` is listed twice"@,
        }
    }

    /// The sentence for this refusal.
    pub fn chain(&self) -> (r: String)
        ensures
            r@ == self.text(),
    {
        match self {
            Invalid::Name { name } => cat3("`", name, "` is not a valid crates.io package name"),
            Invalid::EmptyVersion { spec } => cat3("`", spec, "`: empty version after `@`"),
            Invalid::Version { spec, cause } => cat4(
                "`",
                spec,
                "`: version must be an exact semver version such as 1.2.3: ",
                cause,
            ),
            Invalid::GivenTwice { name } => cat3("crate `", name, "` is given more than once"),
            Invalid::BinName { name } => cat3("`", name, "` is not a valid binary name"),
            Invalid::NoBins => "crate provides no binaries".to_owned(),
            Invalid::ListedTwice { bin } => cat3("binary `", bin, "` is listed twice"),
        }
    }
}

/// An ASCII letter.
pub open spec fn is_letter(c: char) -> bool {
    'a' <= c <= 'z' || 'A' <= c <= 'Z'
}

/// A character that a crates.io package name may hold.
pub open spec fn is_name_char(c: char) -> bool {
    is_letter(c) || '0' <= c <= '9' || c == '-' || c == '_'
}

/// A crates.io package name: 1 to 64 ASCII letters, digits, `-` and `_`, the
/// first of them a letter.
pub open spec fn valid_name(name: Seq<char>) -> bool {
    &&& 0 < name.len() <= 64
    &&& is_letter(name[0])
    &&& forall|i: int| 0 <= i < name.len() ==> is_name_char(#[trigger] name[i])
}

/// A name that is exactly one normal path component: not empty, no separator,
/// neither `.` nor `..`.
pub open spec fn valid_bin(name: Seq<char>) -> bool {
    &&& name.len() > 0
    &&& !name.contains('/')
    &&& name != seq!['.']
    &&& name != seq!['.', '.']
}

/// The position of the first `c`, or the length where there is none.
pub open spec fn first_of(text: Seq<char>, c: char) -> int
    decreases text.len(),
{
    if text.len() == 0 {
        0
    } else if text[0] == c {
        0
    } else {
        1 + first_of(text.drop_first(), c)
    }
}

/// The name in `NAME` or `NAME@VERSION`.
pub open spec fn spec_name(spec: Seq<char>) -> Seq<char> {
    spec.take(first_of(spec, '@'))
}

/// The version in `NAME@VERSION`; `None` without an `@`.
pub open spec fn spec_version(spec: Seq<char>) -> Option<Seq<char>> {
    if spec.contains('@') {
        Some(spec.skip(first_of(spec, '@') + 1))
    } else {
        None
    }
}

/// Whether a spec is one that [`InstallSpec::parse`] takes.
pub open spec fn valid_spec(spec: Seq<char>) -> bool {
    &&& valid_name(spec_name(spec))
    &&& match spec_version(spec) {
        None => true,
        Some(v) => is_semver(v),
    }
}

/// Whether `e` is the refusal that a spec gets: the name is looked at first.
pub open spec fn refuses_spec(spec: Seq<char>, e: Invalid) -> bool {
    let version = spec_version(spec);
    if !valid_name(spec_name(spec)) {
        e matches Invalid::Name { name } && name@ == spec_name(spec)
    } else {
        &&& version is Some
        &&& if version->0.len() == 0 {
            e matches Invalid::EmptyVersion { spec: s } && s@ == spec
        } else {
            e matches Invalid::Version { spec: s, cause } && s@ == spec && semver_error(version->0)
                == Some(cause@)
        }
    }
}

impl InstallSpec {
    /// Whether this is what a spec asks for.
    pub open spec fn reads(self, spec: Seq<char>) -> bool {
        &&& self.name@ == spec_name(spec)
        &&& match self.version {
            None => spec_version(spec) is None,
            Some(v) => spec_version(spec) == Some(v@),
        }
    }
}

/// What [`InstallSpec::parse`] answers: what a valid spec asks for, or why the
/// spec is none.
pub open spec fn spec_parsed(spec: Seq<char>, r: Result<InstallSpec, Invalid>) -> bool {
    match r {
        Ok(parsed) => valid_spec(spec) && parsed.reads(spec),
        Err(e) => !valid_spec(spec) && refuses_spec(spec, e),
    }
}

/// Whether the element at `k` stands earlier in the list too.
pub open spec fn repeats(list: Seq<Seq<char>>, k: int) -> bool {
    exists|j: int| 0 <= j < k && list[j] == list[k]
}

/// The names in a list of specs.
pub open spec fn spec_names(specs: Seq<Seq<char>>) -> Seq<Seq<char>> {
    Seq::new(specs.len(), |i: int| spec_name(specs[i]))
}

/// Whether a list of specs is one that [`InstallSpec::parse_all`] takes: each
/// of them is valid, and no two name one crate.
pub open spec fn valid_specs(specs: Seq<Seq<char>>) -> bool {
    &&& forall|i: int| 0 <= i < specs.len() ==> valid_spec(#[trigger] specs[i])
    &&& forall|k: int| 0 <= k < specs.len() ==> !repeats(spec_names(specs), k)
}

/// Whether `e` is the refusal that a list of specs gets: the first spec that
/// is not valid by itself, and only then the first crate named again.
pub open spec fn refuses_specs(specs: Seq<Seq<char>>, e: Invalid) -> bool {
    ||| exists|k: int|
        {
            &&& 0 <= k < specs.len()
            &&& forall|i: int| 0 <= i < k ==> valid_spec(#[trigger] specs[i])
            &&& !valid_spec(#[trigger] specs[k])
            &&& refuses_spec(specs[k], e)
        }
    ||| {
        &&& forall|i: int| 0 <= i < specs.len() ==> valid_spec(#[trigger] specs[i])
        &&& exists|k: int|
            {
                &&& 0 <= k < specs.len()
                &&& forall|i: int| 0 <= i < k ==> !repeats(spec_names(specs), i)
                &&& #[trigger] repeats(spec_names(specs), k)
                &&& e matches Invalid::GivenTwice { name } && name@ == spec_name(specs[k])
            }
    }
}

/// Whether a list of binaries is one that [`validate_bin_list`] takes.
pub open spec fn valid_bins(bins: Seq<Seq<char>>) -> bool {
    &&& bins.len() > 0
    &&& forall|i: int| 0 <= i < bins.len() ==> valid_bin(#[trigger] bins[i])
    &&& forall|k: int| 0 <= k < bins.len() ==> !repeats(bins, k)
}

/// Whether `e` is the refusal that a list of binaries gets: the first element
/// that is no filename or stands earlier too.
pub open spec fn refuses_bins(bins: Seq<Seq<char>>, e: Invalid) -> bool {
    if bins.len() == 0 {
        e is NoBins
    } else {
        exists|k: int|
            {
                &&& 0 <= k < bins.len()
                &&& forall|i: int| 0 <= i < k ==> valid_bin(bins[i]) && !repeats(bins, i)
                &&& if !valid_bin(#[trigger] bins[k]) {
                    e matches Invalid::BinName { name } && name@ == bins[k]
                } else {
                    repeats(bins, k) && (e matches Invalid::ListedTwice { bin } && bin@ == bins[k])
                }
            }
    }
}

pub(crate) proof fn lemma_first_of(text: Seq<char>, c: char)
    ensures
        0 <= first_of(text, c) <= text.len(),
        text.contains(c) <==> first_of(text, c) < text.len(),
        first_of(text, c) < text.len() ==> text[first_of(text, c)] == c,
        forall|i: int| 0 <= i < first_of(text, c) ==> text[i] != c,
    decreases text.len(),
{
    if text.len() > 0 && text[0] != c {
        let rest = text.drop_first();
        lemma_first_of(rest, c);
        assert forall|i: int| 0 <= i < first_of(text, c) implies text[i] != c by {
            if i > 0 {
                assert(rest[i - 1] != c);
            }
        }
        if text.contains(c) {
            let i = choose|i: int| 0 <= i < text.len() && text[i] == c;
            assert(rest[i - 1] == c);
        }
        if first_of(text, c) < text.len() {
            assert(text[first_of(text, c)] == rest[first_of(rest, c)]);
        }
    }
}

pub(crate) proof fn lemma_first_at(text: Seq<char>, c: char, at: int)
    requires
        0 <= at < text.len(),
        text[at] == c,
        forall|i: int| 0 <= i < at ==> text[i] != c,
    ensures
        first_of(text, c) == at,
{
    lemma_first_of(text, c);
}

/// The position of the first `c`, or the length where there is none.
pub(crate) fn position(text: &Vec<char>, c: char) -> (r: usize)
    ensures
        r == first_of(text@, c),
        r <= text.len(),
        r < text.len() <==> text@.contains(c),
{
    let mut i: usize = 0;
    while i < text.len()
        invariant
            i <= text.len(),
            forall|j: int| 0 <= j < i ==> text@[j] != c,
        decreases text.len() - i,
    {
        if text[i] == c {
            proof {
                lemma_first_at(text@, c, i as int);
            }
            return i;
        }
        i = i + 1;
    }
    proof {
        lemma_first_of(text@, c);
    }
    i
}

fn letter(c: char) -> (r: bool)
    ensures
        r == is_letter(c),
{
    ('a' <= c && c <= 'z') || ('A' <= c && c <= 'Z')
}

/// crates.io package name: ASCII alphanumeric plus `-`/`_`, first character
/// alphabetic. This also keeps the name safe to use as a path component for
/// the per-crate stage.
pub fn validate_name(name: &str) -> (r: Result<(), Invalid>)
    ensures
        match r {
            Ok(()) => valid_name(name@),
            Err(e) => !valid_name(name@) && (e matches Invalid::Name { name: n } && n@ == name@),
        },
{
    let chars = chars_of(name);
    let mut valid = 0 < chars.len() && chars.len() <= 64 && letter(chars[0]);
    let mut i: usize = 0;
    while valid && i < chars.len()
        invariant
            chars@ == name@,
            i <= chars.len(),
            valid ==> 0 < chars.len() <= 64 && is_letter(chars@[0]),
            valid ==> forall|j: int| 0 <= j < i ==> is_name_char(#[trigger] chars@[j]),
            !valid ==> !valid_name(name@),
        decreases chars.len() - i,
    {
        let c = chars[i];
        if !(letter(c) || ('0' <= c && c <= '9') || c == '-' || c == '_') {
            assert(!is_name_char(name@[i as int]));
            valid = false;
        }
        i = i + 1;
    }
    if valid {
        Ok(())
    } else {
        Err(Invalid::Name { name: name.to_owned() })
    }
}

/// Binary name: exactly one normal path component, equal to the whole string.
/// Anything that could escape the bin directory when joined (absolute paths,
/// `..`, separators, `.`) is rejected.
pub fn validate_bin_name(name: &str) -> (r: Result<(), Invalid>)
    ensures
        match r {
            Ok(()) => valid_bin(name@),
            Err(e) => !valid_bin(name@) && (e matches Invalid::BinName { name: n } && n@ == name@),
        },
{
    let chars = chars_of(name);
    let slash = position(&chars, '/');
    let one = chars.len() == 1 && chars[0] == '.';
    let two = chars.len() == 2 && chars[0] == '.' && chars[1] == '.';
    proof {
        assert(one <==> name@ =~= seq!['.']);
        assert(two <==> name@ =~= seq!['.', '.']);
    }
    if chars.len() == 0 || slash < chars.len() || one || two {
        Err(Invalid::BinName { name: name.to_owned() })
    } else {
        Ok(())
    }
}

/// Whether the string at `k` stands earlier in the list too.
fn stands_earlier(list: &Vec<String>, k: usize) -> (r: bool)
    requires
        k < list.len(),
    ensures
        r == repeats(crate::text::texts(list@), k as int),
{
    let ghost all = crate::text::texts(list@);
    let mut j: usize = 0;
    while j < k
        invariant
            j <= k < list.len(),
            all == crate::text::texts(list@),
            forall|i: int| 0 <= i < j ==> all[i] != all[k as int],
        decreases k - j,
    {
        if list[j] == list[k] {
            assert(all[j as int] == all[k as int]);
            return true;
        }
        assert(all[j as int] != all[k as int]);
        j = j + 1;
    }
    false
}

/// A list of binary names: every element a valid single filename, no
/// duplicates. Used for both the stage's bookkeeping (before anything is
/// placed) and manifest entries.
pub fn validate_bin_list(bins: &Vec<String>) -> (r: Result<(), Invalid>)
    ensures
        match r {
            Ok(()) => valid_bins(crate::text::texts(bins@)),
            Err(e) => !valid_bins(crate::text::texts(bins@)) && refuses_bins(
                crate::text::texts(bins@),
                e,
            ),
        },
{
    let ghost all = crate::text::texts(bins@);
    if bins.len() == 0 {
        return Err(Invalid::NoBins);
    }
    let mut k: usize = 0;
    while k < bins.len()
        invariant
            0 < bins.len(),
            k <= bins.len(),
            all == crate::text::texts(bins@),
            forall|i: int| 0 <= i < k ==> valid_bin(#[trigger] all[i]) && !repeats(all, i),
        decreases bins.len() - k,
    {
        match validate_bin_name(bins[k].as_str()) {
            Ok(()) => {},
            Err(e) => {
                assert(!valid_bin(all[k as int]));
                return Err(e);
            },
        }
        assert(valid_bin(all[k as int]));
        if stands_earlier(bins, k) {
            return Err(Invalid::ListedTwice { bin: bins[k].clone() });
        }
        k = k + 1;
    }
    Ok(())
}

impl InstallSpec {
    /// Parse every spec and refuse a crate named more than once, with or
    /// without versions, in any combination. Two builds of one crate in one
    /// command is never what anyone meant, so the whole command is refused
    /// before anything is built.
    pub fn parse_all(specs: &Vec<String>) -> (r: Result<Vec<InstallSpec>, Invalid>)
        ensures
            match r {
                Ok(parsed) => {
                    &&& valid_specs(crate::text::texts(specs@))
                    &&& parsed.len() == specs.len()
                    &&& forall|i: int|
                        0 <= i < specs.len() ==> (#[trigger] parsed@[i]).reads(specs@[i]@)
                },
                Err(e) => !valid_specs(crate::text::texts(specs@)) && refuses_specs(
                    crate::text::texts(specs@),
                    e,
                ),
            },
    {
        let ghost all = crate::text::texts(specs@);
        let mut parsed: Vec<InstallSpec> = Vec::new();
        let mut i: usize = 0;
        while i < specs.len()
            invariant
                i <= specs.len(),
                parsed.len() == i,
                all == crate::text::texts(specs@),
                forall|j: int| 0 <= j < i ==> valid_spec(#[trigger] all[j]),
                forall|j: int| 0 <= j < i ==> (#[trigger] parsed@[j]).reads(specs@[j]@),
            decreases specs.len() - i,
        {
            match InstallSpec::parse(specs[i].as_str()) {
                Ok(spec) => {
                    assert(valid_spec(all[i as int]));
                    parsed.push(spec);
                },
                Err(e) => {
                    assert(!valid_spec(all[i as int]));
                    return Err(e);
                },
            }
            i = i + 1;
        }
        let mut names: Vec<String> = Vec::new();
        let mut k: usize = 0;
        while k < parsed.len()
            invariant
                k <= parsed.len(),
                names.len() == k,
                parsed.len() == specs.len(),
                all == crate::text::texts(specs@),
                forall|j: int| 0 <= j < specs.len() ==> valid_spec(#[trigger] all[j]),
                forall|j: int| 0 <= j < specs.len() ==> (#[trigger] parsed@[j]).reads(specs@[j]@),
                crate::text::texts(names@) == spec_names(all).take(k as int),
                forall|j: int| 0 <= j < k ==> !#[trigger] repeats(spec_names(all), j),
            decreases parsed.len() - k,
        {
            names.push(parsed[k].name.clone());
            let ghost seen = crate::text::texts(names@);
            proof {
                assert(parsed@[k as int].reads(specs@[k as int]@));
                assert(seen =~= spec_names(all).take(k + 1));
            }
            if stands_earlier(&names, k) {
                proof {
                    let j = choose|j: int| 0 <= j < k && seen[j] == seen[k as int];
                    assert(spec_names(all)[j] == spec_names(all)[k as int]);
                    assert(repeats(spec_names(all), k as int));
                }
                return Err(Invalid::GivenTwice { name: parsed[k].name.clone() });
            }
            proof {
                if repeats(spec_names(all), k as int) {
                    let j = choose|j: int|
                        0 <= j < k && spec_names(all)[j] == spec_names(all)[k as int];
                    assert(seen[j] == seen[k as int]);
                }
            }
            k = k + 1;
        }
        Ok(parsed)
    }

    /// Parse `NAME` or `NAME@VERSION`. The version is an exact semver version,
    /// not a requirement: `foo@^1` is refused, because "any matching version"
    /// is what `install foo` already means, and the point of naming one is to
    /// get that one and keep it. The name is validated as every other name is.
    pub fn parse(spec: &str) -> (r: Result<InstallSpec, Invalid>)
        ensures
            spec_parsed(spec@, r),
    {
        let chars = chars_of(spec);
        let at = position(&chars, '@');
        let name = string_of_range(&chars, 0, at);
        assert(name@ =~= spec_name(spec@));
        match validate_name(name.as_str()) {
            Ok(()) => {},
            Err(e) => {
                return Err(e);
            },
        }
        if at == chars.len() {
            return Ok(InstallSpec { name, version: None });
        }
        let version = string_of_range(&chars, at + 1, chars.len());
        assert(version@ =~= spec@.skip(first_of(spec@, '@') + 1));
        if version.as_str().is_empty() {
            return Err(Invalid::EmptyVersion { spec: spec.to_owned() });
        }
        match Version::parse(version.as_str()) {
            Ok(v) => Ok(InstallSpec { name, version: Some(v) }),
            Err(cause) => Err(Invalid::Version { spec: spec.to_owned(), cause }),
        }
    }
}

pub(crate) proof fn lemma_spec_parts(name: Seq<char>, version: Seq<char>)
    requires
        valid_name(name),
        is_semver(version),
    ensures
        valid_spec(name),
        spec_name(name) == name,
        spec_version(name) is None,
        valid_spec(name + "@"@ + version),
        spec_name(name + "@"@ + version) == name,
        spec_version(name + "@"@ + version) == Some(version),
{
    reveal_strlit("@");
    let spec = name + "@"@ + version;
    let at = name.len() as int;
    assert(spec[at] == '@');
    assert forall|i: int| 0 <= i < at implies name[i] != '@' && spec[i] != '@' by {
        assert(is_name_char(name[i]));
    }
    lemma_first_of(name, '@');
    assert(name.take(at) =~= name);
    lemma_first_at(spec, '@', at);
    assert(spec.contains('@'));
    assert(spec.take(at) =~= name);
    assert(spec.skip(at + 1) =~= version);
}

/// A spec reads back as what was written into it. Every valid name, alone,
/// parses as that crate at no version; followed by `@` and any semantic version,
/// a pre-release and build metadata with it, as that crate at that very version.
pub proof fn law_specs_read_back(
    name: Seq<char>,
    version: Seq<char>,
    alone: Result<InstallSpec, Invalid>,
    exact: Result<InstallSpec, Invalid>,
)
    requires
        valid_name(name),
        is_semver(version),
        spec_parsed(name, alone),
        spec_parsed(name + "@"@ + version, exact),
    ensures
        alone matches Ok(spec) && spec.name@ == name && spec.version is None,
        exact matches Ok(spec) && spec.name@ == name && (spec.version matches Some(v) && v@
            == version),
{
    lemma_spec_parts(name, version);
}

/// What [`InstallSpec::parse_all`] takes names each crate once: two specs of
/// one list never name one crate.
pub proof fn law_each_crate_is_named_once(specs: Seq<Seq<char>>, i: int, k: int)
    requires
        valid_specs(specs),
        0 <= i < k < specs.len(),
    ensures
        spec_name(specs[i]) != spec_name(specs[k]),
{
    if spec_name(specs[i]) == spec_name(specs[k]) {
        assert(spec_names(specs)[i] == spec_names(specs)[k]);
        assert(repeats(spec_names(specs), k));
    }
}

/// A valid name is safe as a path component: it is one plain filename, and it
/// holds nothing but ASCII.
pub proof fn law_names_are_filenames(name: Seq<char>)
    requires
        valid_name(name),
    ensures
        valid_bin(name),
        forall|i: int| 0 <= i < name.len() ==> (#[trigger] name[i]) as u32 <= 0x7f,
{
    if name.contains('/') {
        let i = choose|i: int| 0 <= i < name.len() && name[i] == '/';
        assert(is_name_char(name[i]));
    }
    assert(is_name_char(name[0]));
    assert(seq!['.'][0] == '.');
    assert(seq!['.', '.'][0] == '.');
}

/// The binaries of a list that [`validate_bin_list`] takes are distinct.
pub proof fn law_bins_are_distinct(bins: Seq<Seq<char>>, i: int, k: int)
    requires
        valid_bins(bins),
        0 <= i < k < bins.len(),
    ensures
        bins[i] != bins[k],
{
    assert(!repeats(bins, k));
}

/// Whether a list of binaries is taken does not depend on the order in which it
/// stands.
pub proof fn law_the_order_of_bins_does_not_matter(bins: Seq<Seq<char>>, other: Seq<Seq<char>>)
    requires
        bins.to_multiset() == other.to_multiset(),
    ensures
        valid_bins(bins) == valid_bins(other),
{
    if valid_bins(bins) {
        lemma_bins_reordered(bins, other);
    }
    if valid_bins(other) {
        lemma_bins_reordered(other, bins);
    }
}

proof fn lemma_bins_reordered(bins: Seq<Seq<char>>, other: Seq<Seq<char>>)
    requires
        bins.to_multiset() == other.to_multiset(),
        valid_bins(bins),
    ensures
        valid_bins(other),
{
    bins.to_multiset_ensures();
    other.to_multiset_ensures();
    assert forall|i: int, k: int| 0 <= i < k < bins.len() implies bins[i] != bins[k] by {
        law_bins_are_distinct(bins, i, k);
    }
    bins.lemma_multiset_has_no_duplicates();
    other.lemma_multiset_has_no_duplicates_conv();
    assert forall|i: int| 0 <= i < other.len() implies valid_bin(#[trigger] other[i]) by {
        assert(other.contains(other[i]));
        assert(other.to_multiset().count(other[i]) > 0);
        assert(bins.contains(other[i]));
    }
}

/// A name is taken exactly where it is one to sixty-four ASCII letters, digits,
/// `-` and `_`, the first of them a letter; what is refused is named.
pub proof fn law_names_are_letters_digits_and_dashes(name: &str, r: Result<(), Invalid>)
    requires
        call_ensures(validate_name, (name,), r),
    ensures
        r is Ok <==> {
            &&& 1 <= name@.len() <= 64
            &&& ('a' <= name@[0] <= 'z' || 'A' <= name@[0] <= 'Z')
            &&& forall|i: int|
                0 <= i < name@.len() ==> 'a' <= (#[trigger] name@[i]) <= 'z' || 'A' <= name@[i]
                    <= 'Z' || '0' <= name@[i] <= '9' || name@[i] == '-' || name@[i] == '_'
        },
        r is Err ==> r->Err_0 is Name && r->Err_0->Name_name@ == name@,
{
    if r is Ok {
        assert forall|i: int| 0 <= i < name@.len() implies 'a' <= (#[trigger] name@[i]) <= 'z'
            || 'A' <= name@[i] <= 'Z' || '0' <= name@[i] <= '9' || name@[i] == '-' || name@[i]
            == '_' by {
            assert(is_name_char(name@[i]));
        }
    } else if 1 <= name@.len() <= 64 && ('a' <= name@[0] <= 'z' || 'A' <= name@[0] <= 'Z') && (
    forall|i: int|
        0 <= i < name@.len() ==> 'a' <= (#[trigger] name@[i]) <= 'z' || 'A' <= name@[i] <= 'Z'
            || '0' <= name@[i] <= '9' || name@[i] == '-' || name@[i] == '_') {
        assert forall|i: int| 0 <= i < name@.len() implies is_name_char(#[trigger] name@[i]) by {
            assert('a' <= name@[i] <= 'z' || 'A' <= name@[i] <= 'Z' || '0' <= name@[i] <= '9'
                || name@[i] == '-' || name@[i] == '_');
        }
    }
}

/// A binary's name is taken exactly where it is one plain filename: not empty,
/// without a separator, and neither of the two dot names.
pub proof fn law_bins_are_plain_filenames(name: &str, r: Result<(), Invalid>)
    requires
        call_ensures(validate_bin_name, (name,), r),
    ensures
        r is Ok <==> {
            &&& name@.len() > 0
            &&& forall|i: int| 0 <= i < name@.len() ==> (#[trigger] name@[i]) != '/'
            &&& !(name@.len() == 1 && name@[0] == '.')
            &&& !(name@.len() == 2 && name@[0] == '.' && name@[1] == '.')
        },
        r is Err ==> r->Err_0 is BinName && r->Err_0->BinName_name@ == name@,
{
    assert(name@ =~= seq!['.'] <==> name@.len() == 1 && name@[0] == '.');
    assert(name@ =~= seq!['.', '.'] <==> name@.len() == 2 && name@[0] == '.' && name@[1] == '.');
    if name@.contains('/') {
        let i = choose|i: int| 0 <= i < name@.len() && name@[i] == '/';
        assert(name@[i] == '/');
    }
    if exists|i: int| 0 <= i < name@.len() && (#[trigger] name@[i]) == '/' {
        let i = choose|i: int| 0 <= i < name@.len() && (#[trigger] name@[i]) == '/';
        assert(name@.contains(name@[i]));
    }
}

/// A list of binaries is taken exactly where there is one, each of them would be
/// taken alone, and no two are the same.
pub proof fn law_bin_lists_are_taken_by_their_elements(bins: Vec<String>, r: Result<(), Invalid>)
    requires
        call_ensures(validate_bin_list, (&bins,), r),
    ensures
        r is Ok <==> {
            &&& bins.len() > 0
            &&& forall|i: int| 0 <= i < bins.len() ==> valid_bin((#[trigger] bins@[i])@)
            &&& forall|i: int, k: int|
                0 <= i < k < bins.len() ==> (#[trigger] bins@[i])@ != (#[trigger] bins@[k])@
        },
        r is Err && bins.len() == 0 ==> r->Err_0 is NoBins,
        r is Err && bins.len() > 0 ==> r->Err_0 is BinName || r->Err_0 is ListedTwice,
        r is Err && r->Err_0 is BinName ==> !valid_bin(r->Err_0->BinName_name@)
            && crate::text::texts(bins@).contains(r->Err_0->BinName_name@),
        r is Err && r->Err_0 is ListedTwice ==> exists|i: int, k: int|
            0 <= i < k < bins.len() && (#[trigger] bins@[i])@ == r->Err_0->bin@ && (
            #[trigger] bins@[k])@ == r->Err_0->bin@,
{
    let all = crate::text::texts(bins@);
    assert(all.len() == bins.len());
    assert forall|i: int| 0 <= i < bins.len() implies all[i] == (#[trigger] bins@[i])@ by {}
    if r is Ok {
        assert forall|i: int| 0 <= i < bins.len() implies valid_bin((#[trigger] bins@[i])@) by {
            assert(valid_bin(all[i]));
        }
        assert forall|i: int, k: int| 0 <= i < k < bins.len() implies (#[trigger] bins@[i])@ != (
        #[trigger] bins@[k])@ by {
            law_bins_are_distinct(all, i, k);
        }
    } else {
        if bins.len() > 0 && (forall|i: int|
            0 <= i < bins.len() ==> valid_bin((#[trigger] bins@[i])@)) && (forall|i: int, k: int|
            0 <= i < k < bins.len() ==> (#[trigger] bins@[i])@ != (#[trigger] bins@[k])@) {
            assert forall|i: int| 0 <= i < all.len() implies valid_bin(#[trigger] all[i]) by {
                assert(valid_bin(bins@[i]@));
            }
            assert forall|k: int| 0 <= k < all.len() implies !repeats(all, k) by {
                if repeats(all, k) {
                    let j = choose|j: int| 0 <= j < k && all[j] == all[k];
                    assert(bins@[j]@ == bins@[k]@);
                }
            }
        }
        if bins.len() > 0 {
            let e = r->Err_0;
            assert(refuses_bins(all, e));
            lemma_refused_bin(all, e);
            if e is ListedTwice {
                let (j, k) = choose|j: int, k: int|
                    0 <= j < k < all.len() && #[trigger] all[j] == e->bin@ && #[trigger] all[k]
                        == e->bin@;
                assert(bins@[j]@ == e->bin@ && bins@[k]@ == e->bin@);
            }
        }
    }
}

proof fn lemma_refused_bin(bins: Seq<Seq<char>>, e: Invalid)
    requires
        refuses_bins(bins, e),
        bins.len() > 0,
    ensures
        e is BinName || e is ListedTwice,
        e is BinName ==> !valid_bin(e->BinName_name@) && bins.contains(e->BinName_name@),
        e is ListedTwice ==> exists|j: int, k: int|
            0 <= j < k < bins.len() && #[trigger] bins[j] == e->bin@ && #[trigger] bins[k]
                == e->bin@,
{
    let k = choose|k: int|
        0 <= k < bins.len() && (if !valid_bin(#[trigger] bins[k]) {
            e is BinName && e->BinName_name@ == bins[k]
        } else {
            repeats(bins, k) && e is ListedTwice && e->bin@ == bins[k]
        });
    assert(bins.contains(bins[k]));
    if valid_bin(bins[k]) {
        let j = choose|j: int| 0 <= j < k && bins[j] == bins[k];
        assert(bins[j] == bins[k]);
    }
}

/// A spec without an `@` is a name alone; one with an `@` is what stands before
/// the first and the exact version that is everything after it. Nothing else
/// parses, and the refusal says which part was at fault.
pub proof fn law_a_spec_splits_at_its_first_at(
    name: Seq<char>,
    rest: Seq<char>,
    alone: &str,
    with: &str,
    bare: Result<InstallSpec, Invalid>,
    exact: Result<InstallSpec, Invalid>,
)
    requires
        forall|i: int| 0 <= i < name.len() ==> (#[trigger] name[i]) != '@',
        alone@ == name,
        with@ == name.push('@') + rest,
        call_ensures(InstallSpec::parse, (alone,), bare),
        call_ensures(InstallSpec::parse, (with,), exact),
    ensures
        bare is Ok <==> valid_name(name),
        bare is Ok ==> bare->Ok_0.name@ == name && bare->Ok_0.version is None,
        bare is Err ==> bare->Err_0 is Name,
        exact is Ok <==> valid_name(name) && is_semver(rest),
        exact is Ok ==> exact->Ok_0.name@ == name && exact->Ok_0.version is Some
            && exact->Ok_0.version->0@ == rest,
        exact is Err && !valid_name(name) ==> exact->Err_0 is Name,
        exact is Err && valid_name(name) && rest.len() == 0 ==> exact->Err_0 is EmptyVersion,
        exact is Err && valid_name(name) && rest.len() > 0 ==> exact->Err_0 is Version,
{
    let spec = with@;
    let at = name.len() as int;
    lemma_first_of(name, '@');
    assert(!name.contains('@'));
    assert(name.take(at) =~= name);
    assert(spec[at] == '@');
    assert forall|i: int| 0 <= i < at implies spec[i] != '@' by {
        assert(name[i] != '@');
    }
    lemma_first_at(spec, '@', at);
    assert(spec.contains(spec[at]));
    assert(spec.take(at) =~= name);
    assert(spec.skip(at + 1) =~= rest);
}

/// A list of specs is taken exactly where each of them parses alone and no two
/// name one crate; what it comes to is what each of them comes to, in order.
pub proof fn law_a_list_of_specs_is_its_specs(
    specs: Vec<String>,
    r: Result<Vec<InstallSpec>, Invalid>,
)
    requires
        call_ensures(InstallSpec::parse_all, (&specs,), r),
    ensures
        r is Ok <==> {
            &&& forall|i: int| 0 <= i < specs.len() ==> valid_spec((#[trigger] specs@[i])@)
            &&& forall|i: int, k: int|
                0 <= i < k < specs.len() ==> spec_name((#[trigger] specs@[i])@) != spec_name(
                    (#[trigger] specs@[k])@,
                )
        },
        r is Ok ==> r->Ok_0.len() == specs.len() && forall|i: int|
            0 <= i < specs.len() ==> spec_parsed(
                specs@[i]@,
                Ok::<InstallSpec, Invalid>(#[trigger] r->Ok_0@[i]),
            ),
{
    let all = crate::text::texts(specs@);
    assert(all.len() == specs.len());
    assert forall|i: int| 0 <= i < specs.len() implies all[i] == (#[trigger] specs@[i])@ by {}
    if r is Ok {
        assert forall|i: int| 0 <= i < specs.len() implies valid_spec((#[trigger] specs@[i])@) by {
            assert(valid_spec(all[i]));
        }
        assert forall|i: int, k: int| 0 <= i < k < specs.len() implies spec_name(
            (#[trigger] specs@[i])@,
        ) != spec_name((#[trigger] specs@[k])@) by {
            law_each_crate_is_named_once(all, i, k);
        }
    } else if (forall|i: int| 0 <= i < specs.len() ==> valid_spec((#[trigger] specs@[i])@)) && (
    forall|i: int, k: int|
        0 <= i < k < specs.len() ==> spec_name((#[trigger] specs@[i])@) != spec_name(
            (#[trigger] specs@[k])@,
        )) {
        assert forall|i: int| 0 <= i < all.len() implies valid_spec(#[trigger] all[i]) by {
            assert(valid_spec(specs@[i]@));
        }
        let names = spec_names(all);
        assert forall|k: int| 0 <= k < all.len() implies !repeats(names, k) by {
            if repeats(names, k) {
                let j = choose|j: int| 0 <= j < k && names[j] == names[k];
                assert(spec_name(specs@[j]@) == spec_name(specs@[k]@));
            }
        }
    }
}

/// A refusal quotes what it refuses.
pub proof fn law_a_refusal_quotes_the_input(e: Invalid, r: String)
    requires
        call_ensures(Invalid::chain, (&e,), r),
    ensures
        match e {
            Invalid::Name { name } => r@ == "`"@ + name@
                + "` is not a valid crates.io package name"@,
            Invalid::EmptyVersion { spec } => r@ == "`"@ + spec@ + "`: empty version after `@`"@,
            Invalid::Version { spec, cause } => r@ == "`"@ + spec@
                + "`: version must be an exact semver version such as 1.2.3: "@ + cause@,
            Invalid::GivenTwice { name } => r@ == "crate `"@ + name@
                + "` is given more than once"@,
            Invalid::BinName { name } => r@ == "`"@ + name@ + "` is not a valid binary name"@,
            Invalid::NoBins => r@ == "crate provides no binaries"@,
            Invalid::ListedTwice { bin } => r@ == "binary `"@ + bin@ + "` is listed twice"@,
        },
{
}

/// A refused spec is quoted: the name that is none, or the whole spec.
pub proof fn law_a_refused_spec_is_quoted(spec: &str, r: Result<InstallSpec, Invalid>)
    requires
        call_ensures(InstallSpec::parse, (spec,), r),
    ensures
        r is Err && r->Err_0 is EmptyVersion ==> r->Err_0->EmptyVersion_spec@ == spec@,
        r is Err && r->Err_0 is Version ==> r->Err_0->Version_spec@ == spec@,
        r is Err && r->Err_0 is Name ==> !valid_name(r->Err_0->Name_name@) && r->Err_0->Name_name@
            == spec@.take(first_of(spec@, '@')),
        r is Err ==> r->Err_0 is Name || r->Err_0 is EmptyVersion || r->Err_0 is Version,
{
}

/// A list that names a crate twice is refused by that name, and only where each of
/// its specs is valid; else it is refused for the first that is not.
pub proof fn law_a_refused_list_says_which_spec(specs: Vec<String>, e: Invalid)
    requires
        call_ensures(InstallSpec::parse_all, (&specs,), Err(e)),
    ensures
        e is GivenTwice ==> exists|i: int, k: int|
            0 <= i < k < specs.len() && spec_name((#[trigger] specs@[i])@)
                == e->GivenTwice_name@ && spec_name((#[trigger] specs@[k])@)
                == e->GivenTwice_name@,
        !(e is GivenTwice) ==> exists|k: int|
            0 <= k < specs.len() && !valid_spec((#[trigger] specs@[k])@) && refuses_spec(
                specs@[k]@,
                e,
            ) && forall|i: int| 0 <= i < k ==> valid_spec((#[trigger] specs@[i])@),
{
    let all = crate::text::texts(specs@);
    assert(all.len() == specs.len());
    assert forall|i: int| 0 <= i < specs.len() implies all[i] == (#[trigger] specs@[i])@ by {}
    lemma_refused_specs(all, e);
    if e is GivenTwice {
        let (i, k) = choose|i: int, k: int|
            0 <= i < k < all.len() && spec_name(#[trigger] all[i]) == e->GivenTwice_name@
                && spec_name(#[trigger] all[k]) == e->GivenTwice_name@;
        assert(spec_name(specs@[i]@) == spec_name(specs@[k]@));
    } else {
        let k = choose|k: int|
            0 <= k < all.len() && !valid_spec(#[trigger] all[k]) && refuses_spec(all[k], e)
                && forall|i: int| 0 <= i < k ==> valid_spec(#[trigger] all[i]);
        assert(!valid_spec(specs@[k]@));
        assert forall|i: int| 0 <= i < k implies valid_spec((#[trigger] specs@[i])@) by {
            assert(valid_spec(all[i]));
        }
    }
}

proof fn lemma_refused_specs(specs: Seq<Seq<char>>, e: Invalid)
    requires
        refuses_specs(specs, e),
    ensures
        e is GivenTwice ==> exists|i: int, k: int|
            0 <= i < k < specs.len() && spec_name(#[trigger] specs[i]) == e->GivenTwice_name@
                && spec_name(#[trigger] specs[k]) == e->GivenTwice_name@,
        !(e is GivenTwice) ==> exists|k: int|
            0 <= k < specs.len() && !valid_spec(#[trigger] specs[k]) && refuses_spec(specs[k], e)
                && forall|i: int| 0 <= i < k ==> valid_spec(#[trigger] specs[i]),
{
    if e is GivenTwice {
        let names = spec_names(specs);
        let k = choose|k: int|
            0 <= k < specs.len() && #[trigger] repeats(names, k) && e->GivenTwice_name@
                == spec_name(specs[k]);
        let j = choose|j: int| 0 <= j < k && names[j] == names[k];
        assert(spec_name(specs[j]) == names[j] && spec_name(specs[k]) == names[k]);
    }
}

/// The crate that a list is refused for naming twice is the first to be named
/// again: the specs up to there name distinct crates.
pub proof fn law_the_first_crate_named_again_is_told(specs: Vec<String>, e: Invalid)
    requires
        call_ensures(InstallSpec::parse_all, (&specs,), Err(e)),
        e is GivenTwice,
    ensures
        exists|k: int|
            0 <= k < specs.len() && spec_name((#[trigger] specs@[k])@) == e->GivenTwice_name@
                && forall|i: int, j: int|
                0 <= i < j < k ==> spec_name((#[trigger] specs@[i])@) != spec_name(
                    (#[trigger] specs@[j])@,
                ),
{
    let all = crate::text::texts(specs@);
    let names = spec_names(all);
    assert(all.len() == specs.len());
    lemma_first_named_again(all, e);
    let k = choose|k: int|
        0 <= k < all.len() && e->GivenTwice_name@ == spec_name(#[trigger] all[k]) && forall|
            i: int,
        |
            0 <= i < k ==> !repeats(names, i);
    assert(spec_name(specs@[k]@) == e->GivenTwice_name@);
    assert forall|i: int, j: int| 0 <= i < j < k implies spec_name((#[trigger] specs@[i])@)
        != spec_name((#[trigger] specs@[j])@) by {
        assert(!repeats(names, j));
        assert(names[i] == spec_name(specs@[i]@) && names[j] == spec_name(specs@[j]@));
    }
}

proof fn lemma_first_named_again(specs: Seq<Seq<char>>, e: Invalid)
    requires
        refuses_specs(specs, e),
        e is GivenTwice,
    ensures
        exists|k: int|
            0 <= k < specs.len() && e->GivenTwice_name@ == spec_name(#[trigger] specs[k])
                && forall|i: int| 0 <= i < k ==> !repeats(spec_names(specs), i),
{
    let names = spec_names(specs);
    let k = choose|k: int|
        0 <= k < specs.len() && #[trigger] repeats(names, k) && e->GivenTwice_name@ == spec_name(
            specs[k],
        ) && forall|i: int| 0 <= i < k ==> !repeats(names, i);
    assert(e->GivenTwice_name@ == spec_name(specs[k]));
}

} // verus!
