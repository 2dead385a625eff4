//! Exact semantic versions.
use vstd::prelude::*;

verus! {

/// What `semver::Version::parse` says of a text that is no semantic version;
/// `None` where the text is one.
pub uninterp spec fn semver_error(text: Seq<char>) -> Option<Seq<char>>;

/// Whether the first of two semantic versions is the greater one, in the order
/// that `semver::Version` has.
pub uninterp spec fn semver_greater(a: Seq<char>, b: Seq<char>) -> bool;

/// Whether a text is a semantic version; the empty text is none.
pub open spec fn is_semver(text: Seq<char>) -> bool {
    &&& text.len() > 0
    &&& semver_error(text) is None
}

/// `semver::Version::parse`, with the version handed back as the text that its
/// `Display` gives. The parse is strict (no leading zeros, no white space, no
/// missing part), so a version shows as the very text that was parsed, and the
/// empty text is refused. Which other texts are versions, and the message for
/// those that are not, is named and not described.
#[verifier::external_body]
fn semver_parse(text: &str) -> (r: Result<String, String>)
    ensures
        match r {
            Ok(shown) => text@.len() > 0 && semver_error(text@) is None && shown@ == text@,
            Err(e) => semver_error(text@) == Some(e@),
        },
{
    match semver::Version::parse(text) {
        Ok(version) => Ok(version.to_string()),
        Err(e) => Err(e.to_string()),
    }
}

/// The `>` of `semver::Version` on two versions given as their texts. The
/// order is named and not described; it is a total order, so where `a` is the
/// greater of the two, neither `b` nor anything that does not exceed `b`
/// exceeds `a`.
#[verifier::external_body]
fn semver_exceeds(a: &str, b: &str) -> (r: bool)
    requires
        is_semver(a@),
        is_semver(b@),
    ensures
        r == semver_greater(a@, b@),
        r ==> forall|c: Seq<char>|
            is_semver(c) && (c == b@ || !semver_greater(c, b@)) ==> !#[trigger] semver_greater(
                c,
                a@,
            ),
{
    semver::Version::parse(a).ok() > semver::Version::parse(b).ok()
}

/// An exact semantic version, held as the text it shows as.
#[derive(Debug, PartialEq, Eq)]
pub struct Version {
    text: String,
}

impl View for Version {
    type V = Seq<char>;

    closed spec fn view(&self) -> Seq<char> {
        self.text@
    }
}

impl Version {
    #[verifier::type_invariant]
    spec fn valid(self) -> bool {
        is_semver(self.text@)
    }

    /// The version that a text spells, or the reason why it spells none.
    pub fn parse(text: &str) -> (r: Result<Version, String>)
        ensures
            match r {
                Ok(v) => is_semver(text@) && v@ == text@,
                Err(e) => semver_error(text@) == Some(e@),
            },
    {
        match semver_parse(text) {
            Ok(shown) => Ok(Version { text: shown }),
            Err(e) => Err(e),
        }
    }

    /// The text of the version.
    pub fn as_str(&self) -> (r: &str)
        ensures
            r@ == self@,
            is_semver(r@),
    {
        proof {
            use_type_invariant(self);
        }
        self.text.as_str()
    }

    /// Whether this version is greater than the other.
    pub fn exceeds(&self, other: &Version) -> (r: bool)
        ensures
            r == semver_greater(self@, other@),
            r ==> forall|c: Seq<char>|
                is_semver(c) && (c == other@ || !semver_greater(c, other@))
                    ==> !#[trigger] semver_greater(c, self@),
    {
        semver_exceeds(self.as_str(), other.as_str())
    }

    /// Whether two versions are the same.
    pub fn same(&self, other: &Version) -> (r: bool)
        ensures
            r == (self@ == other@),
    {
        crate::text::same(self.as_str(), other.as_str())
    }
}

impl Clone for Version {
    fn clone(&self) -> (r: Version)
        ensures
            r == *self,
    {
        proof {
            use_type_invariant(self);
        }
        Version { text: self.text.clone() }
    }
}

/// A version shows as the text it was parsed from, is the same as another exactly
/// where that text is, and exceeds it exactly where semantic versioning says so;
/// no version exceeds one that exceeds it.
pub proof fn law_versions_are_their_texts(
    text: &str,
    r: Result<Version, String>,
    a: Version,
    b: Version,
    greater: bool,
    lesser: bool,
    same: bool,
    shown: &str,
)
    requires
        call_ensures(Version::parse, (text,), r),
        call_ensures(Version::exceeds, (&a, &b), greater),
        call_ensures(Version::exceeds, (&b, &a), lesser),
        call_ensures(Version::same, (&a, &b), same),
        call_ensures(Version::as_str, (&a,), shown),
        is_semver(b@),
    ensures
        r is Ok ==> text@.len() > 0 && semver_error(text@) is None && r->Ok_0@ == text@,
        r is Err ==> semver_error(text@) == Some(r->Err_0@),
        greater == semver_greater(a@, b@),
        lesser == semver_greater(b@, a@),
        !(greater && lesser),
        same <==> a@ == b@,
        shown@ == a@,
{
}

} // verus!
