//! Semantic-versioning range expressions. The grammar of ranges and the
//! matching rules are those of the `semver` crate; the library keeps a range
//! as its source text and consults `semver` through trusted wrappers.

use vstd::prelude::*;

use crate::version::Version;

verus! {

/// Whether `semver::VersionReq::parse` accepts `s` as a range expression.
pub uninterp spec fn valid_range(s: Seq<char>) -> bool;

/// Whether the version `major.minor.patch` satisfies the range expression
/// `range` under the `semver` crate's matching rules; `false` when `range`
/// is not a valid range expression. The result depends on the two arguments
/// alone.
pub uninterp spec fn range_matches(range: Seq<char>, major: u64, minor: u64, patch: u64) -> bool;

/// The numeric components that `semver::Version::parse` reads from `s`;
/// `None` when `s` is not a valid version. The result depends on `s` alone.
pub uninterp spec fn version_of(s: Seq<char>) -> Option<(u64, u64, u64)>;

/// Relies on `semver::VersionReq::parse`: whether the text parses as a range
/// depends on the text alone.
#[verifier::external_body]
fn range_is_valid(s: &str) -> (b: bool)
    ensures
        b == valid_range(s@),
{
    semver::VersionReq::parse(s).is_ok()
}

/// Relies on `semver::VersionReq::parse` and `semver::VersionReq::matches`:
/// whether a plain `major.minor.patch` version satisfies a range depends on
/// the range text and the version alone; an unparseable range matches
/// nothing.
#[verifier::external_body]
fn range_matches_exec(range: &str, v: &Version) -> (b: bool)
    ensures
        b == range_matches(range@, v.major, v.minor, v.patch),
{
    match semver::VersionReq::parse(range) {
        Ok(req) => req.matches(&semver::Version::new(v.major, v.minor, v.patch)),
        Err(_) => false,
    }
}

/// Relies on `semver::Version::parse`: the numeric components read from the
/// text depend on the text alone.
#[verifier::external_body]
pub(crate) fn parse_version(s: &str) -> (r: Option<Version>)
    ensures
        match r {
            Some(v) => version_of(s@) == Some((v.major, v.minor, v.patch)),
            None => version_of(s@) is None,
        },
{
    match semver::Version::parse(s) {
        Ok(v) => Some(Version { major: v.major, minor: v.minor, patch: v.patch }),
        Err(_) => None,
    }
}

/// A validated semantic-versioning range, kept as its source text.
#[derive(Debug, Clone, PartialEq, Eq)]
pub struct Range {
    text: String,
}

impl View for Range {
    type V = Seq<char>;

    closed spec fn view(&self) -> Seq<char> {
        self.text@
    }
}

impl Range {
    /// Parses a range expression; `None` exactly when the text is not a
    /// valid range.
    pub fn parse(s: &str) -> (r: Option<Range>)
        ensures
            match r {
                Some(rg) => valid_range(s@) && rg@ == s@,
                None => !valid_range(s@),
            },
    {
        if range_is_valid(s) {
            Some(Range { text: s.to_owned() })
        } else {
            None
        }
    }

    /// Whether `v` satisfies this range.
    pub fn matches(&self, v: &Version) -> (b: bool)
        ensures
            b == range_matches(self@, v.major, v.minor, v.patch),
    {
        range_matches_exec(self.text.as_str(), v)
    }

    /// A copy of this range.
    pub fn duplicate(&self) -> (r: Range)
        ensures
            r@ == self@,
    {
        Range { text: self.text.clone() }
    }

    /// The source text of the range.
    pub fn render(&self) -> (r: String)
        ensures
            r@ == self@,
    {
        self.text.clone()
    }
}

} // verus!
