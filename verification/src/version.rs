//! Concrete tool versions: a semantic-versioning triple with the total
//! order used to keep collections of installed versions sorted.

use vstd::prelude::*;

verus! {

/// A concrete version of a tool: a `major.minor.patch` triple.
#[derive(Clone, Copy, Debug, PartialEq, Eq, Structural, Hash)]
pub struct Version {
    pub major: u64,
    pub minor: u64,
    pub patch: u64,
}

/// Lexicographic order on version triples: this is semantic-versioning
/// precedence restricted to plain `major.minor.patch` versions.
pub open spec fn version_lt(a: Version, b: Version) -> bool {
    a.major < b.major
        || (a.major == b.major && a.minor < b.minor)
        || (a.major == b.major && a.minor == b.minor && a.patch < b.patch)
}

pub open spec fn version_le(a: Version, b: Version) -> bool {
    version_lt(a, b) || a == b
}

impl Version {
    pub fn new(major: u64, minor: u64, patch: u64) -> (v: Version)
        ensures
            v == (Version { major, minor, patch }),
    {
        Version { major, minor, patch }
    }

    /// Strict precedence comparison.
    pub fn lt(&self, other: &Version) -> (r: bool)
        ensures
            r == version_lt(*self, *other),
    {
        self.major < other.major
            || (self.major == other.major && self.minor < other.minor)
            || (self.major == other.major && self.minor == other.minor
                && self.patch < other.patch)
    }
}

/// The order on versions is total: any two versions are comparable.
pub proof fn lemma_version_order_total(a: Version, b: Version)
    ensures
        version_lt(a, b) || version_lt(b, a) || a == b,
{
}

/// Strictly ascending version order: sorted with no duplicates.
pub open spec fn sorted_unique(s: Seq<Version>) -> bool {
    forall|i: int, j: int| 0 <= i < j < s.len() ==> version_lt(s[i], s[j])
}

/// Whether a list of versions holds the given one.
pub open spec fn seq_contains_version(s: Seq<Version>, v: Version) -> bool {
    exists|i: int| 0 <= i < s.len() && s[i] == v
}

/// The character for a single decimal digit.
pub open spec fn digit_char(d: int) -> char {
    if d == 0 {
        '0'
    } else if d == 1 {
        '1'
    } else if d == 2 {
        '2'
    } else if d == 3 {
        '3'
    } else if d == 4 {
        '4'
    } else if d == 5 {
        '5'
    } else if d == 6 {
        '6'
    } else if d == 7 {
        '7'
    } else if d == 8 {
        '8'
    } else {
        '9'
    }
}

/// The decimal rendering of a natural number, without leading zeros.
pub open spec fn dec_str(n: nat) -> Seq<char>
    decreases n,
{
    if n < 10 {
        seq![digit_char(n as int)]
    } else {
        dec_str(n / 10).push(digit_char((n % 10) as int))
    }
}

/// Relies on the standard decimal formatting of `u64`.
#[verifier::external_body]
fn decimal_string(n: u64) -> (s: String)
    ensures
        s@ == dec_str(n as nat),
{
    format!("{}", n)
}

/// The `major.minor.patch` rendering of a version.
pub open spec fn version_str(v: Version) -> Seq<char> {
    dec_str(v.major as nat) + "."@ + dec_str(v.minor as nat) + "."@ + dec_str(v.patch as nat)
}

impl Version {
    /// Renders the version as `major.minor.patch`.
    pub fn render(&self) -> (s: String)
        ensures
            s@ == version_str(*self),
    {
        let mut s = decimal_string(self.major);
        s.append(".");
        let minor = decimal_string(self.minor);
        s.append(minor.as_str());
        s.append(".");
        let patch = decimal_string(self.patch);
        s.append(patch.as_str());
        proof {
            assert(s@ =~= version_str(*self));
        }
        s
    }
}

} // verus!
