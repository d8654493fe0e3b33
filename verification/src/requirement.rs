//! A user-supplied version requirement: exact version, semver range,
//! "latest", or "lts". Immutable once parsed from user input.

use vstd::prelude::*;

use crate::ranges::{parse_version, valid_range, version_of, Range};
use crate::text::str_eq;
use crate::version::{version_str, Version};

verus! {

/// An abstract version requirement, as the user states it.
#[derive(Debug, Clone, PartialEq, Eq)]
pub enum VersionSpec {
    /// The newest version the registry offers.
    Latest,
    /// The newest long-term-support version; for tools without an LTS
    /// concept this aliases `Latest`.
    Lts,
    /// Any version satisfying a semver range.
    Semver(Range),
    /// One exact version, taken verbatim.
    Exact(Version),
}

/// What a requirement text denotes: the words `latest` and `lts`, then an
/// exact version, then a semver range.
pub open spec fn parses_to(s: Seq<char>, vs: VersionSpec) -> bool {
    match vs {
        VersionSpec::Latest => s == "latest"@,
        VersionSpec::Lts => s == "lts"@,
        VersionSpec::Exact(v) => s != "latest"@ && s != "lts"@ && version_of(s) == Some(
            (v.major, v.minor, v.patch),
        ),
        VersionSpec::Semver(rg) => s != "latest"@ && s != "lts"@ && version_of(s) is None
            && valid_range(s) && rg@ == s,
    }
}

/// Whether a requirement text denotes anything at all.
pub open spec fn parseable(s: Seq<char>) -> bool {
    s == "latest"@ || s == "lts"@ || version_of(s) is Some || valid_range(s)
}

/// The human-readable form of a requirement, as carried in not-found errors.
pub open spec fn spec_render(vs: VersionSpec) -> Seq<char> {
    match vs {
        VersionSpec::Latest => "latest"@,
        VersionSpec::Lts => "lts"@,
        VersionSpec::Semver(rg) => rg@,
        VersionSpec::Exact(v) => version_str(v),
    }
}

impl VersionSpec {
    /// Parses a requirement from user input: the words `latest` and `lts`,
    /// then an exact version, then a semver range; `None` when the text is
    /// none of these.
    pub fn parse(s: &str) -> (r: Option<VersionSpec>)
        ensures
            match r {
                Some(vs) => parses_to(s@, vs),
                None => !parseable(s@),
            },
    {
        if str_eq(s, "latest") {
            Some(VersionSpec::Latest)
        } else if str_eq(s, "lts") {
            Some(VersionSpec::Lts)
        } else if let Some(v) = parse_version(s) {
            Some(VersionSpec::Exact(v))
        } else if let Some(rg) = Range::parse(s) {
            Some(VersionSpec::Semver(rg))
        } else {
            None
        }
    }

    /// Renders the requirement in its human-readable form.
    pub fn render(&self) -> (r: String)
        ensures
            r@ == spec_render(*self),
    {
        match self {
            VersionSpec::Latest => String::from_str("latest"),
            VersionSpec::Lts => String::from_str("lts"),
            VersionSpec::Semver(rg) => rg.render(),
            VersionSpec::Exact(v) => v.render(),
        }
    }
}

} // verus!
