//! Typed registry indices for the three tool kinds, and the selection
//! functions that scan them for the first entry satisfying a requirement.

use vstd::prelude::*;

use crate::ranges::{range_matches, Range};
use crate::version::{seq_contains_version, sorted_unique, version_lt, Version};

verus! {

/// The set of build files the registry offers for one Node version.
#[derive(Debug, Clone)]
pub struct NodeDistroFiles {
    pub files: Vec<String>,
}

/// One entry of the Node registry index.
#[derive(Debug, Clone)]
pub struct NodeEntry {
    pub version: Version,
    /// The companion package-manager version shipped with this release.
    pub npm: Version,
    pub files: NodeDistroFiles,
    pub lts: bool,
}

/// The Node registry index, ordered as the registry serves it:
/// newest to oldest.
#[derive(Debug, Clone)]
pub struct NodeIndex {
    pub entries: Vec<NodeEntry>,
}

/// One entry of a package's registry metadata.
#[derive(Debug, Clone, PartialEq, Eq)]
pub struct PackageEntry {
    pub version: Version,
    /// Download URL of the package tarball.
    pub tarball: String,
    /// Checksum of the tarball.
    pub shasum: String,
}

/// A package's registry metadata: the version marked "latest" plus the
/// per-version entries, in the order the registry serves them.
#[derive(Debug, Clone)]
pub struct PackageIndex {
    pub latest: Version,
    pub entries: Vec<PackageEntry>,
}

/// A selection predicate over Node index entries.
#[derive(Debug)]
pub enum NodeFilter {
    /// Any entry (used to take the newest).
    Any,
    /// Entries carrying the long-term-support flag.
    Lts,
    /// Entries whose version satisfies a semver range.
    InRange(Range),
}

/// The mathematical model of a Node filter: a range is modelled by its
/// source text.
pub enum NodeFilterModel {
    Any,
    Lts,
    InRange(Seq<char>),
}

/// The model of a Node filter.
pub open spec fn node_filter_view(f: NodeFilter) -> NodeFilterModel {
    match f {
        NodeFilter::Any => NodeFilterModel::Any,
        NodeFilter::Lts => NodeFilterModel::Lts,
        NodeFilter::InRange(rg) => NodeFilterModel::InRange(rg@),
    }
}

pub open spec fn node_filter_matches(f: NodeFilterModel, e: NodeEntry) -> bool {
    match f {
        NodeFilterModel::Any => true,
        NodeFilterModel::Lts => e.lts,
        NodeFilterModel::InRange(rg) => range_matches(
            rg,
            e.version.major,
            e.version.minor,
            e.version.patch,
        ),
    }
}

/// The version of the first entry satisfying the filter, scanning the
/// entries in the order given.
pub open spec fn spec_match_node_version(f: NodeFilterModel, s: Seq<NodeEntry>) -> Option<Version>
    decreases s.len(),
{
    if s.len() == 0 {
        None
    } else if node_filter_matches(f, s[0]) {
        Some(s[0].version)
    } else {
        spec_match_node_version(f, s.drop_first())
    }
}

///`i` is the position of the first entry satisfying the filter.
pub open spec fn is_first_node_match(f: NodeFilterModel, s: Seq<NodeEntry>, i: int) -> bool {
    &&& 0 <= i < s.len()
    &&& node_filter_matches(f, s[i])
    &&& forall|j: int| 0 <= j < i ==> !node_filter_matches(f, s[j])
}

/// Selection returns the first entry (in scan order) satisfying the filter,
/// or nothing when no entry does.
pub proof fn lemma_match_node_version_first(f: NodeFilterModel, s: Seq<NodeEntry>)
    ensures
        match spec_match_node_version(f, s) {
            Some(v) => exists|i: int| is_first_node_match(f, s, i) && v == s[i].version,
            None => forall|i: int| 0 <= i < s.len() ==> !node_filter_matches(f, s[i]),
        },
    decreases s.len(),
{
    if s.len() == 0 {
    } else if node_filter_matches(f, s[0]) {
        assert(is_first_node_match(f, s, 0));
    } else {
        let t = s.drop_first();
        lemma_match_node_version_first(f, t);
        match spec_match_node_version(f, t) {
            Some(v) => {
                let i = choose|i: int| is_first_node_match(f, t, i) && v == t[i].version;
                assert forall|j: int| 0 <= j < i + 1 implies !node_filter_matches(f, s[j]) by {
                    if j >= 1 {
                        assert(t[j - 1] == s[j]);
                    }
                }
                assert(is_first_node_match(f, s, i + 1) && v == s[i + 1].version);
            },
            None => {
                assert forall|i: int| 0 <= i < s.len() implies !node_filter_matches(
                    f,
                    s[i],
                ) by {
                    if i >= 1 {
                        assert(t[i - 1] == s[i]);
                    }
                }
            },
        }
    }
}

/// Scans the Node index for the first entry satisfying the filter and
/// returns its version.
pub fn match_node_version(index: &NodeIndex, filter: &NodeFilter) -> (r: Option<Version>)
    ensures
        r == spec_match_node_version(node_filter_view(*filter), index.entries@),
{
    let n = index.entries.len();
    let ghost s = index.entries@;
    proof {
        assert(s.subrange(0, n as int) =~= s);
    }
    let mut i: usize = 0;
    while i < n
        invariant
            0 <= i <= n,
            n == s.len(),
            s == index.entries@,
            spec_match_node_version(node_filter_view(*filter), s) == spec_match_node_version(
                node_filter_view(*filter),
                s.subrange(i as int, n as int),
            ),
        decreases n - i,
    {
        let e = &index.entries[i];
        let matched = match filter {
            NodeFilter::Any => true,
            NodeFilter::Lts => e.lts,
            NodeFilter::InRange(rg) => rg.matches(&e.version),
        };
        proof {
            assert(s.subrange(i as int, n as int)[0] == s[i as int]);
        }
        if matched {
            return Some(e.version);
        }
        proof {
            assert(s.subrange(i as int, n as int).drop_first() =~= s.subrange(
                i as int + 1,
                n as int,
            ));
        }
        i += 1;
    }
    proof {
        assert(s.subrange(n as int, n as int).len() == 0);
    }
    None
}

/// A selection predicate over package entries.
pub enum PackageFilter {
    /// The entry whose version is exactly the one given.
    Is(Version),
    /// Entries whose version satisfies a semver range.
    InRange(Range),
}

/// The mathematical model of a package filter: a range is modelled by its
/// source text.
pub enum PackageFilterModel {
    Is(Version),
    InRange(Seq<char>),
}

/// The model of a package filter.
pub open spec fn package_filter_view(f: PackageFilter) -> PackageFilterModel {
    match f {
        PackageFilter::Is(v) => PackageFilterModel::Is(v),
        PackageFilter::InRange(rg) => PackageFilterModel::InRange(rg@),
    }
}

pub open spec fn package_filter_matches(f: PackageFilterModel, e: PackageEntry) -> bool {
    match f {
        PackageFilterModel::Is(v) => e.version == v,
        PackageFilterModel::InRange(rg) => range_matches(
            rg,
            e.version.major,
            e.version.minor,
            e.version.patch,
        ),
    }
}

/// The first package entry satisfying the filter, scanning the entries in
/// the order given.
pub open spec fn spec_match_package_entry(f: PackageFilterModel, s: Seq<PackageEntry>) -> Option<
    PackageEntry,
>
    decreases s.len(),
{
    if s.len() == 0 {
        None
    } else if package_filter_matches(f, s[0]) {
        Some(s[0])
    } else {
        spec_match_package_entry(f, s.drop_first())
    }
}

/// `i` is the position of the first package entry satisfying the filter.
pub open spec fn is_first_package_match(f: PackageFilterModel, s: Seq<PackageEntry>, i: int) -> bool {
    &&& 0 <= i < s.len()
    &&& package_filter_matches(f, s[i])
    &&& forall|j: int| 0 <= j < i ==> !package_filter_matches(f, s[j])
}

/// Selection returns the first package entry (in scan order) satisfying the
/// filter, or nothing when no entry does.
pub proof fn lemma_match_package_entry_first(f: PackageFilterModel, s: Seq<PackageEntry>)
    ensures
        match spec_match_package_entry(f, s) {
            Some(e) => exists|i: int| is_first_package_match(f, s, i) && e == s[i],
            None => forall|i: int| 0 <= i < s.len() ==> !package_filter_matches(f, s[i]),
        },
    decreases s.len(),
{
    if s.len() == 0 {
    } else if package_filter_matches(f, s[0]) {
        assert(is_first_package_match(f, s, 0));
    } else {
        let t = s.drop_first();
        lemma_match_package_entry_first(f, t);
        match spec_match_package_entry(f, t) {
            Some(e) => {
                let i = choose|i: int| is_first_package_match(f, t, i) && e == t[i];
                assert forall|j: int| 0 <= j < i + 1 implies !package_filter_matches(
                    f,
                    s[j],
                ) by {
                    if j >= 1 {
                        assert(t[j - 1] == s[j]);
                    }
                }
                assert(is_first_package_match(f, s, i + 1) && e == s[i + 1]);
            },
            None => {
                assert forall|i: int| 0 <= i < s.len() implies !package_filter_matches(
                    f,
                    s[i],
                ) by {
                    if i >= 1 {
                        assert(t[i - 1] == s[i]);
                    }
                }
            },
        }
    }
}

/// Scans a package's metadata entries for the first one satisfying the
/// filter.
pub fn match_package_entry<'a>(index: &'a PackageIndex, filter: &PackageFilter) -> (r: Option<
    &'a PackageEntry,
>)
    ensures
        match r {
            Some(e) => spec_match_package_entry(package_filter_view(*filter), index.entries@)
                == Some(*e),
            None => spec_match_package_entry(package_filter_view(*filter), index.entries@)
                is None,
        },
{
    let n = index.entries.len();
    let ghost s = index.entries@;
    proof {
        assert(s.subrange(0, n as int) =~= s);
    }
    let mut i: usize = 0;
    while i < n
        invariant
            0 <= i <= n,
            n == s.len(),
            s == index.entries@,
            spec_match_package_entry(package_filter_view(*filter), s)
                == spec_match_package_entry(
                package_filter_view(*filter),
                s.subrange(i as int, n as int),
            ),
        decreases n - i,
    {
        let e = &index.entries[i];
        let matched = match filter {
            PackageFilter::Is(v) => e.version.major == v.major && e.version.minor == v.minor
                && e.version.patch == v.patch,
            PackageFilter::InRange(rg) => rg.matches(&e.version),
        };
        proof {
            assert(s.subrange(i as int, n as int)[0] == s[i as int]);
        }
        if matched {
            return Some(e);
        }
        proof {
            assert(s.subrange(i as int, n as int).drop_first() =~= s.subrange(
                i as int + 1,
                n as int,
            ));
        }
        i += 1;
    }
    proof {
        assert(s.subrange(n as int, n as int).len() == 0);
    }
    None
}

/// The public Yarn index: the release versions, kept sorted oldest to
/// newest with no duplicates, however the registry ordered them.
#[derive(Debug, Clone)]
pub struct YarnIndex {
    entries: Vec<Version>,
}

/// The newest version satisfying the range: the releases are scanned newest
/// first, so on an ascending list the scan runs from the back.
pub open spec fn spec_yarn_match(range: Seq<char>, s: Seq<Version>) -> Option<Version>
    decreases s.len(),
{
    if s.len() == 0 {
        None
    } else if range_matches(range, s.last().major, s.last().minor, s.last().patch) {
        Some(s.last())
    } else {
        spec_yarn_match(range, s.drop_last())
    }
}

impl YarnIndex {
    pub closed spec fn entries_seq(&self) -> Seq<Version> {
        self.entries@
    }

    pub open spec fn wf(&self) -> bool {
        sorted_unique(self.entries_seq())
    }

    /// Builds the index from the versions as the registry listed them,
    /// normalizing the ordering: the result is ascending and duplicate-free
    /// and holds exactly the versions given.
    pub fn from_entries(list: Vec<Version>) -> (r: YarnIndex)
        ensures
            r.wf(),
            forall|v: Version| seq_contains_version(r.entries_seq(), v) == seq_contains_version(
                list@,
                v,
            ),
    {
        let entries = crate::collection::sorted_from(list);
        YarnIndex { entries }
    }

    /// The newest release satisfying the range: the normalized release list
    /// is scanned newest to oldest and the first match returned.
    pub fn newest_matching(&self, range: &Range) -> (r: Option<Version>)
        ensures
            r == spec_yarn_match(range@, self.entries_seq()),
    {
        let ghost s = self.entries@;
        let mut i: usize = self.entries.len();
        proof {
            assert(s.subrange(0, i as int) =~= s);
        }
        while i > 0
            invariant
                0 <= i <= s.len(),
                s == self.entries@,
                spec_yarn_match(range@, s) == spec_yarn_match(range@, s.subrange(0, i as int)),
            decreases i,
        {
            let e = &self.entries[i - 1];
            proof {
                assert(s.subrange(0, i as int).last() == s[i as int - 1]);
            }
            if range_matches_at(range, e) {
                return Some(*e);
            }
            proof {
                assert(s.subrange(0, i as int).drop_last() =~= s.subrange(0, i as int - 1));
            }
            i -= 1;
        }
        proof {
            assert(s.subrange(0, 0).len() == 0);
        }
        None
    }
}

fn range_matches_at(range: &Range, v: &Version) -> (b: bool)
    ensures
        b == range_matches(range@, v.major, v.minor, v.patch),
{
    range.matches(v)
}

/// `i` is the position of the last (newest, on an ascending list) version
/// satisfying the range.
pub open spec fn is_last_yarn_match(range: Seq<char>, s: Seq<Version>, i: int) -> bool {
    &&& 0 <= i < s.len()
    &&& range_matches(range, s[i].major, s[i].minor, s[i].patch)
    &&& forall|j: int|
        i < j < s.len() ==> !range_matches(range, s[j].major, s[j].minor, s[j].patch)
}

/// On an ascending release list, the Yarn scan returns the maximum version
/// satisfying the range, or nothing when no release does.
pub proof fn lemma_yarn_match_is_max(range: Seq<char>, s: Seq<Version>)
    requires
        sorted_unique(s),
    ensures
        match spec_yarn_match(range, s) {
            Some(v) => seq_contains_version(s, v) && range_matches(range, v.major, v.minor, v.patch)
                && forall|j: int|
                0 <= j < s.len() && range_matches(range, s[j].major, s[j].minor, s[j].patch)
                    ==> crate::version::version_le(s[j], v),
            None => forall|i: int|
                0 <= i < s.len() ==> !range_matches(range, s[i].major, s[i].minor, s[i].patch),
        },
{
    lemma_yarn_match_newest(range, s);
    match spec_yarn_match(range, s) {
        Some(v) => {
            let i = choose|i: int| is_last_yarn_match(range, s, i) && v == s[i];
            assert(seq_contains_version(s, v));
            assert forall|j: int|
                0 <= j < s.len() && range_matches(range, s[j].major, s[j].minor, s[j].patch)
                    implies crate::version::version_le(s[j], v) by {
                if j > i {
                    assert(!range_matches(range, s[j].major, s[j].minor, s[j].patch));
                } else if j < i {
                    assert(version_lt(s[j], s[i]));
                }
            }
        },
        None => {},
    }
}

/// The Yarn scan returns the first match in newest-to-oldest order, or
/// nothing when no release satisfies the range.
pub proof fn lemma_yarn_match_newest(range: Seq<char>, s: Seq<Version>)
    ensures
        match spec_yarn_match(range, s) {
            Some(v) => exists|i: int| is_last_yarn_match(range, s, i) && v == s[i],
            None => forall|i: int|
                0 <= i < s.len() ==> !range_matches(range, s[i].major, s[i].minor, s[i].patch),
        },
    decreases s.len(),
{
    if s.len() == 0 {
    } else if range_matches(range, s.last().major, s.last().minor, s.last().patch) {
        assert(is_last_yarn_match(range, s, s.len() - 1));
    } else {
        let t = s.drop_last();
        lemma_yarn_match_newest(range, t);
        match spec_yarn_match(range, t) {
            Some(v) => {
                let i = choose|i: int| is_last_yarn_match(range, t, i) && v == t[i];
                assert forall|j: int| i < j < s.len() implies !range_matches(
                    range,
                    s[j].major,
                    s[j].minor,
                    s[j].patch,
                ) by {
                    if j < s.len() - 1 {
                        assert(t[j] == s[j]);
                    }
                }
                assert(is_last_yarn_match(range, s, i) && v == s[i]);
            },
            None => {
                assert forall|i: int| 0 <= i < s.len() implies !range_matches(
                    range,
                    s[i].major,
                    s[i].minor,
                    s[i].patch,
                ) by {
                    if i < s.len() - 1 {
                        assert(t[i] == s[i]);
                    }
                }
            },
        }
    }
}

} // verus!
