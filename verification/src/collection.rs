//! The local inventory: for each tool kind, the sorted set of versions
//! already installed, and the bookkeeping a fetch performs on it.

use core::marker::PhantomData;
use vstd::prelude::*;

use crate::version::{seq_contains_version, sorted_unique, version_lt, Version};

verus! {

/// Marker for a tool kind whose builds can be fetched and installed.
pub trait Distro {

}

/// The Node runtime.
pub struct NodeDistro;

/// The Yarn package manager.
pub struct YarnDistro;

/// An arbitrary installable package.
pub struct PackageDistro;

impl Distro for NodeDistro {

}

impl Distro for YarnDistro {

}

impl Distro for PackageDistro {

}

/// Inserts a version into an ascending duplicate-free list, keeping it so;
/// inserting a version already present changes nothing.
pub fn insert_version(versions: &mut Vec<Version>, x: Version)
    requires
        sorted_unique(old(versions)@),
    ensures
        sorted_unique(final(versions)@),
        forall|v: Version| seq_contains_version(final(versions)@, v) == (seq_contains_version(
            old(versions)@,
            v,
        ) || v == x),
{
    let ghost s = versions@;
    let n = versions.len();
    let mut i: usize = 0;
    while i < n && versions[i].lt(&x)
        invariant
            0 <= i <= n,
            n == s.len(),
            s == versions@,
            forall|k: int| 0 <= k < i ==> version_lt(s[k], x),
        decreases n - i,
    {
        i += 1;
    }
    if i < n {
        let same = versions[i].major == x.major && versions[i].minor == x.minor
            && versions[i].patch == x.patch;
        if same {
            proof {
                assert(s[i as int] == x);
                assert forall|v: Version|
                    seq_contains_version(versions@, v) == (seq_contains_version(s, v) || v
                        == x) by {
                    if v == x {
                        assert(seq_contains_version(s, x));
                    }
                }
            }
            return ;
        }
    }
    proof {
        if i < n {
            crate::version::lemma_version_order_total(s[i as int], x);
        }
    }
    versions.insert(i, x);
    proof {
        let u = s.subrange(0, i as int).push(x) + s.subrange(i as int, s.len() as int);
        assert(versions@ == s.insert(i as int, x));
        assert(versions@ =~= u);
        assert(u.len() == s.len() + 1);
        assert forall|k: int| 0 <= k < i implies u[k] == s[k] by {}
        assert(u[i as int] == x);
        assert forall|k: int| i < k < u.len() implies u[k] == s[k - 1] by {}
        assert forall|a: int, b: int| 0 <= a < b < u.len() implies version_lt(u[a], u[b]) by {
            if b < i {
            } else if b == i {
                assert(u[a] == s[a] && version_lt(s[a], x));
            } else if a < i {
                assert(u[a] == s[a] && u[b] == s[b - 1]);
            } else if a == i {
                assert(u[b] == s[b - 1]);
                if b - 1 > i {
                    assert(version_lt(s[i as int], s[b - 1]));
                }
            } else {
                assert(u[a] == s[a - 1] && u[b] == s[b - 1]);
            }
        }
        assert forall|v: Version|
            seq_contains_version(u, v) == (seq_contains_version(s, v) || v == x) by {
            if seq_contains_version(s, v) {
                let k = choose|k: int| 0 <= k < s.len() && s[k] == v;
                if k < i {
                    assert(u[k] == v);
                } else {
                    assert(u[k + 1] == v);
                }
            }
            if v == x {
                assert(u[i as int] == v);
            }
            if seq_contains_version(u, v) {
                let k = choose|k: int| 0 <= k < u.len() && u[k] == v;
                if k < i {
                    assert(s[k] == v);
                } else if k > i {
                    assert(s[k - 1] == v);
                }
            }
        }
    }
}

/// Sorts a list of versions into an ascending duplicate-free list holding
/// exactly the versions given.
pub fn sorted_from(list: Vec<Version>) -> (r: Vec<Version>)
    ensures
        sorted_unique(r@),
        forall|v: Version| seq_contains_version(r@, v) == seq_contains_version(list@, v),
{
    let n = list.len();
    let mut out: Vec<Version> = Vec::new();
    let mut i: usize = 0;
    while i < n
        invariant
            0 <= i <= n,
            n == list@.len(),
            sorted_unique(out@),
            forall|v: Version| seq_contains_version(out@, v) == seq_contains_version(
                list@.subrange(0, i as int),
                v,
            ),
        decreases n - i,
    {
        let ghost prefix = list@.subrange(0, i as int);
        insert_version(&mut out, list[i]);
        proof {
            let longer = list@.subrange(0, i as int + 1);
            assert(longer.drop_last() =~= prefix);
            assert forall|v: Version|
                seq_contains_version(out@, v) == seq_contains_version(longer, v) by {
                if seq_contains_version(longer, v) {
                    let k = choose|k: int| 0 <= k < longer.len() && longer[k] == v;
                    if k < i {
                        assert(prefix[k] == v);
                    } else {
                        assert(longer[k] == list@[i as int]);
                    }
                }
                if seq_contains_version(prefix, v) {
                    let k = choose|k: int| 0 <= k < prefix.len() && prefix[k] == v;
                    assert(longer[k] == v);
                }
                if v == list@[i as int] {
                    assert(longer[i as int] == v);
                }
            }
        }
        i += 1;
    }
    proof {
        assert(list@.subrange(0, n as int) =~= list@);
    }
    out
}

/// The locally installed versions of one tool kind, ascending and
/// duplicate-free. The phantom tag keeps collections of different tool
/// kinds apart at compile time.
pub struct Collection<D: Distro> {
    /// The sorted collection of the available versions in the inventory.
    pub versions: Vec<Version>,
    pub phantom: PhantomData<D>,
}

pub type NodeCollection = Collection<NodeDistro>;

pub type YarnCollection = Collection<YarnDistro>;

pub type PackageCollection = Collection<PackageDistro>;

/// The result of a fetch: either freshly downloaded and installed, or
/// already present locally with no download performed.
#[derive(Debug, Clone, PartialEq, Eq)]
pub enum Fetched<T> {
    /// The version was downloaded and installed by this fetch.
    Now(T),
    /// The version was already installed; no network or install work was
    /// performed.
    Already(T),
}

/// What a fetch must do for a resolved version, given what is already
/// installed.
#[derive(Debug, Clone, PartialEq, Eq)]
pub enum FetchPlan {
    /// The version is already installed: nothing to download.
    AlreadyInstalled(Version),
    /// The version must be downloaded and installed.
    NeedsDownload(Version),
}

/// The fetch plan for a resolved version: download exactly when the version
/// is not yet in the collection.
pub open spec fn spec_plan_fetch<D: Distro>(c: Collection<D>, v: Version) -> FetchPlan {
    if seq_contains_version(c.versions@, v) {
        FetchPlan::AlreadyInstalled(v)
    } else {
        FetchPlan::NeedsDownload(v)
    }
}

impl<D: Distro> Collection<D> {
    /// An ascending duplicate-free list of versions.
    pub open spec fn wf(&self) -> bool {
        sorted_unique(self.versions@)
    }

    pub open spec fn spec_contains(&self, v: Version) -> bool {
        seq_contains_version(self.versions@, v)
    }

    /// Builds the collection from the versions found in local state,
    /// normalizing order and duplicates.
    pub fn load(list: Vec<Version>) -> (r: Collection<D>)
        ensures
            r.wf(),
            forall|v: Version| r.spec_contains(v) == seq_contains_version(list@, v),
    {
        Collection { versions: sorted_from(list), phantom: PhantomData }
    }

    /// Tests whether this collection contains the specified tool version.
    pub fn contains(&self, version: &Version) -> (r: bool)
        ensures
            r == self.spec_contains(*version),
    {
        let n = self.versions.len();
        let mut i: usize = 0;
        while i < n
            invariant
                0 <= i <= n,
                n == self.versions@.len(),
                forall|k: int| 0 <= k < i ==> self.versions@[k] != *version,
            decreases n - i,
        {
            let e = &self.versions[i];
            if e.major == version.major && e.minor == version.minor && e.patch == version.patch {
                return true;
            }
            i += 1;
        }
        false
    }

    /// Decides what a fetch of a resolved version must do: a version already
    /// in the collection is not downloaded again.
    pub fn plan_fetch(&self, v: &Version) -> (r: FetchPlan)
        ensures
            r == spec_plan_fetch(*self, *v),
    {
        if self.contains(v) {
            FetchPlan::AlreadyInstalled(*v)
        } else {
            FetchPlan::NeedsDownload(*v)
        }
    }

    /// Records a completed fetch: a freshly downloaded version joins the
    /// collection; an already-present one leaves it unchanged.
    pub fn record_fetched(&mut self, fetched: &Fetched<Version>)
        requires
            old(self).wf(),
        ensures
            final(self).wf(),
            match *fetched {
                Fetched::Now(v) => forall|w: Version|
                    final(self).spec_contains(w) == (old(self).spec_contains(w) || w == v),
                Fetched::Already(_) => final(self).versions@ == old(self).versions@,
            },
    {
        match fetched {
            Fetched::Now(v) => {
                insert_version(&mut self.versions, *v);
            },
            Fetched::Already(_) => {},
        }
    }
}

/// The inventory of locally available tool versions: one collection per
/// tool kind, loaded once per process run and threaded explicitly.
pub struct Inventory {
    pub node: NodeCollection,
    pub yarn: YarnCollection,
    pub packages: PackageCollection,
}

impl Inventory {
    /// Assembles the inventory from the three loaded collections.
    pub fn current(node: NodeCollection, yarn: YarnCollection, packages: PackageCollection) -> (r:
        Inventory)
        ensures
            r.node == node,
            r.yarn == yarn,
            r.packages == packages,
    {
        Inventory { node, yarn, packages }
    }
}

/// A fetch of an already-installed version plans no download; by
/// `record_fetched`, recording the resulting `Already` outcome leaves the
/// collection's version set unchanged, so fetching an installed exact
/// version is idempotent.
pub proof fn lemma_fetch_already_installed<D: Distro>(c: Collection<D>, v: Version)
    requires
        c.wf(),
        c.spec_contains(v),
    ensures
        spec_plan_fetch(c, v) == FetchPlan::AlreadyInstalled(v),
{
}

} // verus!
