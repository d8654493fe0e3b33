//! Per-tool-kind resolution of a version requirement. Resolution has two
//! steps: planning, a pure decision of whether the registry must be
//! consulted and at which URL (an exact requirement never goes to the
//! network); and selection, which picks the resolved version out of a
//! fetched index under the rules of the requirement's variant.

use vstd::prelude::*;

use crate::collection::{spec_plan_fetch, Collection, FetchPlan, NodeDistro, PackageDistro,
    YarnDistro};
use crate::error::ErrorDetails;
use crate::hooks::{index_hook_of, latest_hook_of, resolve_url, spec_resolve_url, RegistryConfig,
    ToolHooks};
use crate::index::{match_node_version, match_package_entry, spec_match_node_version,
    spec_match_package_entry, spec_yarn_match, NodeEntry, NodeFilter, NodeFilterModel, NodeIndex,
    PackageEntry, PackageFilter, PackageFilterModel, PackageIndex, YarnIndex};
use crate::ranges::{parse_version, version_of, Range};
use crate::requirement::{spec_render, VersionSpec};
use crate::version::Version;

verus! {

/// What resolving a requirement requires of the outside world: nothing, a
/// fetch of a version index, or a fetch of a plain-text latest version.
#[derive(Debug, PartialEq, Eq)]
pub enum ResolutionPlan {
    /// The requirement resolves with no network access.
    Resolved(Version),
    /// The index at this URL must be fetched; selection then picks from it.
    FetchIndex(String),
    /// The plain-text latest-version endpoint at this URL must be fetched.
    FetchLatestText(String),
}

/// The mathematical model of a resolution plan.
pub enum PlanModel {
    Done(Version),
    GetIndex(Seq<char>),
    GetText(Seq<char>),
}

/// Whether an executable plan realizes a plan model.
pub open spec fn plan_matches_model(p: ResolutionPlan, m: PlanModel) -> bool {
    match (p, m) {
        (ResolutionPlan::Resolved(v), PlanModel::Done(w)) => v == w,
        (ResolutionPlan::FetchIndex(u), PlanModel::GetIndex(s)) => u@ == s,
        (ResolutionPlan::FetchLatestText(u), PlanModel::GetText(s)) => u@ == s,
        _ => false,
    }
}

/// The Node resolution plan: an exact requirement resolves at once; the
/// others fetch the version index, at the `latest` hook's URL for `Latest`,
/// at the `index` hook's URL for `Lts` and ranges, and at the public index
/// when no hook is given.
pub open spec fn spec_node_plan(
    matching: VersionSpec,
    hooks: Option<ToolHooks<NodeDistro>>,
    config: RegistryConfig,
) -> PlanModel {
    match matching {
        VersionSpec::Exact(v) => PlanModel::Done(v),
        VersionSpec::Latest => PlanModel::GetIndex(
            spec_resolve_url(latest_hook_of(hooks), "index.json"@, config.node_index_url@),
        ),
        VersionSpec::Lts => PlanModel::GetIndex(
            spec_resolve_url(index_hook_of(hooks), "index.json"@, config.node_index_url@),
        ),
        VersionSpec::Semver(_) => PlanModel::GetIndex(
            spec_resolve_url(index_hook_of(hooks), "index.json"@, config.node_index_url@),
        ),
    }
}

/// The Yarn resolution plan: `Latest` reads the plain-text latest-version
/// endpoint, `Lts` aliases `Latest` (Yarn has no LTS concept), a range
/// fetches the release index, and an exact requirement resolves at once.
pub open spec fn spec_yarn_plan(
    matching: VersionSpec,
    hooks: Option<ToolHooks<YarnDistro>>,
    config: RegistryConfig,
) -> PlanModel {
    match matching {
        VersionSpec::Exact(v) => PlanModel::Done(v),
        VersionSpec::Latest => PlanModel::GetText(
            spec_resolve_url(latest_hook_of(hooks), "latest-version"@, config.yarn_latest_url@),
        ),
        VersionSpec::Lts => PlanModel::GetText(
            spec_resolve_url(latest_hook_of(hooks), "latest-version"@, config.yarn_latest_url@),
        ),
        VersionSpec::Semver(_) => PlanModel::GetIndex(
            spec_resolve_url(index_hook_of(hooks), "releases"@, config.yarn_index_url@),
        ),
    }
}

/// The URL of a package's metadata when no hook overrides it.
pub open spec fn spec_package_default_url(root: Seq<char>, name: Seq<char>) -> Seq<char> {
    root + "/"@ + name
}

/// The package resolution plan: an exact requirement resolves at once; the
/// others fetch the package's metadata, at the `latest` hook's URL for
/// `Latest` and `Lts`, at the `index` hook's URL for ranges, and under the
/// public registry root when no hook is given.
pub open spec fn spec_package_plan(
    name: Seq<char>,
    matching: VersionSpec,
    hooks: Option<ToolHooks<PackageDistro>>,
    config: RegistryConfig,
) -> PlanModel {
    match matching {
        VersionSpec::Exact(v) => PlanModel::Done(v),
        VersionSpec::Latest => PlanModel::GetIndex(
            spec_resolve_url(
                latest_hook_of(hooks),
                name,
                spec_package_default_url(config.package_registry_root@, name),
            ),
        ),
        VersionSpec::Lts => PlanModel::GetIndex(
            spec_resolve_url(
                latest_hook_of(hooks),
                name,
                spec_package_default_url(config.package_registry_root@, name),
            ),
        ),
        VersionSpec::Semver(_) => PlanModel::GetIndex(
            spec_resolve_url(
                index_hook_of(hooks),
                name,
                spec_package_default_url(config.package_registry_root@, name),
            ),
        ),
    }
}

/// For a range requirement, resolution returns the version of the first
/// entry (in the index's newest-to-oldest scan order) satisfying the range,
/// and reports not-found exactly when no entry satisfies it.
pub proof fn lemma_node_semver_takes_first_match(vs: VersionSpec, entries: Seq<NodeEntry>)
    requires
        vs is Semver,
    ensures
        match spec_node_resolve(vs, entries) {
            Some(v) => exists|i: int|
                crate::index::is_first_node_match(
                    NodeFilterModel::InRange(vs->Semver_0@),
                    entries,
                    i,
                ) && v == entries[i].version,
            None => forall|i: int|
                0 <= i < entries.len() ==> !crate::ranges::range_matches(
                    vs->Semver_0@,
                    entries[i].version.major,
                    entries[i].version.minor,
                    entries[i].version.patch,
                ),
        },
{
    crate::index::lemma_match_node_version_first(
        NodeFilterModel::InRange(vs->Semver_0@),
        entries,
    );
}

/// Resolving an exact version consults no hook and performs no network
/// access, for every tool kind: the plan is complete at once and yields the
/// requested version verbatim.
pub proof fn lemma_resolve_exact_no_network(
    v: Version,
    node_hooks: Option<ToolHooks<NodeDistro>>,
    yarn_hooks: Option<ToolHooks<YarnDistro>>,
    package_hooks: Option<ToolHooks<PackageDistro>>,
    name: Seq<char>,
    config: RegistryConfig,
)
    ensures
        spec_node_plan(VersionSpec::Exact(v), node_hooks, config) == PlanModel::Done(v),
        spec_yarn_plan(VersionSpec::Exact(v), yarn_hooks, config) == PlanModel::Done(v),
        spec_package_plan(name, VersionSpec::Exact(v), package_hooks, config) == PlanModel::Done(
            v,
        ),
{
}

/// For Yarn, resolving `Lts` is observationally identical to resolving
/// `Latest`: the plans are equal, and selection for both reads the same
/// latest-version text through `resolve_latest_from`.
pub proof fn lemma_yarn_lts_aliases_latest(
    hooks: Option<ToolHooks<YarnDistro>>,
    config: RegistryConfig,
)
    ensures
        spec_yarn_plan(VersionSpec::Lts, hooks, config) == spec_yarn_plan(
            VersionSpec::Latest,
            hooks,
            config,
        ),
{
}

/// The version a Node requirement selects out of the index: the requested
/// version verbatim for `Exact`, else the version of the first entry (in
/// newest-to-oldest scan order) that the requirement admits.
pub open spec fn spec_node_resolve(matching: VersionSpec, entries: Seq<NodeEntry>) -> Option<
    Version,
> {
    match matching {
        VersionSpec::Exact(v) => Some(v),
        VersionSpec::Latest => spec_match_node_version(NodeFilterModel::Any, entries),
        VersionSpec::Lts => spec_match_node_version(NodeFilterModel::Lts, entries),
        VersionSpec::Semver(rg) => spec_match_node_version(NodeFilterModel::InRange(rg@), entries),
    }
}

impl Collection<NodeDistro> {
    /// Plans the resolution of a Node requirement.
    pub fn resolve_plan(
        matching: &VersionSpec,
        hooks: &Option<ToolHooks<NodeDistro>>,
        config: &RegistryConfig,
    ) -> (r: ResolutionPlan)
        ensures
            plan_matches_model(r, spec_node_plan(*matching, *hooks, *config)),
    {
        match matching {
            VersionSpec::Exact(v) => ResolutionPlan::Resolved(*v),
            VersionSpec::Latest => {
                let hook = match hooks {
                    Some(th) => &th.latest,
                    None => &None,
                };
                ResolutionPlan::FetchIndex(
                    resolve_url(hook, "index.json", &config.node_index_url),
                )
            },
            _ => {
                let hook = match hooks {
                    Some(th) => &th.index,
                    None => &None,
                };
                ResolutionPlan::FetchIndex(
                    resolve_url(hook, "index.json", &config.node_index_url),
                )
            },
        }
    }

    /// Selects the resolved Node version out of a fetched index: the newest
    /// entry for `Latest`, the newest LTS-flagged entry for `Lts`, the
    /// newest entry satisfying the range for `Semver`, the requested version
    /// verbatim for `Exact`; a typed not-found error, carrying the
    /// human-readable requirement, when no entry qualifies.
    pub fn resolve(matching: &VersionSpec, index: &NodeIndex) -> (r: Result<Version, ErrorDetails>)
        ensures
            match spec_node_resolve(*matching, index.entries@) {
                Some(v) => r == Ok::<Version, ErrorDetails>(v),
                None => r matches Err(e) && e matches ErrorDetails::NodeVersionNotFound {
                    matching: m,
                } && m@ == spec_render(*matching),
            },
    {
        match matching {
            VersionSpec::Exact(v) => Ok(*v),
            VersionSpec::Latest => match match_node_version(index, &NodeFilter::Any) {
                Some(v) => Ok(v),
                None => Err(
                    ErrorDetails::NodeVersionNotFound { matching: matching.render() },
                ),
            },
            VersionSpec::Lts => match match_node_version(index, &NodeFilter::Lts) {
                Some(v) => Ok(v),
                None => Err(
                    ErrorDetails::NodeVersionNotFound { matching: matching.render() },
                ),
            },
            VersionSpec::Semver(rg) => match match_node_version(
                index,
                &NodeFilter::InRange(rg.duplicate()),
            ) {
                Some(v) => Ok(v),
                None => Err(
                    ErrorDetails::NodeVersionNotFound { matching: matching.render() },
                ),
            },
        }
    }

    /// Fetches a Node version matching the requirement: resolution is
    /// always performed, even for a version already installed (to detect
    /// drift), and the plan downloads exactly when the resolved version is
    /// not yet in the collection. The caller performs the download and
    /// records the outcome with `record_fetched`.
    pub fn fetch(&self, matching: &VersionSpec, index: &NodeIndex) -> (r: Result<
        FetchPlan,
        ErrorDetails,
    >)
        ensures
            match spec_node_resolve(*matching, index.entries@) {
                Some(v) => r == Ok::<FetchPlan, ErrorDetails>(spec_plan_fetch(*self, v)),
                None => r matches Err(e) && e matches ErrorDetails::NodeVersionNotFound {
                    matching: m,
                } && m@ == spec_render(*matching),
            },
    {
        let version = Self::resolve(matching, index)?;
        Ok(self.plan_fetch(&version))
    }
}

impl Collection<YarnDistro> {
    /// Plans the resolution of a Yarn requirement.
    pub fn resolve_plan(
        matching: &VersionSpec,
        hooks: &Option<ToolHooks<YarnDistro>>,
        config: &RegistryConfig,
    ) -> (r: ResolutionPlan)
        ensures
            plan_matches_model(r, spec_yarn_plan(*matching, *hooks, *config)),
    {
        match matching {
            VersionSpec::Exact(v) => ResolutionPlan::Resolved(*v),
            VersionSpec::Semver(_) => {
                let hook = match hooks {
                    Some(th) => &th.index,
                    None => &None,
                };
                ResolutionPlan::FetchIndex(
                    resolve_url(hook, "releases", &config.yarn_index_url),
                )
            },
            _ => {
                let hook = match hooks {
                    Some(th) => &th.latest,
                    None => &None,
                };
                ResolutionPlan::FetchLatestText(
                    resolve_url(hook, "latest-version", &config.yarn_latest_url),
                )
            },
        }
    }

    /// Reads the resolved version out of the latest-version endpoint's
    /// plain-text body; a parse failure is a typed metadata error.
    pub fn resolve_latest_from(body: &str) -> (r: Result<Version, ErrorDetails>)
        ensures
            match version_of(body@) {
                Some(t) => r == Ok::<Version, ErrorDetails>(
                    Version { major: t.0, minor: t.1, patch: t.2 },
                ),
                None => r matches Err(e) && e matches ErrorDetails::ParseMetadataError {
                    tool: t,
                } && t@ == "Yarn"@,
            },
    {
        match parse_version(body) {
            Some(v) => Ok(v),
            None => Err(ErrorDetails::ParseMetadataError { tool: String::from_str("Yarn") }),
        }
    }

    /// Selects the newest release satisfying the range out of the fetched
    /// release index, whose ordering was normalized on construction; a typed
    /// not-found error, carrying the range text, when none does.
    pub fn resolve_semver_from(range: &Range, index: &YarnIndex) -> (r: Result<
        Version,
        ErrorDetails,
    >)
        ensures
            match spec_yarn_match(range@, index.entries_seq()) {
                Some(v) => r == Ok::<Version, ErrorDetails>(v),
                None => r matches Err(e) && e matches ErrorDetails::YarnVersionNotFound {
                    matching: m,
                } && m@ == range@,
            },
    {
        match index.newest_matching(range) {
            Some(v) => Ok(v),
            None => Err(ErrorDetails::YarnVersionNotFound { matching: range.render() }),
        }
    }
}

/// The selection predicate a requirement induces over a package's metadata
/// entries: the entry marked latest for `Latest` and `Lts`, the range for
/// `Semver`, the exact version for `Exact`.
pub open spec fn package_filter_of(matching: VersionSpec, latest: Version) -> PackageFilterModel {
    match matching {
        VersionSpec::Latest => PackageFilterModel::Is(latest),
        VersionSpec::Lts => PackageFilterModel::Is(latest),
        VersionSpec::Semver(rg) => PackageFilterModel::InRange(rg@),
        VersionSpec::Exact(v) => PackageFilterModel::Is(v),
    }
}

impl Collection<PackageDistro> {
    /// Plans the resolution of a package requirement.
    pub fn resolve_plan(
        name: &str,
        matching: &VersionSpec,
        hooks: &Option<ToolHooks<PackageDistro>>,
        config: &RegistryConfig,
    ) -> (r: ResolutionPlan)
        ensures
            plan_matches_model(r, spec_package_plan(name@, *matching, *hooks, *config)),
    {
        match matching {
            VersionSpec::Exact(v) => ResolutionPlan::Resolved(*v),
            _ => {
                let hook = match (matching, hooks) {
                    (VersionSpec::Semver(_), Some(th)) => &th.index,
                    (_, Some(th)) => &th.latest,
                    (_, None) => &None,
                };
                let mut default = config.package_registry_root.clone();
                default.append("/");
                default.append(name);
                proof {
                    assert(default@ =~= spec_package_default_url(
                        config.package_registry_root@,
                        name@,
                    ));
                }
                ResolutionPlan::FetchIndex(resolve_url(hook, name, &default))
            },
        }
    }

    /// Selects the first metadata entry satisfying the requirement, scanning
    /// the entries in the order the registry served them; a typed not-found
    /// error, carrying the package name and the human-readable requirement,
    /// when no entry qualifies.
    pub fn resolve_from<'a>(name: &str, matching: &VersionSpec, index: &'a PackageIndex) -> (r:
        Result<&'a PackageEntry, ErrorDetails>)
        ensures
            match spec_match_package_entry(
                package_filter_of(*matching, index.latest),
                index.entries@,
            ) {
                Some(e) => r matches Ok(res) && *res == e,
                None => r matches Err(err) && err matches ErrorDetails::PackageVersionNotFound {
                    name: n,
                    matching: m,
                } && n@ == name@ && m@ == spec_render(*matching),
            },
    {
        let filter = match matching {
            VersionSpec::Latest => PackageFilter::Is(index.latest),
            VersionSpec::Lts => PackageFilter::Is(index.latest),
            VersionSpec::Semver(rg) => PackageFilter::InRange(rg.duplicate()),
            VersionSpec::Exact(v) => PackageFilter::Is(*v),
        };
        match match_package_entry(index, &filter) {
            Some(e) => Ok(e),
            None => Err(
                ErrorDetails::PackageVersionNotFound {
                    name: name.to_owned(),
                    matching: matching.render(),
                },
            ),
        }
    }
}

} // verus!
