use std::marker::PhantomData;

use notion_core::collection::{
    Collection, FetchPlan, Fetched, Inventory, NodeDistro, PackageDistro, YarnDistro,
};
use notion_core::error::ErrorDetails;
use notion_core::hooks::{Hook, RegistryConfig, ToolHooks};
use notion_core::index::{
    NodeDistroFiles, NodeEntry, NodeIndex, PackageEntry, PackageIndex, YarnIndex,
};
use notion_core::ranges::Range;
use notion_core::requirement::VersionSpec;
use notion_core::resolve::ResolutionPlan;
use notion_core::version::Version;

fn entry(major: u64, minor: u64, patch: u64, lts: bool) -> NodeEntry {
    NodeEntry {
        version: Version::new(major, minor, patch),
        npm: Version::new(9, 0, 0),
        files: NodeDistroFiles {
            files: vec!["linux-x64".to_string(), "win-x64-zip".to_string()],
        },
        lts,
    }
}

fn sample_node_index() -> NodeIndex {
    NodeIndex {
        entries: vec![
            entry(20, 0, 0, false),
            entry(18, 19, 0, true),
            entry(16, 20, 0, true),
        ],
    }
}

#[test]
fn node_lts_takes_first_flagged_entry() {
    let index = sample_node_index();
    let r = Collection::<NodeDistro>::resolve(&VersionSpec::Lts, &index);
    assert_eq!(r, Ok(Version::new(18, 19, 0)));
}

#[test]
fn node_latest_takes_first_entry() {
    let index = sample_node_index();
    let r = Collection::<NodeDistro>::resolve(&VersionSpec::Latest, &index);
    assert_eq!(r, Ok(Version::new(20, 0, 0)));
}

#[test]
fn node_semver_takes_first_match_in_scan_order() {
    let index = sample_node_index();
    let rg = Range::parse("^16").expect("valid range");
    let r = Collection::<NodeDistro>::resolve(&VersionSpec::Semver(rg), &index);
    assert_eq!(r, Ok(Version::new(16, 20, 0)));
    let rg18 = Range::parse(">=16, <19").expect("valid range");
    let r18 = Collection::<NodeDistro>::resolve(&VersionSpec::Semver(rg18), &index);
    assert_eq!(r18, Ok(Version::new(18, 19, 0)));
}

#[test]
fn node_semver_not_found_reports_range_text() {
    let index = sample_node_index();
    let rg = Range::parse("^99").expect("valid range");
    let r = Collection::<NodeDistro>::resolve(&VersionSpec::Semver(rg), &index);
    assert_eq!(
        r,
        Err(ErrorDetails::NodeVersionNotFound {
            matching: "^99".to_string()
        })
    );
}

#[test]
fn node_latest_on_empty_index_is_not_found() {
    let index = NodeIndex { entries: vec![] };
    let r = Collection::<NodeDistro>::resolve(&VersionSpec::Latest, &index);
    assert_eq!(
        r,
        Err(ErrorDetails::NodeVersionNotFound {
            matching: "latest".to_string()
        })
    );
}

#[test]
fn node_exact_resolves_verbatim_without_index_entries() {
    let index = NodeIndex { entries: vec![] };
    let v = Version::new(4, 5, 6);
    let r = Collection::<NodeDistro>::resolve(&VersionSpec::Exact(v), &index);
    assert_eq!(r, Ok(v));
}

#[test]
fn exact_plans_resolve_without_network_for_every_kind() {
    let config = RegistryConfig::public();
    let v = Version::new(1, 2, 3);
    let spec = VersionSpec::Exact(v);
    assert_eq!(
        Collection::<NodeDistro>::resolve_plan(&spec, &None, &config),
        ResolutionPlan::Resolved(v)
    );
    assert_eq!(
        Collection::<YarnDistro>::resolve_plan(&spec, &None, &config),
        ResolutionPlan::Resolved(v)
    );
    assert_eq!(
        Collection::<PackageDistro>::resolve_plan("left-pad", &spec, &None, &config),
        ResolutionPlan::Resolved(v)
    );
}

#[test]
fn node_plan_uses_public_index_or_hook() {
    let config = RegistryConfig::public();
    assert_eq!(
        Collection::<NodeDistro>::resolve_plan(&VersionSpec::Latest, &None, &config),
        ResolutionPlan::FetchIndex("https://nodejs.org/dist/index.json".to_string())
    );
    let hooks = Some(ToolHooks::<NodeDistro> {
        latest: Some(Hook {
            base: "https://mirror.example/node".to_string(),
        }),
        index: None,
        phantom: PhantomData,
    });
    assert_eq!(
        Collection::<NodeDistro>::resolve_plan(&VersionSpec::Latest, &hooks, &config),
        ResolutionPlan::FetchIndex("https://mirror.example/node/index.json".to_string())
    );
    // The `latest` hook covers only the latest endpoint: an LTS resolution
    // reads the index endpoint, which this hook set does not override.
    assert_eq!(
        Collection::<NodeDistro>::resolve_plan(&VersionSpec::Lts, &hooks, &config),
        ResolutionPlan::FetchIndex("https://nodejs.org/dist/index.json".to_string())
    );
}

#[test]
fn yarn_lts_plan_equals_latest_plan() {
    let config = RegistryConfig::public();
    let lts = Collection::<YarnDistro>::resolve_plan(&VersionSpec::Lts, &None, &config);
    let latest = Collection::<YarnDistro>::resolve_plan(&VersionSpec::Latest, &None, &config);
    assert_eq!(lts, latest);
    assert_eq!(
        latest,
        ResolutionPlan::FetchLatestText("https://yarnpkg.com/latest-version".to_string())
    );
}

#[test]
fn yarn_semver_plan_fetches_release_index() {
    let config = RegistryConfig::public();
    let rg = Range::parse("^1").expect("valid range");
    assert_eq!(
        Collection::<YarnDistro>::resolve_plan(&VersionSpec::Semver(rg), &None, &config),
        ResolutionPlan::FetchIndex("https://api.github.com/repos/yarnpkg/yarn/releases".to_string())
    );
}

#[test]
fn yarn_latest_reads_plain_text_body() {
    assert_eq!(
        Collection::<YarnDistro>::resolve_latest_from("1.22.19"),
        Ok(Version::new(1, 22, 19))
    );
    assert_eq!(
        Collection::<YarnDistro>::resolve_latest_from("not a version"),
        Err(ErrorDetails::ParseMetadataError {
            tool: "Yarn".to_string()
        })
    );
}

#[test]
fn yarn_semver_selects_newest_match_after_normalizing_order() {
    // The registry listed releases newest first; the index normalizes to
    // ascending order, and selection scans newest to oldest.
    let index = YarnIndex::from_entries(vec![
        Version::new(1, 22, 19),
        Version::new(1, 21, 1),
        Version::new(1, 22, 4),
        Version::new(1, 21, 1),
    ]);
    let rg = Range::parse("^1.21").expect("valid range");
    assert_eq!(
        Collection::<YarnDistro>::resolve_semver_from(&rg, &index),
        Ok(Version::new(1, 22, 19))
    );
    let narrow = Range::parse("~1.21").expect("valid range");
    assert_eq!(
        Collection::<YarnDistro>::resolve_semver_from(&narrow, &index),
        Ok(Version::new(1, 21, 1))
    );
    let none = Range::parse("^2").expect("valid range");
    assert_eq!(
        Collection::<YarnDistro>::resolve_semver_from(&none, &index),
        Err(ErrorDetails::YarnVersionNotFound {
            matching: "^2".to_string()
        })
    );
}

fn package_entry(major: u64, minor: u64, patch: u64) -> PackageEntry {
    let v = Version::new(major, minor, patch);
    PackageEntry {
        version: v,
        tarball: format!("https://registry.npmjs.org/left-pad/-/left-pad-{}.tgz", v.render()),
        shasum: format!("sha-{}-{}-{}", major, minor, patch),
    }
}

fn sample_package_index() -> PackageIndex {
    PackageIndex {
        latest: Version::new(2, 1, 0),
        entries: vec![
            package_entry(1, 0, 0),
            package_entry(1, 3, 0),
            package_entry(2, 1, 0),
        ],
    }
}

#[test]
fn package_latest_selects_the_marked_entry() {
    let index = sample_package_index();
    let r = Collection::<PackageDistro>::resolve_from("left-pad", &VersionSpec::Latest, &index);
    assert_eq!(r, Ok(&index.entries[2]));
}

#[test]
fn package_semver_selects_first_structural_match() {
    let index = sample_package_index();
    let rg = Range::parse("^1").expect("valid range");
    let r = Collection::<PackageDistro>::resolve_from("left-pad", &VersionSpec::Semver(rg), &index);
    assert_eq!(r, Ok(&index.entries[0]));
}

#[test]
fn package_exact_finds_its_entry_or_reports_not_found() {
    let index = sample_package_index();
    let hit = Collection::<PackageDistro>::resolve_from(
        "left-pad",
        &VersionSpec::Exact(Version::new(1, 3, 0)),
        &index,
    );
    assert_eq!(hit, Ok(&index.entries[1]));
    let miss = Collection::<PackageDistro>::resolve_from(
        "left-pad",
        &VersionSpec::Exact(Version::new(9, 9, 9)),
        &index,
    );
    assert_eq!(
        miss,
        Err(ErrorDetails::PackageVersionNotFound {
            name: "left-pad".to_string(),
            matching: "9.9.9".to_string()
        })
    );
}

#[test]
fn package_plan_appends_name_to_registry_root() {
    let config = RegistryConfig::public();
    assert_eq!(
        Collection::<PackageDistro>::resolve_plan("left-pad", &VersionSpec::Latest, &None, &config),
        ResolutionPlan::FetchIndex("https://registry.npmjs.org/left-pad".to_string())
    );
}

#[test]
fn collection_load_sorts_and_deduplicates() {
    let c: Collection<NodeDistro> = Collection::load(vec![
        Version::new(2, 0, 0),
        Version::new(1, 0, 0),
        Version::new(2, 0, 0),
    ]);
    assert_eq!(
        c.versions,
        vec![Version::new(1, 0, 0), Version::new(2, 0, 0)]
    );
    assert!(c.contains(&Version::new(1, 0, 0)));
    assert!(!c.contains(&Version::new(3, 0, 0)));
}

#[test]
fn fetch_always_resolves_and_plans_a_download_only_when_missing() {
    let index = sample_node_index();
    let c: Collection<NodeDistro> = Collection::load(vec![Version::new(18, 19, 0)]);
    assert_eq!(
        c.fetch(&VersionSpec::Lts, &index),
        Ok(FetchPlan::AlreadyInstalled(Version::new(18, 19, 0)))
    );
    assert_eq!(
        c.fetch(&VersionSpec::Latest, &index),
        Ok(FetchPlan::NeedsDownload(Version::new(20, 0, 0)))
    );
    // Resolution is performed even when versions are already installed: an
    // unsatisfiable requirement is still a not-found error.
    let rg = Range::parse("^99").expect("valid range");
    assert_eq!(
        c.fetch(&VersionSpec::Semver(rg), &index),
        Err(ErrorDetails::NodeVersionNotFound {
            matching: "^99".to_string()
        })
    );
}

#[test]
fn fetch_of_installed_version_downloads_nothing_and_changes_nothing() {
    let mut c: Collection<NodeDistro> = Collection::load(vec![Version::new(1, 2, 3)]);
    let v = Version::new(1, 2, 3);
    assert_eq!(c.plan_fetch(&v), FetchPlan::AlreadyInstalled(v));
    let before = c.versions.clone();
    c.record_fetched(&Fetched::Already(v));
    assert_eq!(c.versions, before);
}

#[test]
fn fetch_of_new_version_downloads_and_records_it() {
    let mut c: Collection<NodeDistro> = Collection::load(vec![Version::new(1, 2, 3)]);
    let v = Version::new(2, 0, 0);
    assert_eq!(c.plan_fetch(&v), FetchPlan::NeedsDownload(v));
    c.record_fetched(&Fetched::Now(v));
    assert!(c.contains(&v));
    assert_eq!(
        c.versions,
        vec![Version::new(1, 2, 3), Version::new(2, 0, 0)]
    );
}

#[test]
fn inventory_holds_one_collection_per_kind() {
    let inv = Inventory::current(
        Collection::load(vec![Version::new(18, 19, 0)]),
        Collection::load(vec![Version::new(1, 22, 19)]),
        Collection::load(vec![]),
    );
    assert!(inv.node.contains(&Version::new(18, 19, 0)));
    assert!(inv.yarn.contains(&Version::new(1, 22, 19)));
    assert!(!inv.packages.contains(&Version::new(1, 0, 0)));
}
