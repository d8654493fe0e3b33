use notion_core::command::Install;
use notion_core::ranges::Range;
use notion_core::requirement::VersionSpec;
use notion_core::version::Version;

#[test]
fn version_render_exact_digits() {
    assert_eq!(Version::new(18, 19, 0).render(), "18.19.0");
    assert_eq!(Version::new(0, 0, 0).render(), "0.0.0");
    assert_eq!(Version::new(10, 2, 33).render(), "10.2.33");
}

#[test]
fn version_order_is_lexicographic() {
    let a = Version::new(1, 9, 9);
    let b = Version::new(2, 0, 0);
    assert!(a.lt(&b));
    assert!(!b.lt(&a));
    assert!(!a.lt(&a));
    assert!(Version::new(1, 2, 3).lt(&Version::new(1, 3, 0)));
    assert!(Version::new(1, 2, 3).lt(&Version::new(1, 2, 4)));
}

#[test]
fn range_parse_and_match() {
    let rg = Range::parse("^1.0").expect("valid range");
    assert!(rg.matches(&Version::new(1, 2, 3)));
    assert!(!rg.matches(&Version::new(2, 0, 0)));
    assert_eq!(rg.render(), "^1.0");
    assert!(Range::parse("@@not-a-range").is_none());
}

#[test]
fn range_comparators() {
    let rg = Range::parse(">=1.2.0, <2").expect("valid range");
    assert!(rg.matches(&Version::new(1, 2, 0)));
    assert!(rg.matches(&Version::new(1, 99, 0)));
    assert!(!rg.matches(&Version::new(1, 1, 9)));
    assert!(!rg.matches(&Version::new(2, 0, 0)));
}

#[test]
fn version_spec_parse_variants() {
    assert_eq!(VersionSpec::parse("latest"), Some(VersionSpec::Latest));
    assert_eq!(VersionSpec::parse("lts"), Some(VersionSpec::Lts));
    assert_eq!(
        VersionSpec::parse("1.22.4"),
        Some(VersionSpec::Exact(Version::new(1, 22, 4)))
    );
    match VersionSpec::parse("^16") {
        Some(VersionSpec::Semver(rg)) => assert_eq!(rg.render(), "^16"),
        other => panic!("expected a range, got {:?}", other),
    }
    assert_eq!(VersionSpec::parse("@@nonsense"), None);
}

#[test]
fn version_spec_render_forms() {
    assert_eq!(VersionSpec::Latest.render(), "latest");
    assert_eq!(VersionSpec::Lts.render(), "lts");
    assert_eq!(
        VersionSpec::Exact(Version::new(20, 0, 0)).render(),
        "20.0.0"
    );
    let rg = Range::parse("~1.2").expect("valid range");
    assert_eq!(VersionSpec::Semver(rg).render(), "~1.2");
}

#[test]
fn install_parse_tools() {
    assert_eq!(
        Install::parse("node", "lts"),
        Some(Install::Node(VersionSpec::Lts))
    );
    assert_eq!(
        Install::parse("yarn", "1.22.0"),
        Some(Install::Yarn(VersionSpec::Exact(Version::new(1, 22, 0))))
    );
    match Install::parse("left-pad", "latest") {
        Some(Install::Other { name, version }) => {
            assert_eq!(name, "left-pad");
            assert_eq!(version, VersionSpec::Latest);
        }
        other => panic!("expected a package install, got {:?}", other),
    }
    assert_eq!(Install::parse("node", "!! bad !!"), None);
}
