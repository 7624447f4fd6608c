use snm::version::{normalize_version_input, Version};

#[test]
fn parse_plain_version() {
    let v = Version::parse("1.2.3").unwrap();
    assert_eq!(v.major, 1);
    assert_eq!(v.minor, 2);
    assert_eq!(v.patch, 3);
    assert!(v.pre.is_none());
}

#[test]
fn parse_prerelease_version() {
    let v = Version::parse("2.0.0-rc.1").unwrap();
    assert_eq!(v.major, 2);
    assert_eq!(v.minor, 0);
    assert_eq!(v.patch, 0);
    assert_eq!(v.pre.as_deref(), Some("rc.1"));
}

#[test]
fn parse_rejects_leading_zero() {
    assert!(Version::parse("01.2.3").is_err());
    assert!(Version::parse("1.02.3").is_err());
}

#[test]
fn parse_rejects_bad_shapes() {
    assert!(Version::parse("").is_err());
    assert!(Version::parse("1.2").is_err());
    assert!(Version::parse("1.2.3.4").is_err());
    assert!(Version::parse("1.2.x").is_err());
    assert!(Version::parse("1.2.3-").is_err());
    assert!(Version::parse("1.2.3-beta!").is_err());
    assert!(Version::parse("v1.2.3").is_err());
}

#[test]
fn parse_rejects_overflow() {
    assert!(Version::parse("99999999999999999999.0.0").is_err());
}

#[test]
fn ordering_by_triple() {
    let a = Version::parse("1.9.9").unwrap();
    let b = Version::parse("2.0.0").unwrap();
    assert!(a.lt(&b));
    assert!(!b.lt(&a));
}

#[test]
fn prerelease_sorts_before_release() {
    let pre = Version::parse("2.0.0-alpha").unwrap();
    let rel = Version::parse("2.0.0").unwrap();
    assert!(pre.lt(&rel));
    assert!(!rel.lt(&pre));
}

#[test]
fn prerelease_text_order() {
    let a = Version::parse("1.0.0-alpha").unwrap();
    let b = Version::parse("1.0.0-beta").unwrap();
    assert!(a.lt(&b));
    assert!(!b.lt(&a));
    let c = Version::parse("1.0.0-alpha").unwrap();
    assert!(!a.lt(&c));
    assert!(!c.lt(&a));
}

#[test]
fn renders_back_to_text() {
    let v = Version::parse("1.2.3").unwrap();
    assert_eq!(v.to_version_string(), "1.2.3");
    let p = Version::parse("10.0.2-rc.1").unwrap();
    assert_eq!(p.to_version_string(), "10.0.2-rc.1");
}

#[test]
fn normalizes_shim_version_input() {
    assert_eq!(normalize_version_input("v1.2.3"), "1.2.3");
    assert_eq!(normalize_version_input("V 2.0.0 "), "2.0.0");
    assert_eq!(normalize_version_input("vv1.0.0"), "1.0.0");
    assert_eq!(normalize_version_input("  1.0.0"), "  1.0.0".trim());
    assert_eq!(normalize_version_input("1.2.3"), "1.2.3");
}
