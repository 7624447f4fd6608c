use snm::config::InstallStrategy;
use snm::error::SnmError;
use snm::manifest::PackageManager;
use snm::resolve::{
    check_default_version, resolve_shim, resolve_strict, ResolutionMode, ResolveAction,
};

fn decl(name: &str, version: &str) -> PackageManager {
    PackageManager { name: name.to_string(), version: version.to_string() }
}

#[test]
fn strict_returns_exactly_the_declared_version() {
    // a different version is marked default; strict must ignore it
    let r = resolve_shim(
        ResolutionMode::Strict,
        "pnpm",
        &Some(decl("pnpm", "1.2.3")),
        &Some("9.9.9".to_string()),
        true,
        InstallStrategy::Panic,
        false,
    )
    .unwrap();
    assert_eq!(r.version, "1.2.3");
    assert_eq!(r.action, ResolveAction::UseInstalled);
}

#[test]
fn strict_rejects_a_foreign_tool_name() {
    let r = resolve_strict("npm", &decl("pnpm", "1.2.3"), true, InstallStrategy::Install, false);
    match r {
        Err(SnmError::NotMatchPackageManager { expect, actual }) => {
            assert_eq!(expect, "pnpm");
            assert_eq!(actual, "npm");
        }
        other => panic!("expected the name mismatch, got {:?}", other),
    }
}

#[test]
fn strict_missing_version_follows_the_strategy() {
    let d = decl("pnpm", "8.5.0");
    let install =
        resolve_strict("pnpm", &d, false, InstallStrategy::Install, false).unwrap();
    assert_eq!(install.action, ResolveAction::InstallThenUse);
    assert_eq!(install.version, "8.5.0");

    let consent = resolve_strict("pnpm", &d, false, InstallStrategy::Ask, true).unwrap();
    assert_eq!(consent.action, ResolveAction::InstallThenUse);

    let declined = resolve_strict("pnpm", &d, false, InstallStrategy::Ask, false);
    assert!(matches!(declined, Err(SnmError::UnknownError)));

    let panic_mode = resolve_strict("pnpm", &d, false, InstallStrategy::Panic, false);
    assert!(matches!(panic_mode, Err(SnmError::UnknownError)));
}

#[test]
fn strict_without_a_manifest_field_is_a_configuration_error() {
    let r = resolve_shim(
        ResolutionMode::Strict,
        "pnpm",
        &None,
        &None,
        false,
        InstallStrategy::Install,
        false,
    );
    assert!(matches!(r, Err(SnmError::NotFoundPackageManagerField)));
}

#[test]
fn permissive_without_default_names_the_tool() {
    let r = resolve_shim(
        ResolutionMode::Permissive,
        "pnpm",
        &None,
        &None,
        false,
        InstallStrategy::Ask,
        false,
    );
    match r {
        Err(SnmError::NotFoundDefaultPackageManager { name }) => assert_eq!(name, "pnpm"),
        other => panic!("expected the missing default, got {:?}", other),
    }
}

#[test]
fn permissive_runs_the_default_once_set() {
    let r = resolve_shim(
        ResolutionMode::Permissive,
        "pnpm",
        &None,
        &Some("1.2.3".to_string()),
        false,
        InstallStrategy::Ask,
        false,
    )
    .unwrap();
    assert_eq!(r.version, "1.2.3");
    assert_eq!(r.action, ResolveAction::UseInstalled);
}

#[test]
fn default_check_reports_the_version() {
    assert_eq!(
        check_default_version(&Some("3.2.1".to_string()), "yarn").unwrap(),
        "3.2.1"
    );
    assert!(matches!(
        check_default_version(&None, "yarn"),
        Err(SnmError::NotFoundDefaultPackageManager { .. })
    ));
}
