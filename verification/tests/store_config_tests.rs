use snm::config::{InstallStrategy, SnmConfig, SnmEnv};
use snm::error::SnmError;
use snm::health::check_multi_lock_file;
use snm::manifest::{
    get_is_less_2, parse_package_manager_field, variant_for_package_manager, PackageManager,
    ToolKind,
};
use snm::store::classify_runtime_entries;

#[test]
fn classification_splits_installed_and_default() {
    let entries: Vec<String> = ["18.0.0", "20.1.0", "20.1.0-default", "16.3.1"]
        .iter()
        .map(|s| s.to_string())
        .collect();
    let (installed, default) = classify_runtime_entries(&entries);
    assert_eq!(
        installed,
        vec!["18.0.0".to_string(), "20.1.0".to_string(), "16.3.1".to_string()]
    );
    assert_eq!(default.as_deref(), Some("20.1.0"));
}

#[test]
fn classification_of_empty_directory() {
    let (installed, default) = classify_runtime_entries(&Vec::new());
    assert!(installed.is_empty());
    assert!(default.is_none());
}

#[test]
fn classification_last_alias_wins() {
    let entries: Vec<String> = ["1.0.0-default", "2.0.0-default"]
        .iter()
        .map(|s| s.to_string())
        .collect();
    let (installed, default) = classify_runtime_entries(&entries);
    assert!(installed.is_empty());
    assert_eq!(default.as_deref(), Some("2.0.0"));
}

#[test]
fn classification_strips_repeated_suffix() {
    let entries: Vec<String> = vec!["1.0.0-default-default".to_string()];
    let (_, default) = classify_runtime_entries(&entries);
    assert_eq!(default.as_deref(), Some("1.0.0"));
}

#[test]
fn manifest_field_parses_name_and_version() {
    let pm = parse_package_manager_field("pnpm@8.5.0").unwrap();
    assert_eq!(pm.name, "pnpm");
    assert_eq!(pm.version, "8.5.0");
}

#[test]
fn manifest_field_drops_the_integrity_suffix() {
    let pm = parse_package_manager_field("yarn@3.2.1+sha224.953c8233f7a92884eee2de69a1b92d1f2ec1655e66d08071ba9a02fa").unwrap();
    assert_eq!(pm.name, "yarn");
    assert_eq!(pm.version, "3.2.1");
}

#[test]
fn manifest_field_rejects_malformed_text() {
    assert!(matches!(
        parse_package_manager_field("pnpm"),
        Err(SnmError::InvalidPackageManagerField { .. })
    ));
    assert!(matches!(
        parse_package_manager_field("@8.5.0"),
        Err(SnmError::InvalidPackageManagerField { .. })
    ));
    assert!(matches!(
        parse_package_manager_field("pnpm@"),
        Err(SnmError::InvalidPackageManagerField { .. })
    ));
    assert!(matches!(
        parse_package_manager_field("pnpm@+sha224.abc"),
        Err(SnmError::InvalidPackageManagerField { .. })
    ));
}

#[test]
fn family_boundary_at_two() {
    assert!(get_is_less_2("1.22.19").unwrap());
    assert!(!get_is_less_2("2.0.0").unwrap());
    assert!(get_is_less_2("2.0.0-rc.1").unwrap());
    assert!(!get_is_less_2("3.6.0").unwrap());
    assert!(get_is_less_2("not-a-version").is_err());
}

#[test]
fn variants_follow_name_and_boundary() {
    let pm = |n: &str, v: &str| PackageManager { name: n.to_string(), version: v.to_string() };
    assert_eq!(variant_for_package_manager(&pm("npm", "9.0.0")).unwrap(), ToolKind::Npm);
    assert_eq!(variant_for_package_manager(&pm("pnpm", "8.5.0")).unwrap(), ToolKind::Pnpm);
    assert_eq!(
        variant_for_package_manager(&pm("yarn", "1.22.19")).unwrap(),
        ToolKind::YarnClassic
    );
    assert_eq!(
        variant_for_package_manager(&pm("yarn", "3.6.0")).unwrap(),
        ToolKind::YarnModern
    );
    assert!(matches!(
        variant_for_package_manager(&pm("bun", "1.0.0")),
        Err(SnmError::UnsupportedPackageManager { .. })
    ));
}

#[test]
fn strategy_spellings() {
    assert_eq!(InstallStrategy::from_str("Ask").unwrap(), InstallStrategy::Ask);
    assert_eq!(InstallStrategy::from_str("Panic").unwrap(), InstallStrategy::Panic);
    assert_eq!(InstallStrategy::from_str("Install").unwrap(), InstallStrategy::Install);
    assert!(matches!(
        InstallStrategy::from_str("ask"),
        Err(SnmError::UnknownInstallStrategy)
    ));
    assert_eq!(InstallStrategy::Ask.as_str(), "Ask");
    assert_eq!(InstallStrategy::Panic.as_str(), "Panic");
    assert_eq!(InstallStrategy::Install.as_str(), "Install");
}

#[test]
fn config_defaults_under_home() {
    let c = SnmConfig::new("/home/me", SnmEnv::default());
    assert_eq!(c.get_base_dir_path_buf(), "/home/me/.snm");
    assert_eq!(c.get_node_bin_dir_path_buf(), "/home/me/.snm/bin");
    assert_eq!(c.get_download_dir_path_buf(), "/home/me/.snm/download");
    assert_eq!(c.get_node_modules_dir_path_buf(), "/home/me/.snm/node_modules");
    assert_eq!(c.get_npm_registry_host(), "https://registry.npmjs.org");
    assert_eq!(c.get_yarn_registry_host(), "https://registry.yarnpkg.com");
    assert_eq!(c.get_yarn_repo_host(), "https://repo.yarnpkg.com");
    assert!(!c.get_strict());
    // the lazy selectors default to a spelling the parser refuses
    assert!(matches!(
        c.get_node_install_strategy(),
        Err(SnmError::UnknownInstallStrategy)
    ));
}

#[test]
fn config_overrides_and_strict() {
    let env = SnmEnv {
        base_dir: Some("snm-store".to_string()),
        node_bin_dir: Some("bins".to_string()),
        strict: Some("true".to_string()),
        node_install_strategy: Some("Install".to_string()),
        package_manager_install_strategy: Some("Panic".to_string()),
        ..SnmEnv::default()
    };
    let c = SnmConfig::new("/home/me", env);
    assert_eq!(c.get_base_dir_path_buf(), "/home/me/snm-store");
    assert_eq!(c.get_node_bin_dir_path_buf(), "/home/me/snm-store/bins");
    assert!(c.get_strict());
    assert_eq!(c.get_node_install_strategy().unwrap(), InstallStrategy::Install);
    assert_eq!(
        c.get_package_manager_install_strategy().unwrap(),
        InstallStrategy::Panic
    );
}

#[test]
fn strict_toggle_only_on_exact_true() {
    let env = SnmEnv { strict: Some("TRUE".to_string()), ..SnmEnv::default() };
    assert!(!SnmConfig::new("/h", env).get_strict());
    let env = SnmEnv { strict: Some("1".to_string()), ..SnmEnv::default() };
    assert!(!SnmConfig::new("/h", env).get_strict());
}

#[test]
fn lock_file_health() {
    assert_eq!(check_multi_lock_file(false, false, false).unwrap(), Vec::<String>::new());
    assert_eq!(
        check_multi_lock_file(false, true, false).unwrap(),
        vec!["pnpm-lock.yaml".to_string()]
    );
    assert_eq!(
        check_multi_lock_file(true, false, false).unwrap(),
        vec!["package-lock.json".to_string()]
    );
    assert_eq!(
        check_multi_lock_file(false, false, true).unwrap(),
        vec!["yarn.lock".to_string()]
    );
    match check_multi_lock_file(true, false, true) {
        Err(SnmError::MultipleLockFiles { found }) => {
            assert_eq!(found, vec!["package-lock.json".to_string(), "yarn.lock".to_string()]);
        }
        other => panic!("expected the multiple-lock failure, got {:?}", other),
    }
}
