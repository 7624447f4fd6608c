use snm::config::InstallStrategy;
use snm::download::FetchAttemptOutcome;
use snm::lifecycle::{
    install_transition, un_install_transition, DownloadEvents, InstallOutcome, UninstallOutcome,
};
use snm::manifest::{parse_package_manager_field, variant_for_package_manager, ToolKind};
use snm::resolve::{resolve_shim, ResolutionMode, ResolveAction};
use snm::store::{classify_runtime_entries, RuntimeDir};

// The whole strict flow once through: the manifest declares pnpm@8.5.0,
// the version is not installed, the strategy installs unconditionally,
// the artifact hashes to the published sum, and a later uninstall of a
// non-default version takes only its own directory.
#[test]
fn strict_resolution_installs_verifies_and_uninstalls_cleanly() {
    let pm = parse_package_manager_field("pnpm@8.5.0").unwrap();
    assert_eq!(variant_for_package_manager(&pm).unwrap(), ToolKind::Pnpm);

    // before anything: 8.5.0 absent, another version is the default
    let dir = RuntimeDir {
        entries: vec!["7.0.0".to_string(), "7.0.0-default".to_string()],
    };
    let (installed, _) = classify_runtime_entries(&dir.entries);
    let anchored = installed.contains(&pm.version);
    assert!(!anchored);

    let resolution = resolve_shim(
        ResolutionMode::Strict,
        "pnpm",
        &Some(pm.clone()),
        &Some("7.0.0".to_string()),
        anchored,
        InstallStrategy::Install,
        false,
    )
    .unwrap();
    assert_eq!(resolution.version, "8.5.0");
    assert_eq!(resolution.action, ResolveAction::InstallThenUse);

    // the fetched artifact hashes to exactly the expected sum
    let ev = DownloadEvents {
        fetch: vec![FetchAttemptOutcome::Success],
        url: "https://registry.npmjs.org/pnpm/-/pnpm-8.5.0.tgz".to_string(),
        file_path: "/tmp/pnpm-8.5.0.tgz".to_string(),
        expect_checksum: "abc123".to_string(),
        actual_checksum: "abc123".to_string(),
        extract_ok: true,
        extract_message: String::new(),
    };
    let (dir, res) = install_transition(&dir, &resolution.version, false, &ev);
    assert_eq!(res.unwrap(), InstallOutcome::Installed);
    let (installed, default) = classify_runtime_entries(&dir.entries);
    assert!(installed.contains(&"8.5.0".to_string()));
    assert_eq!(default.as_deref(), Some("7.0.0"));

    // uninstalling the non-default version leaves the alias untouched
    let (dir, res) = un_install_transition(&dir, "8.5.0", false);
    assert_eq!(res.unwrap(), UninstallOutcome::Removed);
    let (installed, default) = classify_runtime_entries(&dir.entries);
    assert!(!installed.contains(&"8.5.0".to_string()));
    assert_eq!(default.as_deref(), Some("7.0.0"));
    assert!(dir.entries.contains(&"7.0.0-default".to_string()));
}
