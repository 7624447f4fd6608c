use snm::manifest::ToolKind;
use snm::translate::{
    translate, AddCommandArgs, CommandIntent, DeleteCommandArgs, DlxCommandArgs, ExecCommandArgs,
    InstallCommandArgs, NpmArgsTransform, PnpmArgsTransform, RunCommandArgs, SetCacheArgs,
};
use snm::error::SnmError;

fn add_args(spec: &str) -> AddCommandArgs {
    AddCommandArgs {
        package_spec: spec.to_string(),
        save_prod: false,
        save_dev: false,
        save_optional: false,
        save_exact: false,
        save_peer: false,
        global: false,
    }
}

#[test]
fn npm_install_rows() {
    let t = NpmArgsTransform;
    assert_eq!(
        t.get_install_command(InstallCommandArgs { frozen_lockfile: false }).unwrap(),
        vec!["install".to_string()]
    );
    assert_eq!(
        t.get_install_command(InstallCommandArgs { frozen_lockfile: true }).unwrap(),
        vec!["ci".to_string()]
    );
}

#[test]
fn pnpm_install_rows() {
    let t = PnpmArgsTransform;
    assert_eq!(
        t.get_install_command(InstallCommandArgs { frozen_lockfile: false }).unwrap(),
        vec!["install".to_string()]
    );
    assert_eq!(
        t.get_install_command(InstallCommandArgs { frozen_lockfile: true }).unwrap(),
        vec!["install".to_string(), "--frozen-lockfile".to_string()]
    );
}

#[test]
fn npm_add_flags() {
    let t = NpmArgsTransform;
    let mut a = add_args("react");
    a.save_prod = true;
    assert_eq!(
        t.get_add_command(a).unwrap(),
        vec!["add".to_string(), "react".to_string(), "--save".to_string()]
    );
    let mut d = add_args("react");
    d.save_dev = true;
    assert_eq!(
        t.get_add_command(d).unwrap(),
        vec!["add".to_string(), "react".to_string(), "--save-dev".to_string()]
    );
    let plain = add_args("react");
    assert_eq!(
        t.get_add_command(plain).unwrap(),
        vec!["add".to_string(), "react".to_string()]
    );
    let mut g = add_args("react");
    g.global = true;
    assert_eq!(
        t.get_add_command(g).unwrap(),
        vec!["add".to_string(), "react".to_string(), "--global".to_string()]
    );
}

#[test]
fn npm_add_peer_is_a_translation_error() {
    let t = NpmArgsTransform;
    let mut a = add_args("react");
    a.save_peer = true;
    let r = t.get_add_command(a);
    assert!(matches!(r, Err(SnmError::UnsupportedCommand { .. })));
}

#[test]
fn pnpm_add_peer_has_a_spelling() {
    let t = PnpmArgsTransform;
    let mut a = add_args("react");
    a.save_peer = true;
    assert_eq!(
        t.get_add_command(a).unwrap(),
        vec!["add".to_string(), "react".to_string(), "--save-peer".to_string()]
    );
}

#[test]
fn first_true_flag_wins() {
    let t = PnpmArgsTransform;
    let mut a = add_args("react");
    a.save_dev = true;
    a.save_peer = true;
    a.global = true;
    assert_eq!(
        t.get_add_command(a).unwrap(),
        vec!["add".to_string(), "react".to_string(), "--save-dev".to_string()]
    );
}

#[test]
fn remove_rows() {
    assert_eq!(
        NpmArgsTransform.get_delete_command(DeleteCommandArgs { package_spec: "lodash".into() })
            .unwrap(),
        vec!["uninstall".to_string(), "lodash".to_string()]
    );
    assert_eq!(
        PnpmArgsTransform.get_delete_command(DeleteCommandArgs { package_spec: "lodash".into() })
            .unwrap(),
        vec!["remove".to_string(), "lodash".to_string()]
    );
}

#[test]
fn dlx_and_exec_rows() {
    let spec = vec!["cowsay".to_string(), "hello".to_string()];
    assert_eq!(
        NpmArgsTransform.get_dlx_command(DlxCommandArgs { package_spec: spec.clone() }).unwrap(),
        vec!["exec".to_string(), "cowsay".to_string(), "hello".to_string(), "-y".to_string()]
    );
    assert_eq!(
        PnpmArgsTransform.get_dlx_command(DlxCommandArgs { package_spec: spec.clone() }).unwrap(),
        vec!["dlx".to_string(), "cowsay".to_string(), "hello".to_string()]
    );
    assert_eq!(
        NpmArgsTransform.get_exec_command(ExecCommandArgs { package_spec: spec.clone() }).unwrap(),
        vec!["exec".to_string(), "cowsay".to_string(), "hello".to_string(), "-n".to_string()]
    );
    assert_eq!(
        PnpmArgsTransform.get_exec_command(ExecCommandArgs { package_spec: spec }).unwrap(),
        vec!["exec".to_string(), "cowsay".to_string(), "hello".to_string()]
    );
}

#[test]
fn run_rows() {
    let args = vec!["build".to_string(), "--watch".to_string()];
    assert_eq!(
        NpmArgsTransform.get_run_command(RunCommandArgs { args: args.clone() }).unwrap(),
        vec!["run".to_string(), "build".to_string(), "--watch".to_string()]
    );
    assert_eq!(
        PnpmArgsTransform.get_run_command(RunCommandArgs { args }).unwrap(),
        vec!["run".to_string(), "build".to_string(), "--watch".to_string()]
    );
}

#[test]
fn set_cache_rows() {
    assert_eq!(
        NpmArgsTransform.get_set_cache_command(SetCacheArgs { cache_path: "/tmp/c".into() })
            .unwrap(),
        vec!["config".to_string(), "set".to_string(), "cache".to_string(), "/tmp/c".to_string()]
    );
    assert_eq!(
        PnpmArgsTransform.get_set_cache_command(SetCacheArgs { cache_path: "/tmp/c".into() })
            .unwrap(),
        vec!["set".to_string(), "store-dir".to_string(), "/tmp/c".to_string()]
    );
}

#[test]
fn yarn_install_rows_through_the_table() {
    let frozen = CommandIntent::Install(InstallCommandArgs { frozen_lockfile: true });
    assert_eq!(
        translate(ToolKind::YarnClassic, &frozen).unwrap(),
        vec!["install".to_string(), "--frozen-lockfile".to_string()]
    );
    assert_eq!(
        translate(ToolKind::YarnModern, &frozen).unwrap(),
        vec!["install".to_string(), "--immutable".to_string()]
    );
    let plain = CommandIntent::Install(InstallCommandArgs { frozen_lockfile: false });
    assert_eq!(translate(ToolKind::YarnClassic, &plain).unwrap(), vec!["install".to_string()]);
    assert_eq!(translate(ToolKind::YarnModern, &plain).unwrap(), vec!["install".to_string()]);
}

#[test]
fn undefined_rows_fail_not_skip() {
    let rm = CommandIntent::Remove(DeleteCommandArgs { package_spec: "x".into() });
    assert!(matches!(
        translate(ToolKind::YarnClassic, &rm),
        Err(SnmError::UnsupportedCommand { .. })
    ));
    let cache = CommandIntent::SetCache(SetCacheArgs { cache_path: "/c".into() });
    assert!(matches!(
        translate(ToolKind::Node, &cache),
        Err(SnmError::UnsupportedCommand { .. })
    ));
}

#[test]
fn table_dispatch_matches_transforms() {
    let add = CommandIntent::Add(AddCommandArgs {
        package_spec: "vite".to_string(),
        save_prod: false,
        save_dev: true,
        save_optional: false,
        save_exact: false,
        save_peer: false,
        global: false,
    });
    assert_eq!(
        translate(ToolKind::Pnpm, &add).unwrap(),
        vec!["add".to_string(), "vite".to_string(), "--save-dev".to_string()]
    );
    assert_eq!(
        translate(ToolKind::Npm, &add).unwrap(),
        vec!["add".to_string(), "vite".to_string(), "--save-dev".to_string()]
    );
}
