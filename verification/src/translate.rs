//! The command argument translator: one canonical command vocabulary
//! (install, add, remove, exec, run, dlx, set-cache) replayed against
//! each backend tool's own flag conventions. The whole mapping table is
//! the spec function `spec_translate`; an intent a variant defines no
//! row for is a translation error, never a silent skip.

use vstd::prelude::*;

use crate::error::SnmError;
use crate::manifest::ToolKind;

verus! {

/// Arguments of the canonical install command.
#[derive(Debug, PartialEq)]
pub struct InstallCommandArgs {
    pub frozen_lockfile: bool,
}

/// Arguments of the canonical add command. At most the first true flag
/// of `save_prod`, `save_dev`, `save_optional`, `save_exact`,
/// `save_peer`, `global` — in that order — takes effect.
#[derive(Debug, PartialEq)]
pub struct AddCommandArgs {
    pub package_spec: String,
    pub save_prod: bool,
    pub save_dev: bool,
    pub save_optional: bool,
    pub save_exact: bool,
    pub save_peer: bool,
    pub global: bool,
}

/// Arguments of the canonical remove command.
#[derive(Debug, PartialEq)]
pub struct DeleteCommandArgs {
    pub package_spec: String,
}

/// Arguments of the canonical dlx command.
#[derive(Debug, PartialEq)]
pub struct DlxCommandArgs {
    pub package_spec: Vec<String>,
}

/// Arguments of the canonical exec command.
#[derive(Debug, PartialEq)]
pub struct ExecCommandArgs {
    pub package_spec: Vec<String>,
}

/// Arguments of the canonical run command.
#[derive(Debug, PartialEq)]
pub struct RunCommandArgs {
    pub args: Vec<String>,
}

/// Arguments of the canonical set-cache command.
#[derive(Debug, PartialEq)]
pub struct SetCacheArgs {
    pub cache_path: String,
}

/// One canonical command, with its arguments.
#[derive(Debug, PartialEq)]
pub enum CommandIntent {
    Install(InstallCommandArgs),
    Add(AddCommandArgs),
    Remove(DeleteCommandArgs),
    Exec(ExecCommandArgs),
    Run(RunCommandArgs),
    Dlx(DlxCommandArgs),
    SetCache(SetCacheArgs),
}

impl Clone for InstallCommandArgs {
    fn clone(&self) -> (r: Self)
        ensures
            r == *self,
    {
        InstallCommandArgs { frozen_lockfile: self.frozen_lockfile }
    }
}

impl Clone for AddCommandArgs {
    fn clone(&self) -> (r: Self)
        ensures
            r == *self,
    {
        AddCommandArgs {
            package_spec: self.package_spec.clone(),
            save_prod: self.save_prod,
            save_dev: self.save_dev,
            save_optional: self.save_optional,
            save_exact: self.save_exact,
            save_peer: self.save_peer,
            global: self.global,
        }
    }
}

impl Clone for DeleteCommandArgs {
    fn clone(&self) -> (r: Self)
        ensures
            r == *self,
    {
        DeleteCommandArgs { package_spec: self.package_spec.clone() }
    }
}

fn clone_words(src: &Vec<String>) -> (r: Vec<String>)
    ensures
        r@ == src@,
{
    let n = src.len();
    let mut out: Vec<String> = Vec::new();
    let mut i: usize = 0;
    while i < n
        invariant
            i <= n,
            n == src@.len(),
            out@ == src@.take(i as int),
        decreases n - i,
    {
        out.push(src[i].clone());
        proof {
            assert(out@ =~= src@.take(i + 1));
        }
        i = i + 1;
    }
    proof {
        assert(src@.take(n as int) =~= src@);
    }
    out
}

impl Clone for DlxCommandArgs {
    fn clone(&self) -> (r: Self)
        ensures
            r.package_spec@ == self.package_spec@,
    {
        DlxCommandArgs { package_spec: clone_words(&self.package_spec) }
    }
}

impl Clone for ExecCommandArgs {
    fn clone(&self) -> (r: Self)
        ensures
            r.package_spec@ == self.package_spec@,
    {
        ExecCommandArgs { package_spec: clone_words(&self.package_spec) }
    }
}

impl Clone for RunCommandArgs {
    fn clone(&self) -> (r: Self)
        ensures
            r.args@ == self.args@,
    {
        RunCommandArgs { args: clone_words(&self.args) }
    }
}

impl Clone for SetCacheArgs {
    fn clone(&self) -> (r: Self)
        ensures
            r == *self,
    {
        SetCacheArgs { cache_path: self.cache_path.clone() }
    }
}

/// The install row of the table.
pub open spec fn spec_install_words(tool: ToolKind, frozen: bool) -> Option<Seq<Seq<char>>> {
    match tool {
        ToolKind::Npm => Option::Some(
            if frozen {
                seq!["ci"@]
            } else {
                seq!["install"@]
            },
        ),
        ToolKind::Pnpm => Option::Some(
            if frozen {
                seq!["install"@, "--frozen-lockfile"@]
            } else {
                seq!["install"@]
            },
        ),
        ToolKind::YarnClassic => Option::Some(
            if frozen {
                seq!["install"@, "--frozen-lockfile"@]
            } else {
                seq!["install"@]
            },
        ),
        ToolKind::YarnModern => Option::Some(
            if frozen {
                seq!["install"@, "--immutable"@]
            } else {
                seq!["install"@]
            },
        ),
        ToolKind::Node => Option::None,
    }
}

/// The save flag the add row appends: the first true flag wins, and
/// the peer flag has no npm spelling at all.
pub open spec fn spec_add_flag(tool: ToolKind, a: AddCommandArgs) -> Option<Seq<Seq<char>>> {
    if a.save_prod {
        Option::Some(seq!["--save"@])
    } else if a.save_dev {
        Option::Some(seq!["--save-dev"@])
    } else if a.save_optional {
        Option::Some(seq!["--save-optional"@])
    } else if a.save_exact {
        Option::Some(seq!["--save-exact"@])
    } else if a.save_peer {
        if tool == ToolKind::Pnpm {
            Option::Some(seq!["--save-peer"@])
        } else {
            Option::None
        }
    } else if a.global {
        Option::Some(seq!["--global"@])
    } else {
        Option::Some(Seq::empty())
    }
}

/// The add row of the table.
pub open spec fn spec_add_words(tool: ToolKind, a: AddCommandArgs) -> Option<Seq<Seq<char>>> {
    if tool == ToolKind::Npm || tool == ToolKind::Pnpm {
        match spec_add_flag(tool, a) {
            Option::Some(flag) => Option::Some(seq!["add"@, a.package_spec@] + flag),
            Option::None => Option::None,
        }
    } else {
        Option::None
    }
}

/// The whole mapping table: the argument words a variant runs for an
/// intent, or nothing where the variant defines no row.
pub open spec fn spec_translate(tool: ToolKind, intent: CommandIntent) -> Option<Seq<Seq<char>>> {
    match intent {
        CommandIntent::Install(a) => spec_install_words(tool, a.frozen_lockfile),
        CommandIntent::Add(a) => spec_add_words(tool, a),
        CommandIntent::Remove(a) => match tool {
            ToolKind::Npm => Option::Some(seq!["uninstall"@, a.package_spec@]),
            ToolKind::Pnpm => Option::Some(seq!["remove"@, a.package_spec@]),
            _ => Option::None,
        },
        CommandIntent::Exec(a) => match tool {
            ToolKind::Npm => Option::Some(seq!["exec"@] + a.package_spec.deep_view() + seq!["-n"@]),
            ToolKind::Pnpm => Option::Some(seq!["exec"@] + a.package_spec.deep_view()),
            _ => Option::None,
        },
        CommandIntent::Run(a) => match tool {
            ToolKind::Npm => Option::Some(seq!["run"@] + a.args.deep_view()),
            ToolKind::Pnpm => Option::Some(seq!["run"@] + a.args.deep_view()),
            _ => Option::None,
        },
        CommandIntent::Dlx(a) => match tool {
            ToolKind::Npm => Option::Some(seq!["exec"@] + a.package_spec.deep_view() + seq!["-y"@]),
            ToolKind::Pnpm => Option::Some(seq!["dlx"@] + a.package_spec.deep_view()),
            _ => Option::None,
        },
        CommandIntent::SetCache(a) => match tool {
            ToolKind::Npm => Option::Some(seq!["config"@, "set"@, "cache"@, a.cache_path@]),
            ToolKind::Pnpm => Option::Some(seq!["set"@, "store-dir"@, a.cache_path@]),
            _ => Option::None,
        },
    }
}

/// Builds npm-style argument vectors.
pub struct NpmArgsTransform;

impl NpmArgsTransform {
    /// The npm install row: `ci` under a frozen lockfile, plain
    /// `install` otherwise.
    pub fn get_install_command(&self, args: InstallCommandArgs) -> (r: Result<
        Vec<String>,
        SnmError,
    >)
        ensures
            r matches Result::Ok(v) && Option::Some(v.deep_view()) == spec_translate(
                ToolKind::Npm,
                CommandIntent::Install(args),
            ),
    {
        let mut v: Vec<String> = Vec::new();
        if args.frozen_lockfile {
            v.push("ci".to_owned());
            proof {
                assert(v.deep_view() =~~= seq!["ci"@]);
            }
        } else {
            v.push("install".to_owned());
            proof {
                assert(v.deep_view() =~~= seq!["install"@]);
            }
        }
        Ok(v)
    }

    /// The npm add row: the first save flag set decides the suffix;
    /// the peer flag has no npm spelling and is refused.
    pub fn get_add_command(&self, args: AddCommandArgs) -> (r: Result<Vec<String>, SnmError>)
        ensures
            match spec_translate(ToolKind::Npm, CommandIntent::Add(args)) {
                Option::Some(w) => r matches Result::Ok(v) && v.deep_view() == w,
                Option::None => r matches Result::Err(e) && (e matches
                    SnmError::UnsupportedCommand { name } && name@ == "save-peer"@),
            },
    {
        let mut v: Vec<String> = Vec::new();
        v.push("add".to_owned());
        v.push(args.package_spec.clone());
        if args.save_prod {
            v.push("--save".to_owned());
        } else if args.save_dev {
            v.push("--save-dev".to_owned());
        } else if args.save_optional {
            v.push("--save-optional".to_owned());
        } else if args.save_exact {
            v.push("--save-exact".to_owned());
        } else if args.save_peer {
            return Err(SnmError::UnsupportedCommand { name: "save-peer".to_owned() });
        } else if args.global {
            v.push("--global".to_owned());
        }
        proof {
            assert(v.deep_view() =~~= spec_translate(
                ToolKind::Npm,
                CommandIntent::Add(args),
            ).unwrap());
        }
        Ok(v)
    }

    /// The npm remove row.
    pub fn get_delete_command(&self, args: DeleteCommandArgs) -> (r: Result<Vec<String>, SnmError>)
        ensures
            r matches Result::Ok(v) && Option::Some(v.deep_view()) == spec_translate(
                ToolKind::Npm,
                CommandIntent::Remove(args),
            ),
    {
        let mut v: Vec<String> = Vec::new();
        v.push("uninstall".to_owned());
        v.push(args.package_spec.clone());
        proof {
            assert(v.deep_view() =~~= seq!["uninstall"@, args.package_spec@]);
        }
        Ok(v)
    }

    /// The npm dlx row: npm has no dlx word; it spells it `exec … -y`.
    pub fn get_dlx_command(&self, args: DlxCommandArgs) -> (r: Result<Vec<String>, SnmError>)
        ensures
            r matches Result::Ok(v) && Option::Some(v.deep_view()) == spec_translate(
                ToolKind::Npm,
                CommandIntent::Dlx(args),
            ),
    {
        let mut v: Vec<String> = Vec::new();
        v.push("exec".to_owned());
        proof {
            assert(v.deep_view() =~~= seq!["exec"@]);
        }
        extend_words(&mut v, &args.package_spec);
        let ghost mid = v.deep_view();
        v.push("-y".to_owned());
        proof {
            assert(v.deep_view() =~~= mid + seq!["-y"@]);
            assert(mid + seq!["-y"@] =~~= seq!["exec"@] + args.package_spec.deep_view() + seq![
                "-y"@,
            ]);
        }
        Ok(v)
    }

    /// The npm exec row: `exec … -n`, declining package installs.
    pub fn get_exec_command(&self, args: ExecCommandArgs) -> (r: Result<Vec<String>, SnmError>)
        ensures
            r matches Result::Ok(v) && Option::Some(v.deep_view()) == spec_translate(
                ToolKind::Npm,
                CommandIntent::Exec(args),
            ),
    {
        let mut v: Vec<String> = Vec::new();
        v.push("exec".to_owned());
        proof {
            assert(v.deep_view() =~~= seq!["exec"@]);
        }
        extend_words(&mut v, &args.package_spec);
        let ghost mid = v.deep_view();
        v.push("-n".to_owned());
        proof {
            assert(v.deep_view() =~~= mid + seq!["-n"@]);
            assert(mid + seq!["-n"@] =~~= seq!["exec"@] + args.package_spec.deep_view() + seq![
                "-n"@,
            ]);
        }
        Ok(v)
    }

    /// The npm run row.
    pub fn get_run_command(&self, args: RunCommandArgs) -> (r: Result<Vec<String>, SnmError>)
        ensures
            r matches Result::Ok(v) && Option::Some(v.deep_view()) == spec_translate(
                ToolKind::Npm,
                CommandIntent::Run(args),
            ),
    {
        let mut v: Vec<String> = Vec::new();
        v.push("run".to_owned());
        extend_words(&mut v, &args.args);
        proof {
            assert(v.deep_view() =~~= seq!["run"@] + args.args.deep_view());
        }
        Ok(v)
    }

    /// The npm set-cache row: `config set cache <path>`.
    pub fn get_set_cache_command(&self, args: SetCacheArgs) -> (r: Result<Vec<String>, SnmError>)
        ensures
            r matches Result::Ok(v) && Option::Some(v.deep_view()) == spec_translate(
                ToolKind::Npm,
                CommandIntent::SetCache(args),
            ),
    {
        let mut v: Vec<String> = Vec::new();
        v.push("config".to_owned());
        v.push("set".to_owned());
        v.push("cache".to_owned());
        v.push(args.cache_path.clone());
        proof {
            assert(v.deep_view() =~~= seq!["config"@, "set"@, "cache"@, args.cache_path@]);
        }
        Ok(v)
    }
}

/// Builds pnpm-style argument vectors.
pub struct PnpmArgsTransform;

impl PnpmArgsTransform {
    /// The pnpm install row: `install`, with `--frozen-lockfile` under
    /// a frozen lockfile.
    pub fn get_install_command(&self, args: InstallCommandArgs) -> (r: Result<
        Vec<String>,
        SnmError,
    >)
        ensures
            r matches Result::Ok(v) && Option::Some(v.deep_view()) == spec_translate(
                ToolKind::Pnpm,
                CommandIntent::Install(args),
            ),
    {
        let mut v: Vec<String> = Vec::new();
        v.push("install".to_owned());
        if args.frozen_lockfile {
            v.push("--frozen-lockfile".to_owned());
            proof {
                assert(v.deep_view() =~~= seq!["install"@, "--frozen-lockfile"@]);
            }
        } else {
            proof {
                assert(v.deep_view() =~~= seq!["install"@]);
            }
        }
        Ok(v)
    }

    /// The pnpm add row: as npm's, but the peer flag has a spelling.
    pub fn get_add_command(&self, args: AddCommandArgs) -> (r: Result<Vec<String>, SnmError>)
        ensures
            r matches Result::Ok(v) && Option::Some(v.deep_view()) == spec_translate(
                ToolKind::Pnpm,
                CommandIntent::Add(args),
            ),
    {
        let mut v: Vec<String> = Vec::new();
        v.push("add".to_owned());
        v.push(args.package_spec.clone());
        if args.save_prod {
            v.push("--save".to_owned());
        } else if args.save_dev {
            v.push("--save-dev".to_owned());
        } else if args.save_optional {
            v.push("--save-optional".to_owned());
        } else if args.save_exact {
            v.push("--save-exact".to_owned());
        } else if args.save_peer {
            v.push("--save-peer".to_owned());
        } else if args.global {
            v.push("--global".to_owned());
        }
        proof {
            assert(v.deep_view() =~~= spec_translate(
                ToolKind::Pnpm,
                CommandIntent::Add(args),
            ).unwrap());
        }
        Ok(v)
    }

    /// The pnpm remove row.
    pub fn get_delete_command(&self, args: DeleteCommandArgs) -> (r: Result<Vec<String>, SnmError>)
        ensures
            r matches Result::Ok(v) && Option::Some(v.deep_view()) == spec_translate(
                ToolKind::Pnpm,
                CommandIntent::Remove(args),
            ),
    {
        let mut v: Vec<String> = Vec::new();
        v.push("remove".to_owned());
        v.push(args.package_spec.clone());
        proof {
            assert(v.deep_view() =~~= seq!["remove"@, args.package_spec@]);
        }
        Ok(v)
    }

    /// The pnpm dlx row.
    pub fn get_dlx_command(&self, args: DlxCommandArgs) -> (r: Result<Vec<String>, SnmError>)
        ensures
            r matches Result::Ok(v) && Option::Some(v.deep_view()) == spec_translate(
                ToolKind::Pnpm,
                CommandIntent::Dlx(args),
            ),
    {
        let mut v: Vec<String> = Vec::new();
        v.push("dlx".to_owned());
        extend_words(&mut v, &args.package_spec);
        proof {
            assert(v.deep_view() =~~= seq!["dlx"@] + args.package_spec.deep_view());
        }
        Ok(v)
    }

    /// The pnpm exec row.
    pub fn get_exec_command(&self, args: ExecCommandArgs) -> (r: Result<Vec<String>, SnmError>)
        ensures
            r matches Result::Ok(v) && Option::Some(v.deep_view()) == spec_translate(
                ToolKind::Pnpm,
                CommandIntent::Exec(args),
            ),
    {
        let mut v: Vec<String> = Vec::new();
        v.push("exec".to_owned());
        extend_words(&mut v, &args.package_spec);
        proof {
            assert(v.deep_view() =~~= seq!["exec"@] + args.package_spec.deep_view());
        }
        Ok(v)
    }

    /// The pnpm run row.
    pub fn get_run_command(&self, args: RunCommandArgs) -> (r: Result<Vec<String>, SnmError>)
        ensures
            r matches Result::Ok(v) && Option::Some(v.deep_view()) == spec_translate(
                ToolKind::Pnpm,
                CommandIntent::Run(args),
            ),
    {
        let mut v: Vec<String> = Vec::new();
        v.push("run".to_owned());
        extend_words(&mut v, &args.args);
        proof {
            assert(v.deep_view() =~~= seq!["run"@] + args.args.deep_view());
        }
        Ok(v)
    }

    /// The pnpm set-cache row: `set store-dir <path>`.
    pub fn get_set_cache_command(&self, args: SetCacheArgs) -> (r: Result<Vec<String>, SnmError>)
        ensures
            r matches Result::Ok(v) && Option::Some(v.deep_view()) == spec_translate(
                ToolKind::Pnpm,
                CommandIntent::SetCache(args),
            ),
    {
        let mut v: Vec<String> = Vec::new();
        v.push("set".to_owned());
        v.push("store-dir".to_owned());
        v.push(args.cache_path.clone());
        proof {
            assert(v.deep_view() =~~= seq!["set"@, "store-dir"@, args.cache_path@]);
        }
        Ok(v)
    }
}

/// The whole table as one function: the words the variant runs for the
/// intent, or a translation error naming the canonical command where
/// the variant defines no row.
pub fn translate(tool: ToolKind, intent: &CommandIntent) -> (r: Result<Vec<String>, SnmError>)
    ensures
        match spec_translate(tool, *intent) {
            Option::Some(w) => r matches Result::Ok(v) && v.deep_view() == w,
            Option::None => r matches Result::Err(e) && e matches SnmError::UnsupportedCommand {
                ..
            },
        },
{
    match intent {
        CommandIntent::Install(a) => match tool {
            ToolKind::Npm => NpmArgsTransform {}.get_install_command(a.clone()),
            ToolKind::Pnpm => PnpmArgsTransform {}.get_install_command(a.clone()),
            ToolKind::YarnClassic | ToolKind::YarnModern => {
                let mut v: Vec<String> = Vec::new();
                v.push("install".to_owned());
                if a.frozen_lockfile {
                    if let ToolKind::YarnModern = tool {
                        v.push("--immutable".to_owned());
                        proof {
                            assert(v.deep_view() =~~= seq!["install"@, "--immutable"@]);
                        }
                    } else {
                        v.push("--frozen-lockfile".to_owned());
                        proof {
                            assert(v.deep_view() =~~= seq!["install"@, "--frozen-lockfile"@]);
                        }
                    }
                } else {
                    proof {
                        assert(v.deep_view() =~~= seq!["install"@]);
                    }
                }
                Ok(v)
            },
            ToolKind::Node => Err(SnmError::UnsupportedCommand { name: "install".to_owned() }),
        },
        CommandIntent::Add(a) => match tool {
            ToolKind::Npm => NpmArgsTransform {}.get_add_command(a.clone()),
            ToolKind::Pnpm => PnpmArgsTransform {}.get_add_command(a.clone()),
            _ => Err(SnmError::UnsupportedCommand { name: "add".to_owned() }),
        },
        CommandIntent::Remove(a) => match tool {
            ToolKind::Npm => NpmArgsTransform {}.get_delete_command(a.clone()),
            ToolKind::Pnpm => PnpmArgsTransform {}.get_delete_command(a.clone()),
            _ => Err(SnmError::UnsupportedCommand { name: "remove".to_owned() }),
        },
        CommandIntent::Exec(a) => match tool {
            ToolKind::Npm => NpmArgsTransform {}.get_exec_command(a.clone()),
            ToolKind::Pnpm => PnpmArgsTransform {}.get_exec_command(a.clone()),
            _ => Err(SnmError::UnsupportedCommand { name: "exec".to_owned() }),
        },
        CommandIntent::Run(a) => match tool {
            ToolKind::Npm => NpmArgsTransform {}.get_run_command(a.clone()),
            ToolKind::Pnpm => PnpmArgsTransform {}.get_run_command(a.clone()),
            _ => Err(SnmError::UnsupportedCommand { name: "run".to_owned() }),
        },
        CommandIntent::Dlx(a) => match tool {
            ToolKind::Npm => NpmArgsTransform {}.get_dlx_command(a.clone()),
            ToolKind::Pnpm => PnpmArgsTransform {}.get_dlx_command(a.clone()),
            _ => Err(SnmError::UnsupportedCommand { name: "dlx".to_owned() }),
        },
        CommandIntent::SetCache(a) => match tool {
            ToolKind::Npm => NpmArgsTransform {}.get_set_cache_command(a.clone()),
            ToolKind::Pnpm => PnpmArgsTransform {}.get_set_cache_command(a.clone()),
            _ => Err(SnmError::UnsupportedCommand { name: "set-cache".to_owned() }),
        },
    }
}

/// Appends clones of every word in `src` to `out`.
fn extend_words(out: &mut Vec<String>, src: &Vec<String>)
    ensures
        final(out).deep_view() == old(out).deep_view() + src.deep_view(),
{
    let n = src.len();
    let mut i: usize = 0;
    while i < n
        invariant
            i <= n,
            n == src@.len(),
            out.deep_view() == old(out).deep_view() + src.deep_view().take(i as int),
        decreases n - i,
    {
        let ghost prev = out.deep_view();
        let w = src[i].clone();
        proof {
            assert(w@ == src.deep_view()[i as int]);
        }
        out.push(w);
        proof {
            assert(out.deep_view() =~~= prev + seq![src.deep_view()[i as int]]);
            assert(prev + seq![src.deep_view()[i as int]] =~~= old(out).deep_view()
                + src.deep_view().take(i + 1));
        }
        i = i + 1;
    }
    proof {
        assert(old(out).deep_view() + src.deep_view().take(n as int) =~~= old(out).deep_view()
            + src.deep_view());
    }
}

} // verus!
