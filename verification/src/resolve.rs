//! The shim resolver: which installed version runs right now. Strict
//! mode demands the exact manifest declaration — never the default —
//! and consults the install strategy when that version has no install
//! record; permissive mode runs the default alias and fails, naming
//! the tool, when none is set.

use vstd::prelude::*;

use crate::config::InstallStrategy;
use crate::error::SnmError;
use crate::manifest::PackageManager;

verus! {

/// The process-wide resolution policy.
#[derive(Clone, Copy, PartialEq, Eq, Structural, Debug)]
pub enum ResolutionMode {
    /// Exactly the manifest's declared version.
    Strict,
    /// The locally configured default.
    Permissive,
}

/// Whether the resolved version still has to be installed before it
/// can run.
#[derive(Clone, Copy, PartialEq, Eq, Structural, Debug)]
pub enum ResolveAction {
    /// The version is anchored: run it.
    UseInstalled,
    /// Run the install pipeline for it first, then run it.
    InstallThenUse,
}

/// The resolver's answer: the version to run and whether an install
/// comes first.
#[derive(Debug, PartialEq)]
pub struct ShimResolution {
    pub version: String,
    pub action: ResolveAction,
}

/// Permissive fallback: the default version, or the "no default"
/// failure naming the tool.
pub fn check_default_version(default: &Option<String>, tool_name: &str) -> (r: Result<
    String,
    SnmError,
>)
    ensures
        match default {
            Option::Some(d) => r matches Result::Ok(out) && out@ == d@,
            Option::None => r matches Result::Err(e) && (e matches
                SnmError::NotFoundDefaultPackageManager { name } && name@ == tool_name@),
        },
{
    match default {
        Some(d) => Ok(d.clone()),
        None => Err(SnmError::NotFoundDefaultPackageManager { name: tool_name.to_owned() }),
    }
}

/// Strict resolution for one tool: the declared name must match the
/// tool being shimmed; a declared version without an install record
/// goes through only as the install strategy and the injected consent
/// allow; and the answer is always exactly the declared version.
pub fn resolve_strict(
    tool_name: &str,
    decl: &PackageManager,
    anchored: bool,
    strategy: InstallStrategy,
    install_confirmed: bool,
) -> (r: Result<ShimResolution, SnmError>)
    ensures
        decl.name@ != tool_name@ ==> (r matches Result::Err(e) && e matches
            SnmError::NotMatchPackageManager { expect, actual } && expect@ == decl.name@ && actual@
            == tool_name@),
        decl.name@ == tool_name@ && anchored ==> (r matches Result::Ok(res) && res.version@
            == decl.version@ && res.action == ResolveAction::UseInstalled),
        decl.name@ == tool_name@ && !anchored && (strategy == InstallStrategy::Install || (strategy
            == InstallStrategy::Ask && install_confirmed)) ==> (r matches Result::Ok(res)
            && res.version@ == decl.version@ && res.action == ResolveAction::InstallThenUse),
        decl.name@ == tool_name@ && !anchored && (strategy == InstallStrategy::Panic || (strategy
            == InstallStrategy::Ask && !install_confirmed)) ==> r == Result::<
            ShimResolution,
            SnmError,
        >::Err(SnmError::UnknownError),
        r matches Result::Ok(res) ==> res.version@ == decl.version@,
{
    if !crate::strings::str_eq(decl.name.as_str(), tool_name) {
        return Err(
            SnmError::NotMatchPackageManager {
                expect: decl.name.clone(),
                actual: tool_name.to_owned(),
            },
        );
    }
    if anchored {
        return Ok(
            ShimResolution { version: decl.version.clone(), action: ResolveAction::UseInstalled },
        );
    }
    match strategy {
        InstallStrategy::Install => Ok(
            ShimResolution { version: decl.version.clone(), action: ResolveAction::InstallThenUse },
        ),
        InstallStrategy::Ask => {
            if install_confirmed {
                Ok(
                    ShimResolution {
                        version: decl.version.clone(),
                        action: ResolveAction::InstallThenUse,
                    },
                )
            } else {
                Err(SnmError::UnknownError)
            }
        },
        InstallStrategy::Panic => Err(SnmError::UnknownError),
    }
}

/// One resolution step for a shim invocation, both modes. In strict
/// mode the answer never leaves the manifest declaration, whatever
/// the default alias holds; in permissive mode the default alias
/// alone decides.
pub fn resolve_shim(
    mode: ResolutionMode,
    tool_name: &str,
    decl: &Option<PackageManager>,
    default: &Option<String>,
    anchored: bool,
    strategy: InstallStrategy,
    install_confirmed: bool,
) -> (r: Result<ShimResolution, SnmError>)
    ensures
        mode == ResolutionMode::Strict ==> match decl {
            Option::None => r == Result::<ShimResolution, SnmError>::Err(
                SnmError::NotFoundPackageManagerField,
            ),
            Option::Some(d) => {
                &&& (r matches Result::Ok(res) ==> res.version@ == d.version@)
                &&& (d.name@ != tool_name@ ==> (r matches Result::Err(e) && e matches
                SnmError::NotMatchPackageManager { expect, actual } && expect@ == d.name@
                    && actual@ == tool_name@))
                &&& (d.name@ == tool_name@ && anchored ==> (r matches Result::Ok(res)
                    && res.version@ == d.version@ && res.action == ResolveAction::UseInstalled))
                &&& (d.name@ == tool_name@ && !anchored && (strategy == InstallStrategy::Install
                    || (strategy == InstallStrategy::Ask && install_confirmed)) ==> (r matches
                Result::Ok(res) && res.version@ == d.version@ && res.action
                    == ResolveAction::InstallThenUse))
                &&& (d.name@ == tool_name@ && !anchored && (strategy == InstallStrategy::Panic || (
                strategy == InstallStrategy::Ask && !install_confirmed)) ==> r == Result::<
                    ShimResolution,
                    SnmError,
                >::Err(SnmError::UnknownError))
            },
        },
        mode == ResolutionMode::Permissive ==> match default {
            Option::Some(d) => r matches Result::Ok(res) && res.version@ == d@ && res.action
                == ResolveAction::UseInstalled,
            Option::None => r matches Result::Err(e) && (e matches
                SnmError::NotFoundDefaultPackageManager { name } && name@ == tool_name@),
        },
{
    match mode {
        ResolutionMode::Strict => {
            let d = match decl {
                Some(d) => d,
                None => {
                    return Err(SnmError::NotFoundPackageManagerField);
                },
            };
            resolve_strict(tool_name, d, anchored, strategy, install_confirmed)
        },
        ResolutionMode::Permissive => {
            let v = match check_default_version(default, tool_name) {
                Ok(v) => v,
                Err(e) => {
                    return Err(e);
                },
            };
            Ok(ShimResolution { version: v, action: ResolveAction::UseInstalled })
        },
    }
}

} // verus!
