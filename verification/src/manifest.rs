//! The project manifest's package-manager declaration and the closed set
//! of backend tool variants. The declaration is `name@version`, with an
//! optional integrity suffix after `+` that resolution ignores; the
//! variant for a declaration is decided here, including the 2.0.0 family
//! boundary that splits the classic and modern yarn CLI surfaces.

use vstd::prelude::*;

use crate::error::SnmError;
use crate::strings::str_eq;
use crate::version::{
    spec_first_index_of, spec_parse_version, spec_version_lt, Version, VersionView,
};

verus! {

/// The closed set of backend tools this manager drives.
#[derive(Clone, Copy, PartialEq, Eq, Structural, Debug)]
pub enum ToolKind {
    /// The runtime itself.
    Node,
    /// The npm-style package manager.
    Npm,
    /// The pnpm-style package manager.
    Pnpm,
    /// The yarn CLI generation before 2.0.0.
    YarnClassic,
    /// The yarn CLI generation at or after 2.0.0.
    YarnModern,
}

/// A parsed package-manager declaration: tool name and version text.
#[derive(Debug, Clone, PartialEq)]
pub struct PackageManager {
    pub name: String,
    pub version: String,
}

/// The version 2.0.0, the family-switch boundary.
pub open spec fn spec_boundary_two() -> VersionView {
    VersionView { major: 2, minor: 0, patch: 0, pre: Option::None }
}

/// What the declaration text splits into: the name before the first
/// `@`, the version after it with any `+` integrity suffix dropped.
/// Both parts must be nonempty and the version must not be only a
/// suffix.
pub open spec fn spec_parse_declaration(s: Seq<char>) -> Option<(Seq<char>, Seq<char>)> {
    match spec_first_index_of(s, '@') {
        Option::None => Option::None,
        Option::Some(at) => {
            let name = s.take(at);
            let full = s.skip(at + 1);
            let version = match spec_first_index_of(full, '+') {
                Option::None => full,
                Option::Some(p) => full.take(p),
            };
            if name.len() > 0 && version.len() > 0 {
                Option::Some((name, version))
            } else {
                Option::None
            }
        },
    }
}

/// Parses a manifest package-manager field.
pub fn parse_package_manager_field(s: &str) -> (r: Result<PackageManager, SnmError>)
    ensures
        match r {
            Result::Ok(pm) => spec_parse_declaration(s@) == Option::Some((pm.name@, pm.version@)),
            Result::Err(e) => spec_parse_declaration(s@) is None && (e matches
                SnmError::InvalidPackageManagerField { raw } && raw@ == s@),
        },
{
    let n = s.unicode_len();
    let at = match crate::version::find_char(s, '@') {
        Some(at) => at,
        None => {
            return Err(SnmError::InvalidPackageManagerField { raw: s.to_owned() });
        },
    };
    let name = s.substring_char(0, at);
    let full = s.substring_char(at + 1, n);
    let flen = full.unicode_len();
    let version = match crate::version::find_char(full, '+') {
        Some(p) => full.substring_char(0, p),
        None => full,
    };
    if name.unicode_len() == 0 || version.unicode_len() == 0 {
        return Err(SnmError::InvalidPackageManagerField { raw: s.to_owned() });
    }
    Ok(PackageManager { name: name.to_owned(), version: version.to_owned() })
}

/// Whether a version's text sits before the 2.0.0 family boundary.
pub fn get_is_less_2(v: &str) -> (r: Result<bool, SnmError>)
    ensures
        match r {
            Result::Ok(b) => spec_parse_version(v@) matches Option::Some(ver) && b
                == spec_version_lt(ver, spec_boundary_two()),
            Result::Err(e) => spec_parse_version(v@) is None && (e matches
                SnmError::InvalidVersion { raw } && raw@ == v@),
        },
{
    let ver = match Version::parse(v) {
        Ok(ver) => ver,
        Err(e) => {
            return Err(e);
        },
    };
    let boundary = Version { major: 2, minor: 0, patch: 0, pre: None };
    Ok(ver.lt(&boundary))
}

/// The tool variant that backs a declaration: `npm` and `pnpm` name
/// their variant directly, `yarn` splits at the 2.0.0 boundary on its
/// declared version, and any other name is unsupported.
pub fn variant_for_package_manager(pm: &PackageManager) -> (r: Result<ToolKind, SnmError>)
    ensures
        pm.name@ == "npm"@ ==> r == Result::<ToolKind, SnmError>::Ok(ToolKind::Npm),
        pm.name@ == "pnpm"@ ==> r == Result::<ToolKind, SnmError>::Ok(ToolKind::Pnpm),
        pm.name@ == "yarn"@ ==> match r {
            Result::Ok(k) => spec_parse_version(pm.version@) matches Option::Some(ver) && k == (
            if spec_version_lt(ver, spec_boundary_two()) {
                ToolKind::YarnClassic
            } else {
                ToolKind::YarnModern
            }),
            Result::Err(e) => spec_parse_version(pm.version@) is None && (e matches
                SnmError::InvalidVersion { raw } && raw@ == pm.version@),
        },
        pm.name@ != "npm"@ && pm.name@ != "pnpm"@ && pm.name@ != "yarn"@ ==> (r matches
            Result::Err(e) && e matches SnmError::UnsupportedPackageManager { name, version }
            && name@ == pm.name@ && version@ == pm.version@),
{
    proof {
        reveal_strlit("npm");
        reveal_strlit("pnpm");
        reveal_strlit("yarn");
        assert("npm"@.len() == 3);
        assert("pnpm"@.len() == 4);
        assert("yarn"@.len() == 4);
        assert("pnpm"@[0] == 'p' && "yarn"@[0] == 'y');
    }
    if str_eq(pm.name.as_str(), "npm") {
        Ok(ToolKind::Npm)
    } else if str_eq(pm.name.as_str(), "pnpm") {
        Ok(ToolKind::Pnpm)
    } else if str_eq(pm.name.as_str(), "yarn") {
        match get_is_less_2(pm.version.as_str()) {
            Ok(true) => Ok(ToolKind::YarnClassic),
            Ok(false) => Ok(ToolKind::YarnModern),
            Err(e) => Err(e),
        }
    } else {
        Err(
            SnmError::UnsupportedPackageManager {
                name: pm.name.clone(),
                version: pm.version.clone(),
            },
        )
    }
}

} // verus!
