//! The yarn front end: a declaration-driven handle that fixes, at
//! construction, which side of the 2.0.0 family boundary the declared
//! version sits on, and builds install arguments accordingly.

use vstd::prelude::*;

use crate::error::SnmError;
use crate::manifest::{spec_boundary_two, PackageManager, ToolKind};
use crate::translate::{spec_install_words, AddCommandArgs, InstallCommandArgs};
use crate::version::{spec_parse_version, spec_version_lt, Version};

verus! {

/// A yarn handle: the parsed declaration, the resolved binary path,
/// and the family-boundary decision.
#[derive(Debug)]
pub struct Yarn {
    pub version_parsed: PackageManager,
    pub bin: String,
    pub is_ge_2: bool,
}

impl Yarn {
    /// Builds the handle from the parsed declaration and the resolved
    /// binary path; the family decision compares the declared version
    /// against 2.0.0.
    pub fn new(version_parsed: PackageManager, bin: String) -> (r: Result<Yarn, SnmError>)
        ensures
            match r {
                Result::Ok(y) => spec_parse_version(version_parsed.version@) matches
                    Option::Some(ver) && y.is_ge_2 == !spec_version_lt(ver, spec_boundary_two())
                    && y.version_parsed == version_parsed && y.bin == bin,
                Result::Err(e) => spec_parse_version(version_parsed.version@) is None && (e matches
                    SnmError::InvalidVersion { raw } && raw@ == version_parsed.version@),
            },
    {
        let ver = match Version::parse(version_parsed.version.as_str()) {
            Ok(ver) => ver,
            Err(e) => {
                return Err(e);
            },
        };
        let boundary = Version { major: 2, minor: 0, patch: 0, pre: None };
        let is_ge_2 = !ver.lt(&boundary);
        Ok(Yarn { version_parsed, bin, is_ge_2 })
    }

    /// The variant this handle drives.
    pub fn variant(&self) -> (r: ToolKind)
        ensures
            r == (if self.is_ge_2 {
                ToolKind::YarnModern
            } else {
                ToolKind::YarnClassic
            }),
    {
        if self.is_ge_2 {
            ToolKind::YarnModern
        } else {
            ToolKind::YarnClassic
        }
    }

    /// The yarn install row: under a frozen lockfile the classic CLI
    /// takes `--frozen-lockfile`, the modern one `--immutable`.
    pub fn install(&self, args: InstallCommandArgs) -> (r: Vec<String>)
        ensures
            Option::Some(r.deep_view()) == spec_install_words(
                if self.is_ge_2 {
                    ToolKind::YarnModern
                } else {
                    ToolKind::YarnClassic
                },
                args.frozen_lockfile,
            ),
    {
        let mut v: Vec<String> = Vec::new();
        v.push("install".to_owned());
        if args.frozen_lockfile {
            if self.is_ge_2 {
                v.push("--immutable".to_owned());
                proof {
                    assert(v.deep_view() =~~= seq!["install"@, "--immutable"@]);
                }
            } else {
                v.push("--frozen-lockfile".to_owned());
                proof {
                    assert(v.deep_view() =~~= seq!["install"@, "--frozen-lockfile"@]);
                }
            }
        } else {
            proof {
                assert(v.deep_view() =~~= seq!["install"@]);
            }
        }
        v
    }

    /// Yarn defines no add row in the table: always a translation
    /// error.
    pub fn add(&self, _args: AddCommandArgs) -> (r: Result<Vec<String>, SnmError>)
        ensures
            r matches Result::Err(e) && e matches SnmError::UnsupportedCommand { name } && name@
                == "add"@,
    {
        Err(SnmError::UnsupportedCommand { name: "add".to_owned() })
    }
}

} // verus!
