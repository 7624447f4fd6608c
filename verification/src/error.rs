//! The library's error taxonomy. Fatal configuration, network, integrity,
//! platform and state-mismatch failures all surface as one of these
//! variants; a declined confirmation is never an error.

use vstd::prelude::*;

verus! {

#[derive(Debug, Clone, PartialEq)]
pub enum SnmError {
    /// Abort quietly, with no message of its own.
    SilentExit,
    /// A free-form fatal message.
    Error(String),
    /// The artifact URL answered with a non-success status.
    ResourceNotFound { download_url: String },
    /// The fetch failed after the whole retry budget.
    DownloadFailed { download_url: String },
    /// Strict mode: the manifest declares a different tool.
    NotMatchPackageManager { expect: String, actual: String },
    /// The manifest's package-manager field is absent.
    NotFoundPackageManagerField,
    /// The manifest's package-manager field does not parse.
    InvalidPackageManagerField { raw: String },
    /// A version string does not parse.
    InvalidVersion { raw: String },
    /// The manifest names a bin property that does not exist.
    NotFoundPackageJsonBinProperty { file_path: String },
    /// No published checksum for the runtime version.
    NotFoundSha256ForNode(String),
    /// Permissive mode: no default alias exists for the tool.
    NotFoundDefaultPackageManager { name: String },
    /// No published build for the current platform.
    UnsupportedPlatform { os: String, arch: String },
    /// The manifest declares a tool this manager does not back.
    UnsupportedPackageManager { name: String, version: String },
    /// The fetched artifact's checksum differs from the expected one.
    Sha256VerificationFailed { file_path: String, expect: String, actual: String },
    /// An install-strategy selector outside `Ask | Panic | Install`.
    UnknownInstallStrategy,
    /// The tool variant defines no mapping for the requested intent.
    UnsupportedCommand { name: String },
    /// More than one package-manager lock file sits in the project.
    MultipleLockFiles { found: Vec<String> },
    /// The home directory could not be determined.
    GetHomeDirError,
    /// A policy refusal with no more specific report.
    UnknownError,
}

} // verus!
