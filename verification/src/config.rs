//! Process-wide configuration: directory roots, registry hosts, the strict
//! resolution toggle, and the install strategies. All values are decided
//! once from plain environment values handed in at process entry; nothing
//! here touches the environment itself.

use vstd::prelude::*;

verus! {

/// What the resolver does when a wanted version has no install record:
/// ask the user, fail at once, or install without asking.
#[derive(Clone, Copy, PartialEq, Eq, Structural, Debug)]
pub enum InstallStrategy {
    Ask,
    Panic,
    Install,
}

impl InstallStrategy {
    /// Parses a strategy selector. Exactly the three canonical spellings
    /// are accepted; anything else is a configuration error.
    pub fn from_str(s: &str) -> (r: Result<Self, crate::error::SnmError>)
        ensures
            s@ == "Ask"@ ==> r == Result::<Self, crate::error::SnmError>::Ok(InstallStrategy::Ask),
            s@ == "Panic"@ ==> r == Result::<Self, crate::error::SnmError>::Ok(
                InstallStrategy::Panic,
            ),
            s@ == "Install"@ ==> r == Result::<Self, crate::error::SnmError>::Ok(
                InstallStrategy::Install,
            ),
            s@ != "Ask"@ && s@ != "Panic"@ && s@ != "Install"@ ==> r == Result::<
                Self,
                crate::error::SnmError,
            >::Err(crate::error::SnmError::UnknownInstallStrategy),
    {
        proof {
            reveal_strlit("Ask");
            reveal_strlit("Panic");
            reveal_strlit("Install");
            assert("Ask"@.len() == 3);
            assert("Panic"@.len() == 5);
            assert("Install"@.len() == 7);
        }
        if crate::strings::str_eq(s, "Ask") {
            Ok(InstallStrategy::Ask)
        } else if crate::strings::str_eq(s, "Panic") {
            Ok(InstallStrategy::Panic)
        } else if crate::strings::str_eq(s, "Install") {
            Ok(InstallStrategy::Install)
        } else {
            Err(crate::error::SnmError::UnknownInstallStrategy)
        }
    }

    /// The canonical spelling of the strategy, inverse of `from_str`.
    pub fn as_str(&self) -> (r: &'static str)
        ensures
            *self == InstallStrategy::Ask ==> r@ == "Ask"@,
            *self == InstallStrategy::Panic ==> r@ == "Panic"@,
            *self == InstallStrategy::Install ==> r@ == "Install"@,
    {
        match self {
            InstallStrategy::Ask => "Ask",
            InstallStrategy::Panic => "Panic",
            InstallStrategy::Install => "Install",
        }
    }
}

/// The raw environment readings the configuration is decided from,
/// handed in once at process entry.
#[derive(Debug, Default)]
pub struct SnmEnv {
    pub base_dir: Option<String>,
    pub node_bin_dir: Option<String>,
    pub download_dir: Option<String>,
    pub node_modules_dir: Option<String>,
    pub npm_registry_host: Option<String>,
    pub yarn_registry_host: Option<String>,
    pub yarn_repo_host: Option<String>,
    pub strict: Option<String>,
    pub node_install_strategy: Option<String>,
    pub package_manager_install_strategy: Option<String>,
}

/// The text of an optional environment value.
pub open spec fn spec_env_view(v: Option<String>) -> Option<Seq<char>> {
    match v {
        Option::None => Option::None,
        Option::Some(s) => Option::Some(s@),
    }
}

/// The value, or the default where none is set.
pub open spec fn spec_or_default(v: Option<Seq<char>>, d: Seq<char>) -> Seq<char> {
    match v {
        Option::None => d,
        Option::Some(s) => s,
    }
}

/// A path below a base directory.
pub open spec fn spec_join(base: Seq<char>, name: Seq<char>) -> Seq<char> {
    base + seq!['/'] + name
}

fn or_default(v: &Option<String>, d: &str) -> (r: String)
    ensures
        r@ == spec_or_default(spec_env_view(*v), d@),
{
    match v {
        Some(s) => s.clone(),
        None => d.to_owned(),
    }
}

fn join_dir(base: &str, name: &str) -> (r: String)
    ensures
        r@ == spec_join(base@, name@),
{
    let mut s = base.to_owned();
    s.append("/");
    s.append(name);
    proof {
        reveal_strlit("/");
        assert(s@ =~= spec_join(base@, name@));
    }
    s
}

/// The resolved process-wide configuration: directory roots under the
/// home directory, registry hosts, the strict toggle, and the raw
/// install-strategy selectors (read lazily, as a selector outside the
/// three canonical spellings must only fail the flows that need it).
#[derive(Debug)]
pub struct SnmConfig {
    pub base_dir_path: String,
    pub node_bin_dir_path: String,
    pub download_dir_path: String,
    pub node_modules_dir_path: String,
    pub npm_registry_host: String,
    pub yarn_registry_host: String,
    pub yarn_repo_host: String,
    pub strict: bool,
    pub node_install_strategy_value: String,
    pub package_manager_install_strategy_value: String,
}

impl SnmConfig {
    /// Decides the whole configuration from the home directory and
    /// the raw environment values: each directory is the override or
    /// its default name under the base, each host is the override or
    /// the public registry, strict resolution only on the exact text
    /// `true`, and the strategy selectors default to `ask`.
    pub fn new(home_dir: &str, env: SnmEnv) -> (r: SnmConfig)
        ensures
            r.base_dir_path@ == spec_join(
                home_dir@,
                spec_or_default(spec_env_view(env.base_dir), ".snm"@),
            ),
            r.node_bin_dir_path@ == spec_join(
                r.base_dir_path@,
                spec_or_default(spec_env_view(env.node_bin_dir), "bin"@),
            ),
            r.download_dir_path@ == spec_join(
                r.base_dir_path@,
                spec_or_default(spec_env_view(env.download_dir), "download"@),
            ),
            r.node_modules_dir_path@ == spec_join(
                r.base_dir_path@,
                spec_or_default(spec_env_view(env.node_modules_dir), "node_modules"@),
            ),
            r.npm_registry_host@ == spec_or_default(
                spec_env_view(env.npm_registry_host),
                "https://registry.npmjs.org"@,
            ),
            r.yarn_registry_host@ == spec_or_default(
                spec_env_view(env.yarn_registry_host),
                "https://registry.yarnpkg.com"@,
            ),
            r.yarn_repo_host@ == spec_or_default(
                spec_env_view(env.yarn_repo_host),
                "https://repo.yarnpkg.com"@,
            ),
            r.strict == (spec_env_view(env.strict) == Option::Some("true"@)),
            r.node_install_strategy_value@ == spec_or_default(
                spec_env_view(env.node_install_strategy),
                "ask"@,
            ),
            r.package_manager_install_strategy_value@ == spec_or_default(
                spec_env_view(env.package_manager_install_strategy),
                "ask"@,
            ),
    {
        let base = join_dir(home_dir, or_default(&env.base_dir, ".snm").as_str());
        let strict = match &env.strict {
            Some(s) => crate::strings::str_eq(s.as_str(), "true"),
            None => false,
        };
        SnmConfig {
            node_bin_dir_path: join_dir(
                base.as_str(),
                or_default(&env.node_bin_dir, "bin").as_str(),
            ),
            download_dir_path: join_dir(
                base.as_str(),
                or_default(&env.download_dir, "download").as_str(),
            ),
            node_modules_dir_path: join_dir(
                base.as_str(),
                or_default(&env.node_modules_dir, "node_modules").as_str(),
            ),
            npm_registry_host: or_default(&env.npm_registry_host, "https://registry.npmjs.org"),
            yarn_registry_host: or_default(
                &env.yarn_registry_host,
                "https://registry.yarnpkg.com",
            ),
            yarn_repo_host: or_default(&env.yarn_repo_host, "https://repo.yarnpkg.com"),
            strict,
            node_install_strategy_value: or_default(&env.node_install_strategy, "ask"),
            package_manager_install_strategy_value: or_default(
                &env.package_manager_install_strategy,
                "ask",
            ),
            base_dir_path: base,
        }
    }

    pub fn get_strict(&self) -> (r: bool)
        ensures
            r == self.strict,
    {
        self.strict
    }

    pub fn get_base_dir_path_buf(&self) -> (r: String)
        ensures
            r@ == self.base_dir_path@,
    {
        self.base_dir_path.clone()
    }

    pub fn get_node_bin_dir_path_buf(&self) -> (r: String)
        ensures
            r@ == self.node_bin_dir_path@,
    {
        self.node_bin_dir_path.clone()
    }

    pub fn get_download_dir_path_buf(&self) -> (r: String)
        ensures
            r@ == self.download_dir_path@,
    {
        self.download_dir_path.clone()
    }

    pub fn get_node_modules_dir_path_buf(&self) -> (r: String)
        ensures
            r@ == self.node_modules_dir_path@,
    {
        self.node_modules_dir_path.clone()
    }

    pub fn get_npm_registry_host(&self) -> (r: String)
        ensures
            r@ == self.npm_registry_host@,
    {
        self.npm_registry_host.clone()
    }

    pub fn get_yarn_registry_host(&self) -> (r: String)
        ensures
            r@ == self.yarn_registry_host@,
    {
        self.yarn_registry_host.clone()
    }

    pub fn get_yarn_repo_host(&self) -> (r: String)
        ensures
            r@ == self.yarn_repo_host@,
    {
        self.yarn_repo_host.clone()
    }

    /// The runtime install strategy: the raw selector parsed, so an
    /// unknown spelling fails exactly here.
    pub fn get_node_install_strategy(&self) -> (r: Result<InstallStrategy, crate::error::SnmError>)
        ensures
            self.node_install_strategy_value@ == "Ask"@ ==> r == Result::<
                InstallStrategy,
                crate::error::SnmError,
            >::Ok(InstallStrategy::Ask),
            self.node_install_strategy_value@ == "Panic"@ ==> r == Result::<
                InstallStrategy,
                crate::error::SnmError,
            >::Ok(InstallStrategy::Panic),
            self.node_install_strategy_value@ == "Install"@ ==> r == Result::<
                InstallStrategy,
                crate::error::SnmError,
            >::Ok(InstallStrategy::Install),
            self.node_install_strategy_value@ != "Ask"@ && self.node_install_strategy_value@
                != "Panic"@ && self.node_install_strategy_value@ != "Install"@ ==> r == Result::<
                InstallStrategy,
                crate::error::SnmError,
            >::Err(crate::error::SnmError::UnknownInstallStrategy),
    {
        InstallStrategy::from_str(self.node_install_strategy_value.as_str())
    }

    /// The package-manager install strategy, parsed the same way.
    pub fn get_package_manager_install_strategy(&self) -> (r: Result<
        InstallStrategy,
        crate::error::SnmError,
    >)
        ensures
            self.package_manager_install_strategy_value@ == "Ask"@ ==> r == Result::<
                InstallStrategy,
                crate::error::SnmError,
            >::Ok(InstallStrategy::Ask),
            self.package_manager_install_strategy_value@ == "Panic"@ ==> r == Result::<
                InstallStrategy,
                crate::error::SnmError,
            >::Ok(InstallStrategy::Panic),
            self.package_manager_install_strategy_value@ == "Install"@ ==> r == Result::<
                InstallStrategy,
                crate::error::SnmError,
            >::Ok(InstallStrategy::Install),
            self.package_manager_install_strategy_value@ != "Ask"@
                && self.package_manager_install_strategy_value@ != "Panic"@
                && self.package_manager_install_strategy_value@ != "Install"@ ==> r == Result::<
                InstallStrategy,
                crate::error::SnmError,
            >::Err(crate::error::SnmError::UnknownInstallStrategy),
    {
        InstallStrategy::from_str(self.package_manager_install_strategy_value.as_str())
    }
}

} // verus!
