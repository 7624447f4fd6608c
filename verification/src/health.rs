//! Project-health checks: a project should carry at most one package
//! manager lock file.

use vstd::prelude::*;

use crate::error::SnmError;

verus! {

/// The lock-file names reported, in their fixed order, given which of
/// the three exist.
pub open spec fn spec_lock_files_found(npm: bool, pnpm: bool, yarn: bool) -> Seq<Seq<char>> {
    (if npm {
        seq!["package-lock.json"@]
    } else {
        Seq::<Seq<char>>::empty()
    }) + (if pnpm {
        seq!["pnpm-lock.yaml"@]
    } else {
        Seq::<Seq<char>>::empty()
    }) + (if yarn {
        seq!["yarn.lock"@]
    } else {
        Seq::<Seq<char>>::empty()
    })
}

pub open spec fn spec_lock_file_count(npm: bool, pnpm: bool, yarn: bool) -> int {
    (if npm {
        1int
    } else {
        0int
    }) + (if pnpm {
        1int
    } else {
        0int
    }) + (if yarn {
        1int
    } else {
        0int
    })
}

/// Reports which lock files sit in the project, given whether each of
/// `package-lock.json`, `pnpm-lock.yaml` and `yarn.lock` exists; more
/// than one present is a health failure carrying the offending names.
pub fn check_multi_lock_file(npm_lock: bool, pnpm_lock: bool, yarn_lock: bool) -> (r: Result<
    Vec<String>,
    SnmError,
>)
    ensures
        match r {
            Result::Ok(found) => spec_lock_file_count(npm_lock, pnpm_lock, yarn_lock) <= 1
                && found.deep_view() == spec_lock_files_found(npm_lock, pnpm_lock, yarn_lock),
            Result::Err(e) => spec_lock_file_count(npm_lock, pnpm_lock, yarn_lock) > 1 && (e
                matches SnmError::MultipleLockFiles { found } && found.deep_view()
                == spec_lock_files_found(npm_lock, pnpm_lock, yarn_lock)),
        },
{
    let mut found: Vec<String> = Vec::new();
    if npm_lock {
        found.push("package-lock.json".to_owned());
    }
    if pnpm_lock {
        found.push("pnpm-lock.yaml".to_owned());
    }
    if yarn_lock {
        found.push("yarn.lock".to_owned());
    }
    proof {
        assert(found.deep_view() =~~= spec_lock_files_found(npm_lock, pnpm_lock, yarn_lock));
    }
    if found.len() > 1 {
        Err(SnmError::MultipleLockFiles { found })
    } else {
        Ok(found)
    }
}

} // verus!
