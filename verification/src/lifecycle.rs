//! The lifecycle orchestrator: install, uninstall and default-switch
//! transitions over the committed runtime directory. Each transition is
//! a function from the current entry list, the injected confirmation
//! decisions, and the recorded outside events (fetch attempts,
//! checksums, extraction) to the next entry list and the surfaced
//! result; the surrounding process performs the matching filesystem
//! work.

use vstd::prelude::*;

use crate::download::{
    fetch_verdict, spec_fetch_verdict, verify_integrity, FetchAttemptOutcome, FetchVerdict,
};
use crate::error::SnmError;
use crate::store::{
    clone_dir, default_alias_name, has_entry, remove_entry, spec_default_base, spec_default_of,
    spec_default_suffix, spec_installed_of, spec_is_default_entry, spec_without, RuntimeDir,
};

verus! {

/// What the outside world reported while one artifact was fetched,
/// verified and extracted. The extraction fields are consulted only
/// after the checksum gate has passed.
#[derive(Debug)]
pub struct DownloadEvents {
    /// Outcome of each fetch attempt that was made, in order.
    pub fetch: Vec<FetchAttemptOutcome>,
    /// The artifact URL, for error reports.
    pub url: String,
    /// Where the artifact was written, for error reports.
    pub file_path: String,
    /// The checksum the tool publishes for this version.
    pub expect_checksum: String,
    /// The checksum computed over the fetched artifact.
    pub actual_checksum: String,
    /// Whether decompression into the version directory succeeded.
    pub extract_ok: bool,
    /// The decompression failure report, when it failed.
    pub extract_message: String,
}

/// The anchor written: `v` committed among the entries.
pub open spec fn spec_commit(entries: Seq<Seq<char>>, v: Seq<char>) -> Seq<Seq<char>> {
    if entries.contains(v) {
        entries
    } else {
        entries.push(v)
    }
}

/// The whole pipeline passed: fetched within budget, checksums equal,
/// extraction succeeded.
pub open spec fn spec_pipeline_ok(ev: DownloadEvents) -> bool {
    &&& spec_fetch_verdict(ev.fetch@) == FetchVerdict::Fetched
    &&& ev.expect_checksum@ == ev.actual_checksum@
    &&& ev.extract_ok
}

/// What the committed entries become under the pipeline: unchanged
/// unless every stage passed, and then with the version anchored.
pub open spec fn spec_download_pipeline(
    entries: Seq<Seq<char>>,
    v: Seq<char>,
    ev: DownloadEvents,
) -> Seq<Seq<char>> {
    if spec_pipeline_ok(ev) {
        spec_commit(entries, v)
    } else {
        entries
    }
}

/// The error a failed pipeline surfaces: the fetch verdict decides
/// first; then a checksum mismatch is the hard verification failure
/// carrying the file and both sums; then a failed extraction carries
/// its own report.
pub open spec fn spec_download_error(ev: DownloadEvents, e: SnmError) -> bool {
    match spec_fetch_verdict(ev.fetch@) {
        FetchVerdict::NotFound => e matches SnmError::ResourceNotFound { download_url }
            && download_url@ == ev.url@,
        FetchVerdict::Exhausted => e matches SnmError::DownloadFailed { download_url }
            && download_url@ == ev.url@,
        FetchVerdict::Fetched => if ev.expect_checksum@ != ev.actual_checksum@ {
            e matches SnmError::Sha256VerificationFailed { file_path, expect, actual }
                && file_path@ == ev.file_path@ && expect@ == ev.expect_checksum@ && actual@
                == ev.actual_checksum@
        } else {
            !ev.extract_ok && (e matches SnmError::Error(m) && m@ == ev.extract_message@)
        },
    }
}

/// Runs the download pipeline against the committed entries: fetch
/// verdict, then the checksum gate, then extraction; only when all
/// three pass is the version anchored. A failed pipeline leaves the
/// entries exactly as they were.
pub fn download_transition(dir: &RuntimeDir, v: &str, ev: &DownloadEvents) -> (r: (
    RuntimeDir,
    Result<(), SnmError>,
))
    ensures
        r.0.entries.deep_view() == spec_download_pipeline(dir.entries.deep_view(), v@, *ev),
        spec_pipeline_ok(*ev) ==> r.1 is Ok,
        !spec_pipeline_ok(*ev) ==> (r.1 matches Result::Err(e) && spec_download_error(*ev, e)),
{
    match fetch_verdict(&ev.fetch) {
        FetchVerdict::NotFound => {
            return (
                clone_dir(dir),
                Err(SnmError::ResourceNotFound { download_url: ev.url.clone() }),
            );
        },
        FetchVerdict::Exhausted => {
            return (
                clone_dir(dir),
                Err(SnmError::DownloadFailed { download_url: ev.url.clone() }),
            );
        },
        FetchVerdict::Fetched => {},
    }
    match verify_integrity(
        ev.file_path.as_str(),
        ev.expect_checksum.as_str(),
        ev.actual_checksum.as_str(),
    ) {
        Ok(()) => {},
        Err(e) => {
            return (clone_dir(dir), Err(e));
        },
    }
    if !ev.extract_ok {
        return (clone_dir(dir), Err(SnmError::Error(ev.extract_message.clone())));
    }
    if has_entry(dir, v) {
        (clone_dir(dir), Ok(()))
    } else {
        let mut out = clone_dir(dir);
        let ghost prev = out.entries.deep_view();
        out.entries.push(v.to_owned());
        proof {
            assert(out.entries.deep_view() =~~= prev.push(v@));
        }
        (out, Ok(()))
    }
}

/// What an install call came to.
#[derive(Clone, Copy, PartialEq, Eq, Structural, Debug)]
pub enum InstallOutcome {
    /// The pipeline ran and the version is now anchored.
    Installed,
    /// Already installed and the reinstall was not confirmed: nothing
    /// was touched.
    SkippedAlreadyInstalled,
}

/// Installs a version: a version already anchored is downloaded again
/// only on a confirmed reinstall, and declining leaves every entry
/// untouched; a missing version always runs the pipeline.
pub fn install_transition(
    dir: &RuntimeDir,
    v: &str,
    reinstall_confirmed: bool,
    ev: &DownloadEvents,
) -> (r: (RuntimeDir, Result<InstallOutcome, SnmError>))
    ensures
        dir.entries.deep_view().contains(v@) && !reinstall_confirmed ==> r.0.entries.deep_view()
            == dir.entries.deep_view() && r.1 == Result::<
            InstallOutcome,
            SnmError,
        >::Ok(InstallOutcome::SkippedAlreadyInstalled),
        (!dir.entries.deep_view().contains(v@) || reinstall_confirmed) ==> r.0.entries.deep_view()
            == spec_download_pipeline(dir.entries.deep_view(), v@, *ev) && (if spec_pipeline_ok(
            *ev,
        ) {
            r.1 == Result::<InstallOutcome, SnmError>::Ok(InstallOutcome::Installed)
        } else {
            r.1 matches Result::Err(e) && spec_download_error(*ev, e)
        }),
{
    if has_entry(dir, v) && !reinstall_confirmed {
        return (clone_dir(dir), Ok(InstallOutcome::SkippedAlreadyInstalled));
    }
    let (out, res) = download_transition(dir, v, ev);
    match res {
        Ok(()) => (out, Ok(InstallOutcome::Installed)),
        Err(e) => (out, Err(e)),
    }
}

/// What a default-switch call came to.
#[derive(Clone, Copy, PartialEq, Eq, Structural, Debug)]
pub enum SetDefaultOutcome {
    /// The alias now names the wanted version.
    DefaultSet,
    /// The version was missing and installing it was declined:
    /// nothing was touched.
    DeclinedInstall,
}

/// What switching the default does to the entries once the version is
/// anchored: the old alias entry removed, the new one added.
pub open spec fn spec_set_default(entries: Seq<Seq<char>>, v: Seq<char>) -> Seq<Seq<char>> {
    let cleared = match spec_default_of(entries) {
        Option::None => entries,
        Option::Some(d) => spec_without(entries, d + spec_default_suffix()),
    };
    cleared.push(v + spec_default_suffix())
}

/// Switches the default alias to `v`. A missing version is installed
/// first if confirmed, and declining is a no-op; then the old alias,
/// if any, is removed and the new one created.
pub fn set_default_transition(
    dir: &RuntimeDir,
    v: &str,
    install_confirmed: bool,
    ev: &DownloadEvents,
) -> (r: (RuntimeDir, Result<SetDefaultOutcome, SnmError>))
    ensures
        !dir.entries.deep_view().contains(v@) && !install_confirmed ==> r.0.entries.deep_view()
            == dir.entries.deep_view() && r.1 == Result::<
            SetDefaultOutcome,
            SnmError,
        >::Ok(SetDefaultOutcome::DeclinedInstall),
        !dir.entries.deep_view().contains(v@) && install_confirmed && !spec_pipeline_ok(*ev)
            ==> r.0.entries.deep_view() == dir.entries.deep_view() && (r.1 matches Result::Err(e)
            && spec_download_error(*ev, e)),
        dir.entries.deep_view().contains(v@) ==> r.0.entries.deep_view() == spec_set_default(
            dir.entries.deep_view(),
            v@,
        ) && r.1 == Result::<SetDefaultOutcome, SnmError>::Ok(SetDefaultOutcome::DefaultSet),
        !dir.entries.deep_view().contains(v@) && install_confirmed && spec_pipeline_ok(*ev)
            ==> r.0.entries.deep_view() == spec_set_default(
            spec_commit(dir.entries.deep_view(), v@),
            v@,
        ) && r.1 == Result::<SetDefaultOutcome, SnmError>::Ok(SetDefaultOutcome::DefaultSet),
{
    let base: RuntimeDir;
    if !has_entry(dir, v) {
        if !install_confirmed {
            return (clone_dir(dir), Ok(SetDefaultOutcome::DeclinedInstall));
        }
        let (out, res) = download_transition(dir, v, ev);
        match res {
            Ok(()) => {
                base = out;
            },
            Err(e) => {
                return (out, Err(e));
            },
        }
    } else {
        base = clone_dir(dir);
    }
    let (_, default) = crate::store::classify_runtime_entries(&base.entries);
    let cleared = match default {
        Some(d) => {
            let alias = default_alias_name(d.as_str());
            remove_entry(&base, alias.as_str())
        },
        None => base,
    };
    let mut out = cleared;
    let ghost prev = out.entries.deep_view();
    out.entries.push(default_alias_name(v));
    proof {
        assert(out.entries.deep_view() =~~= prev.push(v@ + spec_default_suffix()));
    }
    (out, Ok(SetDefaultOutcome::DefaultSet))
}

/// A well-formed runtime directory: at most one alias entry, and
/// every alias entry carries the suffix exactly once.
pub open spec fn spec_wf_dir(entries: Seq<Seq<char>>) -> bool {
    &&& forall|i: int, j: int|
        0 <= i < entries.len() && 0 <= j < entries.len() && spec_is_default_entry(
            #[trigger] entries[i],
        ) && spec_is_default_entry(#[trigger] entries[j]) ==> i == j
    &&& forall|i: int|
        0 <= i < entries.len() && spec_is_default_entry(#[trigger] entries[i])
            ==> spec_default_base(entries[i]) + spec_default_suffix() == entries[i]
}

/// Committing a version that is not itself an alias name preserves
/// well-formedness.
pub proof fn lemma_commit_preserves_wf(entries: Seq<Seq<char>>, v: Seq<char>)
    requires
        spec_wf_dir(entries),
        !spec_is_default_entry(v),
    ensures
        spec_wf_dir(spec_commit(entries, v)),
{
}

/// Integrity gate: when the computed checksum differs from the
/// expected one, the pipeline commits nothing — the entries stay as
/// they were, and a version that was absent stays absent, from the
/// installed report too.
pub proof fn lemma_integrity_gate(entries: Seq<Seq<char>>, v: Seq<char>, ev: DownloadEvents)
    requires
        ev.expect_checksum@ != ev.actual_checksum@,
    ensures
        spec_download_pipeline(entries, v, ev) == entries,
        !entries.contains(v) ==> !spec_installed_of(
            spec_download_pipeline(entries, v, ev),
        ).contains(v),
{
    if spec_installed_of(entries).contains(v) {
        crate::store::lemma_installed_subset(entries, v);
    }
}

/// Switching the default keeps the directory well-formed and leaves
/// exactly the new alias: afterwards the store reports precisely `v`
/// as the default.
pub proof fn lemma_set_default_single_default(entries: Seq<Seq<char>>, v: Seq<char>)
    requires
        spec_wf_dir(entries),
        !spec_is_default_entry(v),
    ensures
        spec_wf_dir(spec_set_default(entries, v)),
        spec_default_of(spec_set_default(entries, v)) == Option::Some(v),
    decreases entries.len(),
{
    let sfx = spec_default_suffix();
    reveal_strlit("-default");
    let cleared = match spec_default_of(entries) {
        Option::None => entries,
        Option::Some(d) => spec_without(entries, d + sfx),
    };
    // no alias entry survives the clearing step
    assert forall|k: int|
        0 <= k < cleared.len() implies !spec_is_default_entry(#[trigger] cleared[k]) by {
        match spec_default_of(entries) {
            Option::None => {
                crate::store::lemma_default_of_none(entries);
            },
            Option::Some(d) => {
                assert(cleared.contains(cleared[k]));
                crate::store::lemma_without_membership(entries, d + sfx, cleared[k]);
                if spec_is_default_entry(cleared[k]) {
                    crate::store::lemma_default_of_witness(entries, d);
                    let j = choose|j: int|
                        0 <= j < entries.len() && spec_is_default_entry(#[trigger] entries[j])
                            && spec_default_base(entries[j]) == d;
                    let i = choose|i: int| 0 <= i < entries.len() && entries[i] == cleared[k];
                    assert(spec_is_default_entry(entries[i]));
                    assert(i == j);
                    assert(entries[j] == d + sfx);
                }
            },
        }
    }
    let result = cleared.push(v + sfx);
    crate::strings::lemma_concat_ends_with(v, sfx);
    crate::strings::lemma_trim_end_of_concat(v, sfx);
    assert(result.last() == v + sfx);
    assert(spec_default_of(result) == Option::Some(v));
    assert forall|i: int, j: int|
        0 <= i < result.len() && 0 <= j < result.len() && spec_is_default_entry(
            #[trigger] result[i],
        ) && spec_is_default_entry(#[trigger] result[j]) implies i == j by {
        if i < result.len() - 1 {
            assert(result[i] == cleared[i]);
        }
        if j < result.len() - 1 {
            assert(result[j] == cleared[j]);
        }
    }
    assert forall|i: int|
        0 <= i < result.len() && spec_is_default_entry(#[trigger] result[i]) implies
        spec_default_base(result[i]) + sfx == result[i] by {
        if i < result.len() - 1 {
            assert(result[i] == cleared[i]);
        } else {
            assert(result[i] == v + sfx);
        }
    }
}

/// The versions that any run of default switches leaves behind.
pub open spec fn spec_apply_set_defaults(
    entries: Seq<Seq<char>>,
    vs: Seq<Seq<char>>,
) -> Seq<Seq<char>>
    decreases vs.len(),
{
    if vs.len() == 0 {
        entries
    } else {
        spec_apply_set_defaults(spec_set_default(entries, vs[0]), vs.drop_first())
    }
}

/// At most one default, always: after any sequence of default
/// switches on a well-formed directory, the directory is still
/// well-formed — it holds at most one alias entry — and the store
/// reports the last switched version as the one default.
pub proof fn lemma_set_default_sequence(entries: Seq<Seq<char>>, vs: Seq<Seq<char>>)
    requires
        spec_wf_dir(entries),
        forall|i: int| 0 <= i < vs.len() ==> !spec_is_default_entry(#[trigger] vs[i]),
    ensures
        spec_wf_dir(spec_apply_set_defaults(entries, vs)),
        vs.len() > 0 ==> spec_default_of(spec_apply_set_defaults(entries, vs)) == Option::Some(
            vs.last(),
        ),
    decreases vs.len(),
{
    if vs.len() > 0 {
        lemma_set_default_single_default(entries, vs[0]);
        lemma_set_default_sequence(spec_set_default(entries, vs[0]), vs.drop_first());
        if vs.len() == 1 {
            assert(spec_apply_set_defaults(spec_set_default(entries, vs[0]), vs.drop_first())
                == spec_set_default(entries, vs[0]));
        } else {
            assert(vs.drop_first().last() == vs.last());
        }
    }
}

/// What an uninstall call came to.
#[derive(Clone, Copy, PartialEq, Eq, Structural, Debug)]
pub enum UninstallOutcome {
    /// The version's directory is gone, and its alias with it where
    /// it was the default.
    Removed,
    /// The version was the default and removing it was declined:
    /// nothing was touched.
    DeclinedDefault,
    /// The version was not installed: a warning, nothing touched.
    NotFound,
}

/// Uninstalls a version: a version that is not installed is a warning
/// and a no-op; removing the current default asks first and takes the
/// alias with it; any other version loses only its own directory.
pub fn un_install_transition(dir: &RuntimeDir, v: &str, default_removal_confirmed: bool) -> (r: (
    RuntimeDir,
    Result<UninstallOutcome, SnmError>,
))
    ensures
        !spec_installed_of(dir.entries.deep_view()).contains(v@) ==> r.0.entries.deep_view()
            == dir.entries.deep_view() && r.1 == Result::<
            UninstallOutcome,
            SnmError,
        >::Ok(UninstallOutcome::NotFound),
        spec_installed_of(dir.entries.deep_view()).contains(v@) && spec_default_of(
            dir.entries.deep_view(),
        ) == Option::Some(v@) && !default_removal_confirmed ==> r.0.entries.deep_view()
            == dir.entries.deep_view() && r.1 == Result::<
            UninstallOutcome,
            SnmError,
        >::Ok(UninstallOutcome::DeclinedDefault),
        spec_installed_of(dir.entries.deep_view()).contains(v@) && spec_default_of(
            dir.entries.deep_view(),
        ) == Option::Some(v@) && default_removal_confirmed ==> r.0.entries.deep_view()
            == spec_without(
            spec_without(dir.entries.deep_view(), v@ + spec_default_suffix()),
            v@,
        ) && r.1 == Result::<UninstallOutcome, SnmError>::Ok(UninstallOutcome::Removed),
        spec_installed_of(dir.entries.deep_view()).contains(v@) && spec_default_of(
            dir.entries.deep_view(),
        ) != Option::Some(v@) ==> r.0.entries.deep_view() == spec_without(
            dir.entries.deep_view(),
            v@,
        ) && r.1 == Result::<UninstallOutcome, SnmError>::Ok(UninstallOutcome::Removed),
{
    let (installed, default) = crate::store::classify_runtime_entries(&dir.entries);
    if !crate::store::contains_name(&installed, v) {
        return (clone_dir(dir), Ok(UninstallOutcome::NotFound));
    }
    let is_default = match &default {
        Some(d) => crate::strings::str_eq(d.as_str(), v),
        None => false,
    };
    if is_default {
        if !default_removal_confirmed {
            return (clone_dir(dir), Ok(UninstallOutcome::DeclinedDefault));
        }
        let alias = default_alias_name(v);
        let cleared = remove_entry(dir, alias.as_str());
        let out = remove_entry(&cleared, v);
        return (out, Ok(UninstallOutcome::Removed));
    }
    let out = remove_entry(dir, v);
    (out, Ok(UninstallOutcome::Removed))
}

} // verus!
