//! The version store: the committed state of one tool's runtime base
//! directory, read as a list of entry names. An entry ending in the
//! reserved default suffix is the default alias; every other entry is
//! an installed version. The suffix-stripping classification here is
//! the single source of truth for "installed" and "default".

use vstd::prelude::*;

use crate::strings::{
    spec_ends_with, spec_trim_end_matches, str_ends_with, str_eq, str_trim_end_matches,
};

verus! {

/// The reserved suffix that marks the default alias.
pub open spec fn spec_default_suffix() -> Seq<char> {
    "-default"@
}

/// An entry name that the classification reads as the default alias.
pub open spec fn spec_is_default_entry(name: Seq<char>) -> bool {
    spec_ends_with(name, spec_default_suffix())
}

/// The version an alias entry names: every trailing repetition of the
/// suffix stripped.
pub open spec fn spec_default_base(name: Seq<char>) -> Seq<char> {
    spec_trim_end_matches(name, spec_default_suffix())
}

/// The installed versions among the entries, in directory order.
pub open spec fn spec_installed_of(entries: Seq<Seq<char>>) -> Seq<Seq<char>>
    decreases entries.len(),
{
    if entries.len() == 0 {
        Seq::empty()
    } else {
        spec_installed_of(entries.drop_last()) + (if spec_is_default_entry(entries.last()) {
            Seq::<Seq<char>>::empty()
        } else {
            seq![entries.last()]
        })
    }
}

/// The default the entries report: the last alias entry wins, with
/// the suffix stripped.
pub open spec fn spec_default_of(entries: Seq<Seq<char>>) -> Option<Seq<char>>
    decreases entries.len(),
{
    if entries.len() == 0 {
        Option::None
    } else if spec_is_default_entry(entries.last()) {
        Option::Some(spec_default_base(entries.last()))
    } else {
        spec_default_of(entries.drop_last())
    }
}

/// The committed state of a tool's runtime directory: its entry
/// names.
#[derive(Debug)]
pub struct RuntimeDir {
    pub entries: Vec<String>,
}

/// What a scan of the runtime directory reports: the installed
/// versions and the default, if one is set.
pub fn classify_runtime_entries(entries: &Vec<String>) -> (r: (Vec<String>, Option<String>))
    ensures
        r.0.deep_view() == spec_installed_of(entries.deep_view()),
        match r.1 {
            Option::Some(d) => spec_default_of(entries.deep_view()) == Option::Some(d@),
            Option::None => spec_default_of(entries.deep_view()) is None,
        },
{
    let n = entries.len();
    let mut installed: Vec<String> = Vec::new();
    let mut default: Option<String> = None;
    let mut i: usize = 0;
    while i < n
        invariant
            i <= n,
            n == entries@.len(),
            installed.deep_view() == spec_installed_of(entries.deep_view().take(i as int)),
            match default {
                Option::Some(d) => spec_default_of(entries.deep_view().take(i as int))
                    == Option::Some(d@),
                Option::None => spec_default_of(entries.deep_view().take(i as int)) is None,
            },
        decreases n - i,
    {
        let name = &entries[i];
        proof {
            assert(entries.deep_view().take(i + 1).drop_last() =~~= entries.deep_view().take(
                i as int,
            ));
            assert(entries.deep_view().take(i + 1).last() == name@);
        }
        if str_ends_with(name.as_str(), "-default") {
            let base = str_trim_end_matches(name.as_str(), "-default");
            default = Some(base.to_owned());
        } else {
            let ghost prev = installed.deep_view();
            installed.push(name.clone());
            proof {
                assert(installed.deep_view() =~~= prev + seq![name@]);
            }
        }
        i = i + 1;
    }
    proof {
        assert(entries.deep_view().take(n as int) =~~= entries.deep_view());
    }
    (installed, default)
}

/// Whether `v` stands among the names.
pub fn contains_name(names: &Vec<String>, v: &str) -> (r: bool)
    ensures
        r == names.deep_view().contains(v@),
{
    let n = names.len();
    let mut i: usize = 0;
    while i < n
        invariant
            i <= n,
            n == names@.len(),
            forall|j: int| 0 <= j < i ==> names.deep_view()[j] != v@,
        decreases n - i,
    {
        if str_eq(names[i].as_str(), v) {
            proof {
                assert(names.deep_view()[i as int] == v@);
            }
            return true;
        }
        i = i + 1;
    }
    proof {
        assert forall|j: int| 0 <= j < names.deep_view().len() implies names.deep_view()[j] != v@ by {
            assert(j < i);
        }
    }
    false
}

/// Whether `v` is among the entry names: in the committed model, the
/// presence of a version's install record.
pub fn has_entry(dir: &RuntimeDir, v: &str) -> (r: bool)
    ensures
        r == dir.entries.deep_view().contains(v@),
{
    contains_name(&dir.entries, v)
}

/// The entries with every name equal to `name` removed.
pub open spec fn spec_without(entries: Seq<Seq<char>>, name: Seq<char>) -> Seq<Seq<char>>
    decreases entries.len(),
{
    if entries.len() == 0 {
        Seq::empty()
    } else {
        spec_without(entries.drop_last(), name) + (if entries.last() == name {
            Seq::<Seq<char>>::empty()
        } else {
            seq![entries.last()]
        })
    }
}

/// Every entry name that equals `name` removed; what removing one
/// directory does to the committed entry list when names are unique.
pub fn remove_entry(dir: &RuntimeDir, name: &str) -> (r: RuntimeDir)
    ensures
        r.entries.deep_view() == spec_without(dir.entries.deep_view(), name@),
{
    let n = dir.entries.len();
    let mut out: Vec<String> = Vec::new();
    let mut i: usize = 0;
    while i < n
        invariant
            i <= n,
            n == dir.entries@.len(),
            out.deep_view() == spec_without(dir.entries.deep_view().take(i as int), name@),
        decreases n - i,
    {
        let ghost taken = dir.entries.deep_view().take(i as int);
        proof {
            assert(dir.entries.deep_view().take(i + 1).drop_last() =~~= taken);
            assert(dir.entries.deep_view().take(i + 1).last() == dir.entries.deep_view()[i as int]);
        }
        if !str_eq(dir.entries[i].as_str(), name) {
            let ghost prev = out.deep_view();
            out.push(dir.entries[i].clone());
            proof {
                assert(out.deep_view() =~~= prev + seq![dir.entries.deep_view()[i as int]]);
            }
        }
        i = i + 1;
    }
    proof {
        assert(dir.entries.deep_view().take(n as int) =~~= dir.entries.deep_view());
    }
    RuntimeDir { entries: out }
}

/// Whatever the classification reports installed stands among the
/// entries.
pub proof fn lemma_installed_subset(entries: Seq<Seq<char>>, x: Seq<char>)
    requires
        spec_installed_of(entries).contains(x),
    ensures
        entries.contains(x),
    decreases entries.len(),
{
    if entries.len() > 0 {
        let rest = spec_installed_of(entries.drop_last());
        if rest.contains(x) {
            lemma_installed_subset(entries.drop_last(), x);
            let i = choose|i: int| 0 <= i < entries.drop_last().len() && entries.drop_last()[i] == x;
            assert(entries[i] == x);
        } else {
            assert(!spec_is_default_entry(entries.last()) && entries.last() == x);
            assert(entries[entries.len() - 1] == x);
        }
    }
}

/// Membership after removal: exactly the other names remain.
pub proof fn lemma_without_membership(entries: Seq<Seq<char>>, name: Seq<char>, x: Seq<char>)
    ensures
        spec_without(entries, name).contains(x) <==> (entries.contains(x) && x != name),
    decreases entries.len(),
{
    if entries.len() > 0 {
        lemma_without_membership(entries.drop_last(), name, x);
        if entries.drop_last().contains(x) {
            let i = choose|i: int| 0 <= i < entries.drop_last().len() && entries.drop_last()[i]
                == x;
            assert(entries[i] == x);
        }
        if entries.contains(x) && x != name {
            let i = choose|i: int| 0 <= i < entries.len() && entries[i] == x;
            if i < entries.len() - 1 {
                assert(entries.drop_last()[i] == x);
            }
            let w = spec_without(entries.drop_last(), name);
            if x == entries.last() && entries.last() != name {
                assert(spec_without(entries, name)[spec_without(entries, name).len() - 1] == x);
            } else {
                let j = choose|j: int| 0 <= j < w.len() && w[j] == x;
                assert(spec_without(entries, name)[j] == x);
            }
        }
        if spec_without(entries, name).contains(x) {
            let w = spec_without(entries.drop_last(), name);
            let j = choose|j: int|
                0 <= j < spec_without(entries, name).len() && spec_without(entries, name)[j] == x;
            if j < w.len() {
                assert(w[j] == x);
            } else {
                assert(entries.last() == x && entries.last() != name);
                assert(entries[entries.len() - 1] == x);
            }
        }
    }
}

/// No default is reported exactly when no entry is an alias.
pub proof fn lemma_default_of_none(entries: Seq<Seq<char>>)
    ensures
        (spec_default_of(entries) is None) <==> (forall|i: int|
            0 <= i < entries.len() ==> !spec_is_default_entry(#[trigger] entries[i])),
    decreases entries.len(),
{
    if entries.len() > 0 {
        lemma_default_of_none(entries.drop_last());
        if spec_default_of(entries) is None {
            assert forall|i: int| 0 <= i < entries.len() implies !spec_is_default_entry(
                #[trigger] entries[i],
            ) by {
                if i < entries.len() - 1 {
                    assert(entries.drop_last()[i] == entries[i]);
                }
            }
        } else {
            if !spec_is_default_entry(entries.last()) {
                let i = choose|i: int|
                    0 <= i < entries.drop_last().len() && spec_is_default_entry(
                        #[trigger] entries.drop_last()[i],
                    );
                assert(spec_is_default_entry(entries[i]));
            }
        }
    }
}

/// The reported default comes from an actual alias entry.
pub proof fn lemma_default_of_witness(entries: Seq<Seq<char>>, b: Seq<char>)
    requires
        spec_default_of(entries) == Option::Some(b),
    ensures
        exists|i: int|
            0 <= i < entries.len() && spec_is_default_entry(#[trigger] entries[i])
                && spec_default_base(entries[i]) == b,
    decreases entries.len(),
{
    if entries.len() > 0 {
        if spec_is_default_entry(entries.last()) {
            assert(spec_is_default_entry(entries[entries.len() - 1]) && spec_default_base(
                entries[entries.len() - 1],
            ) == b);
        } else {
            lemma_default_of_witness(entries.drop_last(), b);
            let i = choose|i: int|
                0 <= i < entries.drop_last().len() && spec_is_default_entry(
                    #[trigger] entries.drop_last()[i],
                ) && spec_default_base(entries.drop_last()[i]) == b;
            assert(spec_is_default_entry(entries[i]) && spec_default_base(entries[i]) == b);
        }
    }
}

/// A fresh copy of the committed entry list.
pub fn clone_dir(dir: &RuntimeDir) -> (r: RuntimeDir)
    ensures
        r.entries.deep_view() == dir.entries.deep_view(),
{
    let n = dir.entries.len();
    let mut out: Vec<String> = Vec::new();
    let mut i: usize = 0;
    while i < n
        invariant
            i <= n,
            n == dir.entries@.len(),
            out.deep_view() == dir.entries.deep_view().take(i as int),
        decreases n - i,
    {
        let ghost prev = out.deep_view();
        out.push(dir.entries[i].clone());
        proof {
            assert(out.deep_view() =~~= prev + seq![dir.entries.deep_view()[i as int]]);
            assert(prev + seq![dir.entries.deep_view()[i as int]] =~~= dir.entries.deep_view()
                .take(i + 1));
        }
        i = i + 1;
    }
    proof {
        assert(dir.entries.deep_view().take(n as int) =~~= dir.entries.deep_view());
    }
    RuntimeDir { entries: out }
}

/// The alias entry name for a version: the version text with the
/// reserved suffix appended.
pub fn default_alias_name(v: &str) -> (r: String)
    ensures
        r@ == v@ + spec_default_suffix(),
{
    let mut s = v.to_owned();
    s.append("-default");
    s
}

} // verus!
