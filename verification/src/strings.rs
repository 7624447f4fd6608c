//! Verified character-level string operations: equality, prefix and suffix
//! tests, suffix stripping, and substring search. Everything is specified
//! against the `Seq<char>` view of `str`.

use vstd::prelude::*;

verus! {

/// `sfx` closes `s`.
pub open spec fn spec_ends_with(s: Seq<char>, sfx: Seq<char>) -> bool {
    sfx.len() <= s.len() && s.subrange(s.len() - sfx.len(), s.len() as int) == sfx
}

/// `pfx` opens `s`.
pub open spec fn spec_starts_with(s: Seq<char>, pfx: Seq<char>) -> bool {
    pfx.len() <= s.len() && s.subrange(0, pfx.len() as int) == pfx
}

/// `sub` occurs somewhere inside `s`.
pub open spec fn spec_contains_sub(s: Seq<char>, sub: Seq<char>) -> bool {
    exists|i: int|
        0 <= i && i + sub.len() <= s.len() && #[trigger] s.subrange(i, i + sub.len()) == sub
}

/// `s` with every trailing repetition of `sfx` removed.
pub open spec fn spec_trim_end_matches(s: Seq<char>, sfx: Seq<char>) -> Seq<char>
    decreases s.len(),
{
    if sfx.len() > 0 && spec_ends_with(s, sfx) {
        spec_trim_end_matches(s.subrange(0, s.len() - sfx.len()), sfx)
    } else {
        s
    }
}

/// Appending `sfx` always yields something that ends with it.
pub proof fn lemma_concat_ends_with(a: Seq<char>, sfx: Seq<char>)
    ensures
        spec_ends_with(a + sfx, sfx),
{
    assert((a + sfx).subrange((a + sfx).len() - sfx.len(), (a + sfx).len() as int) =~= sfx);
}

/// Stripping never leaves a string that still ends with the suffix.
pub proof fn lemma_trim_end_not_ends_with(s: Seq<char>, sfx: Seq<char>)
    requires
        sfx.len() > 0,
    ensures
        !spec_ends_with(spec_trim_end_matches(s, sfx), sfx),
    decreases s.len(),
{
    if spec_ends_with(s, sfx) {
        lemma_trim_end_not_ends_with(s.subrange(0, s.len() - sfx.len()), sfx);
    }
}

/// Stripping `a + sfx` gives back `a` when `a` itself does not end
/// with the suffix.
pub proof fn lemma_trim_end_of_concat(a: Seq<char>, sfx: Seq<char>)
    requires
        sfx.len() > 0,
        !spec_ends_with(a, sfx),
    ensures
        spec_trim_end_matches(a + sfx, sfx) == a,
{
    lemma_concat_ends_with(a, sfx);
    assert((a + sfx).subrange(0, (a + sfx).len() - sfx.len()) =~= a);
    assert(spec_trim_end_matches(a, sfx) == a);
}

pub fn str_eq(a: &str, b: &str) -> (r: bool)
    ensures
        r == (a@ == b@),
{
    let alen = a.unicode_len();
    let blen = b.unicode_len();
    if alen != blen {
        return false;
    }
    let mut i: usize = 0;
    while i < alen
        invariant
            i <= alen,
            alen == a@.len(),
            alen == b@.len(),
            forall|j: int| 0 <= j < i ==> a@[j] == b@[j],
        decreases alen - i,
    {
        if a.get_char(i) != b.get_char(i) {
            return false;
        }
        i = i + 1;
    }
    proof {
        assert(a@ =~= b@);
    }
    true
}

pub fn str_ends_with(s: &str, sfx: &str) -> (r: bool)
    ensures
        r == spec_ends_with(s@, sfx@),
{
    let slen = s.unicode_len();
    let flen = sfx.unicode_len();
    if flen > slen {
        return false;
    }
    let tail = s.substring_char(slen - flen, slen);
    let r = str_eq(tail, sfx);
    proof {
        if r {
            assert(s@.subrange(s@.len() - sfx@.len(), s@.len() as int) == sfx@);
        }
    }
    r
}

pub fn str_starts_with(s: &str, pfx: &str) -> (r: bool)
    ensures
        r == spec_starts_with(s@, pfx@),
{
    let slen = s.unicode_len();
    let plen = pfx.unicode_len();
    if plen > slen {
        return false;
    }
    let head = s.substring_char(0, plen);
    str_eq(head, pfx)
}

pub fn str_contains_sub(s: &str, sub: &str) -> (r: bool)
    ensures
        r == spec_contains_sub(s@, sub@),
{
    let slen = s.unicode_len();
    let mlen = sub.unicode_len();
    if mlen > slen {
        return false;
    }
    if mlen == 0 {
        proof {
            assert(s@.subrange(0, 0 + sub@.len() as int) =~= sub@);
        }
        return true;
    }
    let bound = slen - mlen;
    let mut i: usize = 0;
    while i <= bound
        invariant
            slen == s@.len(),
            mlen == sub@.len(),
            0 < mlen <= slen,
            bound == slen - mlen,
            i <= bound + 1,
            forall|j: int| 0 <= j < i ==> #[trigger] s@.subrange(j, j + sub@.len()) != sub@,
        decreases slen - i,
    {
        let window = s.substring_char(i, i + mlen);
        if str_eq(window, sub) {
            return true;
        }
        i = i + 1;
    }
    proof {
        assert forall|j: int| 0 <= j && j + sub@.len() <= s@.len() implies #[trigger] s@.subrange(
            j,
            j + sub@.len(),
        ) != sub@ by {
            assert(j < i);
        }
    }
    false
}

/// Strips every trailing repetition of `sfx`, as the committed directory
/// names demand when the reserved default suffix is peeled off.
pub fn str_trim_end_matches<'a>(s: &'a str, sfx: &str) -> (r: &'a str)
    ensures
        r@ == spec_trim_end_matches(s@, sfx@),
{
    let flen = sfx.unicode_len();
    if flen == 0 {
        return s;
    }
    let mut cur: &'a str = s;
    loop
        invariant
            flen == sfx@.len(),
            flen > 0,
            spec_trim_end_matches(cur@, sfx@) == spec_trim_end_matches(s@, sfx@),
        ensures
            !spec_ends_with(cur@, sfx@),
            spec_trim_end_matches(cur@, sfx@) == spec_trim_end_matches(s@, sfx@),
        decreases cur@.len(),
    {
        if !str_ends_with(cur, sfx) {
            break;
        }
        let clen = cur.unicode_len();
        cur = cur.substring_char(0, clen - flen);
    }
    proof {
        assert(spec_trim_end_matches(cur@, sfx@) == cur@);
    }
    cur
}

} // verus!
