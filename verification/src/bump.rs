//! Release-bump arithmetic: from a current version, the seven candidate
//! next versions (major, minor, patch, their pre-release forms, and the
//! incremented prerelease) that the interactive bump flow offers.

use vstd::prelude::*;

use crate::version::{
    spec_dec, spec_is_digit, spec_is_space, spec_num_val, Version, VersionView,
};

verus! {

/// The first non-space position at or after `i`.
pub open spec fn spec_skip_spaces(s: Seq<char>, i: int) -> int
    decreases s.len() - i when 0 <= i <= s.len()
{
    if i < s.len() && spec_is_space(s[i]) {
        spec_skip_spaces(s, i + 1)
    } else {
        i
    }
}

/// The first position of `c` at or after `i`.
pub open spec fn spec_find_from(s: Seq<char>, c: char, i: int) -> Option<int>
    decreases s.len() - i when 0 <= i <= s.len()
{
    if i >= s.len() {
        Option::None
    } else if s[i] == c {
        Option::Some(i)
    } else {
        spec_find_from(s, c, i + 1)
    }
}

/// The quoted key that opens a version field.
pub open spec fn spec_vf_key() -> Seq<char> {
    "\"version\""@
}

/// Where a version field starting at `p` ends (exclusive): the quoted
/// key, optional spaces, a colon, optional spaces, then a quoted
/// value.
pub open spec fn spec_vf_match_end(s: Seq<char>, p: int) -> Option<int> {
    if 0 <= p && p + 9 <= s.len() && s.subrange(p, p + 9) == spec_vf_key() {
        let q = spec_skip_spaces(s, p + 9);
        if q < s.len() && s[q] == ':' {
            let q2 = spec_skip_spaces(s, q + 1);
            if q2 < s.len() && s[q2] == '"' {
                match spec_find_from(s, '"', q2 + 1) {
                    Option::Some(e) => Option::Some(e + 1),
                    Option::None => Option::None,
                }
            } else {
                Option::None
            }
        } else {
            Option::None
        }
    } else {
        Option::None
    }
}

/// The leftmost version field at or after `i`, as its bounds.
pub open spec fn spec_vf_first_match(s: Seq<char>, i: int) -> Option<(int, int)>
    decreases s.len() - i when 0 <= i <= s.len()
{
    if i >= s.len() {
        Option::None
    } else {
        match spec_vf_match_end(s, i) {
            Option::Some(e) => Option::Some((i, e)),
            Option::None => spec_vf_first_match(s, i + 1),
        }
    }
}

/// The manifest text with the first version field rewritten to the
/// new version, in canonical spacing; text without such a field stays
/// as it is.
pub open spec fn spec_replace_version_field(s: Seq<char>, newv: Seq<char>) -> Seq<char> {
    match spec_vf_first_match(s, 0) {
        Option::None => s,
        Option::Some((b, e)) => s.take(b) + "\"version\": \""@ + newv + "\""@ + s.skip(e),
    }
}

/// A digit string that a small counter accepts: nonempty, digits only
/// (leading zeros allowed), value at most 255.
pub open spec fn spec_is_small_num(s: Seq<char>) -> bool {
    &&& s.len() > 0
    &&& forall|i: int| 0 <= i < s.len() ==> spec_is_digit(#[trigger] s[i])
    &&& spec_num_val(s) <= 255
}

/// The running prerelease counter: the tail read as a small number, or
/// zero when there is no tail or it is not one.
pub open spec fn spec_pre_number(p: Option<Seq<char>>) -> nat {
    match p {
        Option::None => 0,
        Option::Some(s) => if spec_is_small_num(s) {
            spec_num_val(s)
        } else {
            0
        },
    }
}

/// The raw text of an optional prerelease tail.
pub open spec fn spec_pre_view(p: Option<String>) -> Option<Seq<char>> {
    match p {
        Option::None => Option::None,
        Option::Some(s) => Option::Some(s@),
    }
}

/// Reads the prerelease tail as the running counter.
pub fn parse_pre_number(p: &Option<String>) -> (r: u64)
    ensures
        r as nat == spec_pre_number(spec_pre_view(*p)),
        r <= 255,
{
    let s = match p {
        Option::None => {
            return 0;
        },
        Option::Some(s) => s.as_str(),
    };
    proof {
        assert(spec_pre_view(*p) == Option::Some(s@));
    }
    let n = s.unicode_len();
    if n == 0 {
        return 0;
    }
    let mut val: u64 = 0;
    let mut i: usize = 0;
    while i < n
        invariant
            i <= n,
            n == s@.len(),
            n > 0,
            spec_pre_view(*p) == Option::Some(s@),
            forall|j: int| 0 <= j < i ==> spec_is_digit(#[trigger] s@[j]),
            val == spec_num_val(s@.take(i as int)),
            val <= 255,
        decreases n - i,
    {
        let c = s.get_char(i);
        let cu = c as u32;
        if cu < 48 || cu > 57 {
            proof {
                assert(!spec_is_digit(s@[i as int]));
                assert(!spec_is_small_num(s@));
            }
            return 0;
        }
        let d = (cu - 48) as u64;
        proof {
            assert(s@.take(i + 1).drop_last() =~= s@.take(i as int));
            assert(s@.take(i + 1).last() == s@[i as int]);
            assert(spec_num_val(s@.take(i + 1)) == val * 10 + d);
        }
        if val * 10 + d > 255 {
            proof {
                crate::version::lemma_num_val_monotonic(s@, i + 1, n as int);
                assert(s@.take(n as int) =~= s@);
                assert(spec_num_val(s@) > 255);
                assert(!spec_is_small_num(s@));
            }
            return 0;
        }
        val = val * 10 + d;
        i = i + 1;
    }
    proof {
        assert(s@.take(n as int) =~= s@);
    }
    val
}

fn skip_spaces_at(s: &str, start: usize) -> (r: usize)
    requires
        start <= s@.len(),
    ensures
        r as int == spec_skip_spaces(s@, start as int),
        start <= r <= s@.len(),
{
    let n = s.unicode_len();
    let mut i: usize = start;
    loop
        invariant
            start <= i <= n,
            n == s@.len(),
            spec_skip_spaces(s@, start as int) == spec_skip_spaces(s@, i as int),
        ensures
            start <= i <= n,
            spec_skip_spaces(s@, start as int) == i as int,
        decreases n - i,
    {
        if i == n {
            break;
        }
        let c = s.get_char(i);
        if !(c == ' ' || c == '\t' || c == '\n' || c == '\r') {
            break;
        }
        i = i + 1;
    }
    i
}

fn find_char_from(s: &str, c: char, start: usize) -> (r: Option<usize>)
    requires
        start <= s@.len(),
    ensures
        match r {
            Option::Some(j) => start <= j < s@.len() && spec_find_from(s@, c, start as int)
                == Option::Some(j as int),
            Option::None => spec_find_from(s@, c, start as int) is None,
        },
{
    let n = s.unicode_len();
    let mut i: usize = start;
    loop
        invariant
            start <= i <= n,
            n == s@.len(),
            spec_find_from(s@, c, start as int) == spec_find_from(s@, c, i as int),
        ensures
            start <= i <= n,
            spec_find_from(s@, c, start as int) == spec_find_from(s@, c, i as int),
            i == n || s@[i as int] == c,
        decreases n - i,
    {
        if i == n {
            break;
        }
        if s.get_char(i) == c {
            break;
        }
        i = i + 1;
    }
    if i == n {
        None
    } else {
        Some(i)
    }
}

fn version_field_end(s: &str, p: usize) -> (r: Option<usize>)
    requires
        p <= s@.len(),
    ensures
        match r {
            Option::Some(e) => spec_vf_match_end(s@, p as int) == Option::Some(e as int) && p < e
                <= s@.len(),
            Option::None => spec_vf_match_end(s@, p as int) is None,
        },
{
    let n = s.unicode_len();
    if n - p < 9 {
        return None;
    }
    let key = s.substring_char(p, p + 9);
    if !crate::strings::str_eq(key, "\"version\"") {
        return None;
    }
    let q = skip_spaces_at(s, p + 9);
    if q == n {
        return None;
    }
    if s.get_char(q) != ':' {
        return None;
    }
    let q2 = skip_spaces_at(s, q + 1);
    if q2 == n {
        return None;
    }
    if s.get_char(q2) != '"' {
        return None;
    }
    match find_char_from(s, '"', q2 + 1) {
        Some(e) => Some(e + 1),
        None => None,
    }
}

fn find_version_field(s: &str) -> (r: Option<(usize, usize)>)
    ensures
        match r {
            Option::Some(be) => spec_vf_first_match(s@, 0) == Option::Some(
                (be.0 as int, be.1 as int),
            ) && be.0 < be.1 <= s@.len(),
            Option::None => spec_vf_first_match(s@, 0) is None,
        },
{
    let n = s.unicode_len();
    let mut p: usize = 0;
    loop
        invariant
            p <= n,
            n == s@.len(),
            spec_vf_first_match(s@, 0) == spec_vf_first_match(s@, p as int),
        ensures
            p == n,
            n == s@.len(),
            spec_vf_first_match(s@, 0) == spec_vf_first_match(s@, p as int),
        decreases n - p,
    {
        if p == n {
            break;
        }
        match version_field_end(s, p) {
            Some(e) => {
                proof {
                    assert(spec_vf_first_match(s@, p as int) == Option::Some((p as int, e as int)));
                }
                return Some((p, e));
            },
            None => {},
        }
        p = p + 1;
    }
    proof {
        assert(p == n);
        assert(spec_vf_first_match(s@, p as int) is None);
    }
    None
}

/// Rewrites the first version field of a manifest text to the new
/// version; text without one stays as it is.
pub fn replace_version_field(text: &str, new_version: &str) -> (r: String)
    ensures
        r@ == spec_replace_version_field(text@, new_version@),
{
    let n = text.unicode_len();
    match find_version_field(text) {
        None => text.to_owned(),
        Some((b, e)) => {
            let mut out = text.substring_char(0, b).to_owned();
            out.append("\"version\": \"");
            out.append(new_version);
            out.append("\"");
            out.append(text.substring_char(e, n));
            proof {
                assert(out@ =~= spec_replace_version_field(text@, new_version@));
            }
            out
        },
    }
}

/// The seven candidates the bump flow offers, in its fixed order.
pub struct BumpCandidates {
    pub major: Version,
    pub minor: Version,
    pub patch: Version,
    pub premajor: Version,
    pub preminor: Version,
    pub prepatch: Version,
    pub prerelease: Version,
}

/// Computes every bump candidate from the current version: the plain
/// bumps clear the lower fields and drop the tail, the pre-release
/// bumps start a `-0` tail, and the prerelease bump keeps the triple
/// and advances the running counter.
pub fn bump_candidates(v: &Version) -> (r: BumpCandidates)
    requires
        v.major < u64::MAX,
        v.minor < u64::MAX,
        v.patch < u64::MAX,
    ensures
        r.major@ == (VersionView {
            major: v@.major + 1,
            minor: 0,
            patch: 0,
            pre: Option::None,
        }),
        r.minor@ == (VersionView {
            major: v@.major,
            minor: v@.minor + 1,
            patch: 0,
            pre: Option::None,
        }),
        r.patch@ == (VersionView {
            major: v@.major,
            minor: v@.minor,
            patch: v@.patch + 1,
            pre: Option::None,
        }),
        r.premajor@ == (VersionView {
            major: v@.major + 1,
            minor: 0,
            patch: 0,
            pre: Option::Some(spec_dec(0)),
        }),
        r.preminor@ == (VersionView {
            major: v@.major,
            minor: v@.minor + 1,
            patch: 0,
            pre: Option::Some(spec_dec(0)),
        }),
        r.prepatch@ == (VersionView {
            major: v@.major,
            minor: v@.minor,
            patch: v@.patch + 1,
            pre: Option::Some(spec_dec(0)),
        }),
        r.prerelease@ == (VersionView {
            major: v@.major,
            minor: v@.minor,
            patch: v@.patch,
            pre: Option::Some(spec_dec(spec_pre_number(v@.pre) + 1)),
        }),
{
    let zero = {
        let mut z = String::new();
        crate::version::push_dec(0, &mut z);
        z
    };
    let pre_n = parse_pre_number(&v.pre);
    let next_pre = {
        let mut p = String::new();
        crate::version::push_dec(pre_n + 1, &mut p);
        p
    };
    BumpCandidates {
        major: Version { major: v.major + 1, minor: 0, patch: 0, pre: None },
        minor: Version { major: v.major, minor: v.minor + 1, patch: 0, pre: None },
        patch: Version { major: v.major, minor: v.minor, patch: v.patch + 1, pre: None },
        premajor: Version {
            major: v.major + 1,
            minor: 0,
            patch: 0,
            pre: Some(zero.clone()),
        },
        preminor: Version {
            major: v.major,
            minor: v.minor + 1,
            patch: 0,
            pre: Some(zero.clone()),
        },
        prepatch: Version {
            major: v.major,
            minor: v.minor,
            patch: v.patch + 1,
            pre: Some(zero),
        },
        prerelease: Version {
            major: v.major,
            minor: v.minor,
            patch: v.patch,
            pre: Some(next_pre),
        },
    }
}

} // verus!
