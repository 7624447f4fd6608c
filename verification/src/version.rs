//! The library's semantic-version model: `major.minor.patch` with an
//! optional `-prerelease` tail. Versions are parsed from text against an
//! exact grammar and ordered so that family-switch decisions (the 2.0.0
//! boundary between legacy and modern tool variants) are provable.

use vstd::prelude::*;

use crate::error::SnmError;

verus! {

/// The mathematical shape of a version: unbounded numbers and the raw
/// prerelease text, if any.
pub struct VersionView {
    pub major: nat,
    pub minor: nat,
    pub patch: nat,
    pub pre: Option<Seq<char>>,
}

/// A parsed semantic version. The prerelease tail is kept as its raw
/// text; two versions with the same number triple are ordered with the
/// prerelease one first.
#[derive(Debug, Clone, PartialEq)]
pub struct Version {
    pub major: u64,
    pub minor: u64,
    pub patch: u64,
    pub pre: Option<String>,
}

impl View for Version {
    type V = VersionView;

    open spec fn view(&self) -> VersionView {
        VersionView {
            major: self.major as nat,
            minor: self.minor as nat,
            patch: self.patch as nat,
            pre: match self.pre {
                Option::None => Option::None,
                Option::Some(p) => Option::Some(p@),
            },
        }
    }
}

pub open spec fn spec_is_digit(c: char) -> bool {
    48 <= c as u32 && c as u32 <= 57
}

pub open spec fn spec_digit_val(c: char) -> nat {
    (c as u32 - 48) as nat
}

/// A canonical decimal numeral: digits only, nonempty, no leading zero.
pub open spec fn spec_is_num(s: Seq<char>) -> bool {
    &&& s.len() > 0
    &&& forall|i: int| 0 <= i < s.len() ==> spec_is_digit(#[trigger] s[i])
    &&& (s.len() > 1 ==> s[0] != '0')
}

/// The number a digit string denotes.
pub open spec fn spec_num_val(s: Seq<char>) -> nat
    decreases s.len(),
{
    if s.len() == 0 {
        0
    } else {
        spec_num_val(s.drop_last()) * 10 + spec_digit_val(s.last())
    }
}

/// A character a prerelease tail may hold: ASCII digits, letters,
/// hyphen, and the dot that separates its identifiers.
pub open spec fn spec_is_pre_char(c: char) -> bool {
    ||| spec_is_digit(c)
    ||| 65 <= c as u32 && c as u32 <= 90
    ||| 97 <= c as u32 && c as u32 <= 122
    ||| c == '-'
    ||| c == '.'
}

pub open spec fn spec_is_pre(s: Seq<char>) -> bool {
    s.len() > 0 && forall|i: int| 0 <= i < s.len() ==> spec_is_pre_char(#[trigger] s[i])
}

/// First position of `c` in `s`, if any.
pub open spec fn spec_first_index_of(s: Seq<char>, c: char) -> Option<int>
    decreases s.len(),
{
    if s.len() == 0 {
        Option::None
    } else if s[0] == c {
        Option::Some(0)
    } else {
        match spec_first_index_of(s.drop_first(), c) {
            Option::None => Option::None,
            Option::Some(i) => Option::Some(i + 1),
        }
    }
}

/// A numeric component: a canonical numeral whose value fits the
/// machine representation.
pub open spec fn spec_parse_num(s: Seq<char>) -> Option<nat> {
    if spec_is_num(s) && spec_num_val(s) <= u64::MAX {
        Option::Some(spec_num_val(s))
    } else {
        Option::None
    }
}

/// The version grammar: `core[-pre]` where `core` is exactly three
/// numeric components joined by dots, and `pre` (everything after the
/// first hyphen) is nonempty prerelease text.
pub open spec fn spec_parse_version(s: Seq<char>) -> Option<VersionView> {
    let core = match spec_first_index_of(s, '-') {
        Option::None => s,
        Option::Some(h) => s.take(h),
    };
    let preopt = match spec_first_index_of(s, '-') {
        Option::None => Option::<Seq<char>>::None,
        Option::Some(h) => Option::Some(s.skip(h + 1)),
    };
    match spec_first_index_of(core, '.') {
        Option::None => Option::None,
        Option::Some(i) => {
            let rest = core.skip(i + 1);
            match spec_first_index_of(rest, '.') {
                Option::None => Option::None,
                Option::Some(j) => {
                    let a = core.take(i);
                    let b = rest.take(j);
                    let c = rest.skip(j + 1);
                    if spec_first_index_of(c, '.') is None {
                        match (spec_parse_num(a), spec_parse_num(b), spec_parse_num(c)) {
                            (Option::Some(ma), Option::Some(mi), Option::Some(pa)) => {
                                match preopt {
                                    Option::None => Option::Some(
                                        VersionView {
                                            major: ma,
                                            minor: mi,
                                            patch: pa,
                                            pre: Option::None,
                                        },
                                    ),
                                    Option::Some(p) => if spec_is_pre(p) {
                                        Option::Some(
                                            VersionView {
                                                major: ma,
                                                minor: mi,
                                                patch: pa,
                                                pre: Option::Some(p),
                                            },
                                        )
                                    } else {
                                        Option::None
                                    },
                                }
                            },
                            _ => Option::None,
                        }
                    } else {
                        Option::None
                    }
                },
            }
        },
    }
}

/// Lexicographic order on prerelease text by character code.
pub open spec fn spec_seq_lt(a: Seq<char>, b: Seq<char>) -> bool
    decreases a.len(),
{
    if b.len() == 0 {
        false
    } else if a.len() == 0 {
        true
    } else if (a[0] as u32) < (b[0] as u32) {
        true
    } else if a[0] == b[0] {
        spec_seq_lt(a.drop_first(), b.drop_first())
    } else {
        false
    }
}

pub open spec fn spec_digit_char(d: nat) -> char {
    if d == 0 {
        '0'
    } else if d == 1 {
        '1'
    } else if d == 2 {
        '2'
    } else if d == 3 {
        '3'
    } else if d == 4 {
        '4'
    } else if d == 5 {
        '5'
    } else if d == 6 {
        '6'
    } else if d == 7 {
        '7'
    } else if d == 8 {
        '8'
    } else {
        '9'
    }
}

/// The canonical decimal numeral of `n`.
pub open spec fn spec_dec(n: nat) -> Seq<char>
    decreases n,
{
    if n < 10 {
        seq![spec_digit_char(n)]
    } else {
        spec_dec(n / 10) + seq![spec_digit_char(n % 10)]
    }
}

/// The text a version renders to: `major.minor.patch`, then `-pre`
/// when a prerelease tail is present.
pub open spec fn spec_version_text(v: VersionView) -> Seq<char> {
    spec_dec(v.major) + seq!['.'] + spec_dec(v.minor) + seq!['.'] + spec_dec(v.patch) + (
    match v.pre {
        Option::None => Seq::<char>::empty(),
        Option::Some(p) => seq!['-'] + p,
    })
}

/// Version precedence: the number triple decides first; on a tie a
/// version with a prerelease tail comes before one without, and two
/// tails are ordered lexicographically.
pub open spec fn spec_version_lt(a: VersionView, b: VersionView) -> bool {
    if a.major != b.major {
        a.major < b.major
    } else if a.minor != b.minor {
        a.minor < b.minor
    } else if a.patch != b.patch {
        a.patch < b.patch
    } else {
        match (a.pre, b.pre) {
            (Option::None, Option::None) => false,
            (Option::Some(_), Option::None) => true,
            (Option::None, Option::Some(_)) => false,
            (Option::Some(p), Option::Some(q)) => spec_seq_lt(p, q),
        }
    }
}

/// Leading `v` / `V` markers, then surrounding whitespace, removed:
/// what a version argument from the command line is reduced to before
/// it is parsed.
pub open spec fn spec_strip_leading_vs(s: Seq<char>) -> Seq<char>
    decreases s.len(),
{
    if s.len() > 0 && (s[0] == 'v' || s[0] == 'V') {
        spec_strip_leading_vs(s.drop_first())
    } else {
        s
    }
}

pub open spec fn spec_is_space(c: char) -> bool {
    c == ' ' || c == '\t' || c == '\n' || c == '\r'
}

pub open spec fn spec_trim_start_spaces(s: Seq<char>) -> Seq<char>
    decreases s.len(),
{
    if s.len() > 0 && spec_is_space(s[0]) {
        spec_trim_start_spaces(s.drop_first())
    } else {
        s
    }
}

pub open spec fn spec_trim_end_spaces(s: Seq<char>) -> Seq<char>
    decreases s.len(),
{
    if s.len() > 0 && spec_is_space(s.last()) {
        spec_trim_end_spaces(s.drop_last())
    } else {
        s
    }
}

pub open spec fn spec_normalize_version_input(s: Seq<char>) -> Seq<char> {
    spec_trim_end_spaces(spec_trim_start_spaces(spec_strip_leading_vs(s)))
}

proof fn lemma_first_index_of_found(s: Seq<char>, c: char, i: int)
    requires
        0 <= i < s.len(),
        s[i] == c,
        forall|j: int| 0 <= j < i ==> s[j] != c,
    ensures
        spec_first_index_of(s, c) == Option::Some(i),
    decreases s.len(),
{
    if i > 0 {
        lemma_first_index_of_found(s.drop_first(), c, i - 1);
    }
}

proof fn lemma_first_index_of_absent(s: Seq<char>, c: char)
    requires
        forall|j: int| 0 <= j < s.len() ==> s[j] != c,
    ensures
        spec_first_index_of(s, c) == Option::<int>::None,
    decreases s.len(),
{
    if s.len() > 0 {
        lemma_first_index_of_absent(s.drop_first(), c);
    }
}

/// First position of `c` in `s`, scanning left to right.
pub fn find_char(s: &str, c: char) -> (r: Option<usize>)
    ensures
        match r {
            Option::Some(i) => i < s@.len() && s@[i as int] == c && spec_first_index_of(s@, c)
                == Option::Some(i as int),
            Option::None => spec_first_index_of(s@, c) is None,
        },
{
    let n = s.unicode_len();
    let mut i: usize = 0;
    while i < n
        invariant
            i <= n,
            n == s@.len(),
            forall|j: int| 0 <= j < i ==> s@[j] != c,
        decreases n - i,
    {
        if s.get_char(i) == c {
            proof {
                lemma_first_index_of_found(s@, c, i as int);
            }
            return Some(i);
        }
        i = i + 1;
    }
    proof {
        lemma_first_index_of_absent(s@, c);
    }
    None
}

/// A longer digit prefix never denotes a smaller number.
pub proof fn lemma_num_val_monotonic(s: Seq<char>, m: int, n: int)
    requires
        0 <= m <= n <= s.len(),
    ensures
        spec_num_val(s.take(m)) <= spec_num_val(s.take(n)),
    decreases n - m,
{
    if m < n {
        lemma_num_val_monotonic(s, m, n - 1);
        assert(s.take(n).drop_last() =~= s.take(n - 1));
        assert(spec_num_val(s.take(n)) == spec_num_val(s.take(n - 1)) * 10 + spec_digit_val(
            s.take(n)[n - 1],
        ));
    }
}

/// Parses one numeric component: digits only, no leading zero, value
/// within machine range.
pub fn parse_num_str(s: &str) -> (r: Option<u64>)
    ensures
        match r {
            Option::Some(v) => spec_parse_num(s@) == Option::Some(v as nat),
            Option::None => spec_parse_num(s@) is None,
        },
{
    let n = s.unicode_len();
    if n == 0 {
        return None;
    }
    if n > 1 && s.get_char(0) == '0' {
        return None;
    }
    let mut val: u64 = 0;
    let mut i: usize = 0;
    while i < n
        invariant
            i <= n,
            n == s@.len(),
            n > 0,
            n > 1 ==> s@[0] != '0',
            forall|j: int| 0 <= j < i ==> spec_is_digit(#[trigger] s@[j]),
            val == spec_num_val(s@.take(i as int)),
        decreases n - i,
    {
        let c = s.get_char(i);
        let cu = c as u32;
        if cu < 48 || cu > 57 {
            return None;
        }
        let d = (cu - 48) as u64;
        if val > u64::MAX / 10 || (val == u64::MAX / 10 && d > u64::MAX % 10) {
            proof {
                assert(s@.take(i + 1).drop_last() =~= s@.take(i as int));
                assert(spec_num_val(s@.take(i + 1)) > u64::MAX);
                lemma_num_val_monotonic(s@, i + 1, n as int);
                assert(s@.take(n as int) =~= s@);
            }
            return None;
        }
        proof {
            assert(s@.take(i + 1).drop_last() =~= s@.take(i as int));
        }
        val = val * 10 + d;
        i = i + 1;
    }
    proof {
        assert(s@.take(n as int) =~= s@);
    }
    Some(val)
}

fn is_pre_str(s: &str) -> (r: bool)
    ensures
        r == spec_is_pre(s@),
{
    let n = s.unicode_len();
    if n == 0 {
        return false;
    }
    let mut i: usize = 0;
    while i < n
        invariant
            i <= n,
            n == s@.len(),
            forall|j: int| 0 <= j < i ==> spec_is_pre_char(#[trigger] s@[j]),
        decreases n - i,
    {
        let c = s.get_char(i);
        let cu = c as u32;
        let ok = (48 <= cu && cu <= 57) || (65 <= cu && cu <= 90) || (97 <= cu && cu <= 122) || c
            == '-' || c == '.';
        if !ok {
            return false;
        }
        i = i + 1;
    }
    true
}

/// Reduces a command-line version argument to the text handed to the
/// parser: leading `v` / `V` markers dropped, whitespace trimmed.
pub fn normalize_version_input(s: &str) -> (r: &str)
    ensures
        r@ == spec_normalize_version_input(s@),
{
    let n = s.unicode_len();
    let mut lo: usize = 0;
    proof {
        assert(s@.skip(0) =~= s@);
    }
    loop
        invariant
            lo <= n,
            n == s@.len(),
            spec_strip_leading_vs(s@) == spec_strip_leading_vs(s@.skip(lo as int)),
        ensures
            lo <= n,
            spec_strip_leading_vs(s@) == s@.skip(lo as int),
        decreases n - lo,
    {
        if lo == n {
            break;
        }
        let c = s.get_char(lo);
        if !(c == 'v' || c == 'V') {
            break;
        }
        proof {
            assert(s@.skip(lo as int).drop_first() =~= s@.skip(lo + 1));
        }
        lo = lo + 1;
    }
    let mut i: usize = lo;
    loop
        invariant
            lo <= i <= n,
            n == s@.len(),
            spec_trim_start_spaces(s@.skip(lo as int)) == spec_trim_start_spaces(
                s@.skip(i as int),
            ),
        ensures
            lo <= i <= n,
            spec_trim_start_spaces(s@.skip(lo as int)) == s@.skip(i as int),
        decreases n - i,
    {
        if i == n {
            break;
        }
        let c = s.get_char(i);
        if !(c == ' ' || c == '\t' || c == '\n' || c == '\r') {
            break;
        }
        proof {
            assert(s@.skip(i as int).drop_first() =~= s@.skip(i + 1));
        }
        i = i + 1;
    }
    let mut j: usize = n;
    loop
        invariant
            i <= j <= n,
            n == s@.len(),
            spec_trim_end_spaces(s@.subrange(i as int, n as int)) == spec_trim_end_spaces(
                s@.subrange(i as int, j as int),
            ),
        ensures
            i <= j <= n,
            spec_trim_end_spaces(s@.subrange(i as int, n as int)) == s@.subrange(
                i as int,
                j as int,
            ),
        decreases j,
    {
        if j == i {
            break;
        }
        let c = s.get_char(j - 1);
        if !(c == ' ' || c == '\t' || c == '\n' || c == '\r') {
            break;
        }
        proof {
            assert(s@.subrange(i as int, j as int).drop_last() =~= s@.subrange(i as int, j - 1));
        }
        j = j - 1;
    }
    proof {
        assert(s@.skip(lo as int) =~= s@.subrange(lo as int, n as int));
        assert(s@.skip(i as int) =~= s@.subrange(i as int, n as int));
    }
    s.substring_char(i, j)
}

/// Character-by-character comparison of prerelease text.
fn seq_lt_str(a: &str, b: &str) -> (r: bool)
    ensures
        r == spec_seq_lt(a@, b@),
{
    let alen = a.unicode_len();
    let blen = b.unicode_len();
    let mut i: usize = 0;
    proof {
        assert(a@.skip(0) =~= a@);
        assert(b@.skip(0) =~= b@);
    }
    loop
        invariant
            i <= alen,
            i <= blen,
            alen == a@.len(),
            blen == b@.len(),
            spec_seq_lt(a@, b@) == spec_seq_lt(a@.skip(i as int), b@.skip(i as int)),
        ensures
            spec_seq_lt(a@, b@) == spec_seq_lt(a@.skip(i as int), b@.skip(i as int)),
            i == blen || i == alen || a@[i as int] != b@[i as int],
            i <= alen,
            i <= blen,
        decreases alen - i,
    {
        if i == blen || i == alen {
            break;
        }
        let ca = a.get_char(i);
        let cb = b.get_char(i);
        if ca != cb {
            break;
        }
        proof {
            assert(a@.skip(i as int).drop_first() =~= a@.skip(i + 1));
            assert(b@.skip(i as int).drop_first() =~= b@.skip(i + 1));
            assert(a@.skip(i as int).len() > 0 && b@.skip(i as int).len() > 0);
            assert(a@.skip(i as int)[0] == a@[i as int]);
            assert(b@.skip(i as int)[0] == b@[i as int]);
        }
        i = i + 1;
    }
    if i == blen {
        proof {
            assert(b@.skip(i as int).len() == 0);
        }
        return false;
    }
    if i == alen {
        proof {
            assert(a@.skip(i as int).len() == 0);
            assert(b@.skip(i as int).len() > 0);
        }
        return true;
    }
    let ca = a.get_char(i);
    let cb = b.get_char(i);
    proof {
        assert(a@.skip(i as int)[0] == a@[i as int]);
        assert(b@.skip(i as int)[0] == b@[i as int]);
    }
    (ca as u32) < (cb as u32)
}

impl Version {
    /// Strict precedence: the number triple first, then a prerelease
    /// tail before no tail, then the tails' text.
    pub fn lt(&self, other: &Version) -> (r: bool)
        ensures
            r == spec_version_lt(self@, other@),
    {
        if self.major != other.major {
            return self.major < other.major;
        }
        if self.minor != other.minor {
            return self.minor < other.minor;
        }
        if self.patch != other.patch {
            return self.patch < other.patch;
        }
        match (&self.pre, &other.pre) {
            (Option::None, Option::None) => false,
            (Option::Some(_), Option::None) => true,
            (Option::None, Option::Some(_)) => false,
            (Option::Some(p), Option::Some(q)) => seq_lt_str(p.as_str(), q.as_str()),
        }
    }
}

/// A version whose numbers fit the machine representation and whose
/// tail, if any, is valid prerelease text.
pub open spec fn spec_wf_version(v: VersionView) -> bool {
    &&& v.major <= u64::MAX
    &&& v.minor <= u64::MAX
    &&& v.patch <= u64::MAX
    &&& match v.pre {
        Option::None => true,
        Option::Some(p) => spec_is_pre(p),
    }
}

proof fn lemma_dec_is_num(n: nat)
    ensures
        spec_is_num(spec_dec(n)),
        spec_num_val(spec_dec(n)) == n,
        n >= 1 ==> spec_dec(n)[0] != '0',
    decreases n,
{
    if n < 10 {
        assert(spec_dec(n).drop_last() =~= Seq::<char>::empty());
        assert(spec_num_val(Seq::<char>::empty()) == 0);
        assert(spec_dec(n).last() == spec_digit_char(n));
        assert(spec_digit_val(spec_digit_char(n)) == n);
        assert(spec_num_val(spec_dec(n)) == spec_digit_val(spec_digit_char(n)));
    } else {
        lemma_dec_is_num(n / 10);
        let head = spec_dec(n / 10);
        let d = spec_dec(n);
        assert(d == head + seq![spec_digit_char(n % 10)]);
        assert forall|i: int| 0 <= i < d.len() implies spec_is_digit(#[trigger] d[i]) by {
            if i < head.len() {
                assert(d[i] == head[i]);
            } else {
                assert(d[i] == spec_digit_char(n % 10));
            }
        }
        assert(d[0] == head[0]);
        assert(d.drop_last() =~= head);
        assert(spec_num_val(d) == (n / 10) * 10 + n % 10);
    }
}

proof fn lemma_digits_are_not_separators(s: Seq<char>)
    requires
        forall|i: int| 0 <= i < s.len() ==> spec_is_digit(#[trigger] s[i]),
    ensures
        forall|i: int| 0 <= i < s.len() ==> s[i] != '.' && s[i] != '-',
{
    assert forall|i: int| 0 <= i < s.len() implies s[i] != '.' && s[i] != '-' by {
        assert(spec_is_digit(s[i]));
        assert('.' as u32 == 46 && '-' as u32 == 45);
    }
}

/// Rendering, then parsing, gives the version back: the version text
/// is an exact inverse image of the grammar.
pub proof fn lemma_version_text_parses_back(v: VersionView)
    requires
        spec_wf_version(v),
    ensures
        spec_parse_version(spec_version_text(v)) == Option::Some(v),
{
    let a = spec_dec(v.major);
    let b = spec_dec(v.minor);
    let c = spec_dec(v.patch);
    lemma_dec_is_num(v.major);
    lemma_dec_is_num(v.minor);
    lemma_dec_is_num(v.patch);
    lemma_digits_are_not_separators(a);
    lemma_digits_are_not_separators(b);
    lemma_digits_are_not_separators(c);
    let core = a + seq!['.'] + b + seq!['.'] + c;
    let text = spec_version_text(v);
    assert('.' as u32 == 46 && '-' as u32 == 45);

    match v.pre {
        Option::None => {
            assert(text =~= core);
            assert forall|j: int| 0 <= j < text.len() implies #[trigger] text[j] != '-' by {
                if j < a.len() {
                    assert(text[j] == a[j]);
                } else if j == a.len() {
                    assert(text[j] == '.');
                } else if j < a.len() + 1 + b.len() {
                    assert(text[j] == b[j - a.len() - 1]);
                } else if j == a.len() + 1 + b.len() {
                    assert(text[j] == '.');
                } else {
                    assert(text[j] == c[j - a.len() - 1 - b.len() - 1]);
                }
            }
            lemma_first_index_of_absent(text, '-');
            lemma_core_decomposition(a, b, c, text);
        },
        Option::Some(p) => {
            assert(text =~= core + seq!['-'] + p);
            let h = core.len() as int;
            assert(text[h] == '-');
            assert forall|j: int| 0 <= j < h implies #[trigger] text[j] != '-' by {
                if j < a.len() {
                    assert(text[j] == a[j]);
                } else if j == a.len() {
                    assert(text[j] == '.');
                } else if j < a.len() + 1 + b.len() {
                    assert(text[j] == b[j - a.len() - 1]);
                } else if j == a.len() + 1 + b.len() {
                    assert(text[j] == '.');
                } else {
                    assert(text[j] == c[j - a.len() - 1 - b.len() - 1]);
                }
            }
            lemma_first_index_of_found(text, '-', h);
            assert(text.take(h) =~= core);
            assert(text.skip(h + 1) =~= p);
            lemma_core_decomposition(a, b, c, core);
        },
    }
}

/// The core text splits back into exactly its three numerals.
proof fn lemma_core_decomposition(a: Seq<char>, b: Seq<char>, c: Seq<char>, core: Seq<char>)
    requires
        core == a + seq!['.'] + b + seq!['.'] + c,
        forall|i: int| 0 <= i < a.len() ==> #[trigger] a[i] != '.',
        forall|i: int| 0 <= i < b.len() ==> #[trigger] b[i] != '.',
        forall|i: int| 0 <= i < c.len() ==> #[trigger] c[i] != '.',
    ensures
        spec_first_index_of(core, '.') == Option::Some(a.len() as int),
        core.take(a.len() as int) == a,
        spec_first_index_of(core.skip(a.len() as int + 1), '.') == Option::Some(b.len() as int),
        core.skip(a.len() as int + 1).take(b.len() as int) == b,
        spec_first_index_of(core.skip(a.len() as int + 1).skip(b.len() as int + 1), '.') is None,
        core.skip(a.len() as int + 1).skip(b.len() as int + 1) == c,
{
    let i = a.len() as int;
    assert(core[i] == '.');
    assert forall|j: int| 0 <= j < i implies #[trigger] core[j] != '.' by {
        assert(core[j] == a[j]);
    }
    lemma_first_index_of_found(core, '.', i);
    assert(core.take(i) =~= a);
    let rest = core.skip(i + 1);
    assert(rest =~= b + seq!['.'] + c);
    let j = b.len() as int;
    assert(rest[j] == '.');
    assert forall|k: int| 0 <= k < j implies #[trigger] rest[k] != '.' by {
        assert(rest[k] == b[k]);
    }
    lemma_first_index_of_found(rest, '.', j);
    assert(rest.take(j) =~= b);
    let tail = rest.skip(j + 1);
    assert(tail =~= c);
    lemma_first_index_of_absent(tail, '.');
}

fn digit_str(d: u64) -> (r: &'static str)
    requires
        d < 10,
    ensures
        r@ =~= seq![spec_digit_char(d as nat)],
{
    proof {
        reveal_strlit("0");
        reveal_strlit("1");
        reveal_strlit("2");
        reveal_strlit("3");
        reveal_strlit("4");
        reveal_strlit("5");
        reveal_strlit("6");
        reveal_strlit("7");
        reveal_strlit("8");
        reveal_strlit("9");
    }
    match d {
        0 => "0",
        1 => "1",
        2 => "2",
        3 => "3",
        4 => "4",
        5 => "5",
        6 => "6",
        7 => "7",
        8 => "8",
        _ => "9",
    }
}

/// Appends the canonical decimal numeral of `n`.
pub fn push_dec(n: u64, out: &mut String)
    ensures
        final(out)@ == old(out)@ + spec_dec(n as nat),
    decreases n,
{
    if n >= 10 {
        push_dec(n / 10, out);
    }
    out.append(digit_str(n % 10));
    proof {
        if n >= 10 {
            assert(old(out)@ + spec_dec((n / 10) as nat) + seq![spec_digit_char((n % 10) as nat)]
                =~= old(out)@ + spec_dec(n as nat));
        } else {
            assert(old(out)@ + seq![spec_digit_char(n as nat)] =~= old(out)@ + spec_dec(n as nat));
        }
    }
}

impl Version {
    /// Renders the version back to its canonical text.
    pub fn to_version_string(&self) -> (r: String)
        ensures
            r@ == spec_version_text(self@),
    {
        let mut out = String::new();
        push_dec(self.major, &mut out);
        out.append(".");
        push_dec(self.minor, &mut out);
        out.append(".");
        push_dec(self.patch, &mut out);
        if let Some(p) = &self.pre {
            out.append("-");
            out.append(p.as_str());
        }
        proof {
            reveal_strlit(".");
            reveal_strlit("-");
            assert(out@ =~= spec_version_text(self@));
        }
        out
    }
}

impl Version {
    /// Parses `major.minor.patch[-pre]` against the version grammar;
    /// rejects anything else, naming the offending text.
    pub fn parse(s: &str) -> (r: Result<Version, SnmError>)
        ensures
            match r {
                Result::Ok(v) => spec_parse_version(s@) == Option::Some(v@),
                Result::Err(e) => spec_parse_version(s@) is None && (e matches
                    SnmError::InvalidVersion { raw } && raw@ == s@),
            },
    {
        let n = s.unicode_len();
        let (core, preopt): (&str, Option<&str>) = match find_char(s, '-') {
            Some(h) => (s.substring_char(0, h), Some(s.substring_char(h + 1, n))),
            None => (s, None),
        };
        let clen = core.unicode_len();
        let i = match find_char(core, '.') {
            Some(i) => i,
            None => {
                return Err(SnmError::InvalidVersion { raw: s.to_owned() });
            },
        };
        let rest = core.substring_char(i + 1, clen);
        let rlen = rest.unicode_len();
        let j = match find_char(rest, '.') {
            Some(j) => j,
            None => {
                return Err(SnmError::InvalidVersion { raw: s.to_owned() });
            },
        };
        let a = core.substring_char(0, i);
        let b = rest.substring_char(0, j);
        let c = rest.substring_char(j + 1, rlen);
        if let Some(_) = find_char(c, '.') {
            return Err(SnmError::InvalidVersion { raw: s.to_owned() });
        }
        let major = match parse_num_str(a) {
            Some(v) => v,
            None => {
                return Err(SnmError::InvalidVersion { raw: s.to_owned() });
            },
        };
        let minor = match parse_num_str(b) {
            Some(v) => v,
            None => {
                return Err(SnmError::InvalidVersion { raw: s.to_owned() });
            },
        };
        let patch = match parse_num_str(c) {
            Some(v) => v,
            None => {
                return Err(SnmError::InvalidVersion { raw: s.to_owned() });
            },
        };
        match preopt {
            None => Ok(Version { major, minor, patch, pre: None }),
            Some(p) => {
                if is_pre_str(p) {
                    Ok(Version { major, minor, patch, pre: Some(p.to_owned()) })
                } else {
                    Err(SnmError::InvalidVersion { raw: s.to_owned() })
                }
            },
        }
    }
}

} // verus!
