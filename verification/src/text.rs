//! Character-level matching on text evidence: prefix tests, substring
//! search, exact equality and token extraction, each proved against a
//! direct statement over the string's view.

use vstd::prelude::*;
use vstd::string::StrSliceExecFns;

verus! {

/// `p` is a prefix of `s`.
pub open spec fn starts_with(s: Seq<char>, p: Seq<char>) -> bool {
    p.len() <= s.len() && (forall|j: int| 0 <= j < p.len() ==> #[trigger] s[j] == p[j])
}

/// `p` occurs in `s` starting at position `k`.
pub open spec fn matches_at(s: Seq<char>, p: Seq<char>, k: int) -> bool {
    0 <= k && k + p.len() <= s.len() && (forall|j: int| 0 <= j < p.len() ==> #[trigger] s[k + j] == p[j])
}

/// `p` occurs somewhere in `s`.
pub open spec fn contains_seq(s: Seq<char>, p: Seq<char>) -> bool {
    exists|k: int| matches_at(s, p, k)
}

/// Index of the first occurrence of `c` in `s` at or after position `i`,
/// or `s.len()` when there is none.
pub open spec fn find_from(s: Seq<char>, c: char, i: int) -> int
    decreases s.len() - i,
{
    if i < 0 || i >= s.len() {
        s.len() as int
    } else if s[i] == c {
        i
    } else {
        find_from(s, c, i + 1)
    }
}

pub fn str_starts_with(s: &str, p: &str) -> (r: bool)
    ensures
        r == starts_with(s@, p@),
{
    let sl = s.unicode_len();
    let pl = p.unicode_len();
    if pl > sl {
        return false;
    }
    let mut i: usize = 0;
    while i < pl
        invariant
            sl == s@.len(),
            pl == p@.len(),
            pl <= sl,
            0 <= i <= pl,
            forall|j: int| 0 <= j < i ==> #[trigger] s@[j] == p@[j],
        decreases pl - i,
    {
        if s.get_char(i) != p.get_char(i) {
            return false;
        }
        i = i + 1;
    }
    true
}

/// The views are equal as character sequences.
pub fn str_eq(s: &str, p: &str) -> (r: bool)
    ensures
        r == (s@ == p@),
{
    let sl = s.unicode_len();
    let pl = p.unicode_len();
    if sl != pl {
        return false;
    }
    let r = str_starts_with(s, p);
    if r {
        proof {
            assert(s@ =~= p@);
        }
        true
    } else {
        false
    }
}

fn match_at(s: &str, p: &str, k: usize) -> (r: bool)
    requires
        k + p@.len() <= s@.len(),
    ensures
        r == matches_at(s@, p@, k as int),
{
    let sl = s.unicode_len();
    let pl = p.unicode_len();
    let mut j: usize = 0;
    while j < pl
        invariant
            sl == s@.len(),
            pl == p@.len(),
            k + pl <= s@.len(),
            0 <= j <= pl,
            forall|m: int| 0 <= m < j ==> #[trigger] s@[k + m] == p@[m],
        decreases pl - j,
    {
        if s.get_char(k + j) != p.get_char(j) {
            return false;
        }
        j = j + 1;
    }
    true
}

pub fn str_contains(s: &str, p: &str) -> (r: bool)
    ensures
        r == contains_seq(s@, p@),
{
    let sl = s.unicode_len();
    let pl = p.unicode_len();
    if pl > sl {
        return false;
    }
    let mut k: usize = 0;
    while k <= sl - pl
        invariant
            sl == s@.len(),
            pl == p@.len(),
            pl <= sl,
            0 <= k <= sl - pl + 1,
            forall|m: int| 0 <= m < k ==> !matches_at(s@, p@, m),
        decreases sl - pl + 1 - k,
    {
        if match_at(s, p, k) {
            return true;
        }
        k = k + 1;
    }
    false
}

/// The text up to the first `,` of `s` is exactly `t` (`t` itself holding
/// no `,` is the caller's concern).
pub open spec fn first_comma_token_is(s: Seq<char>, t: Seq<char>) -> bool {
    starts_with(s, t) && (s.len() == t.len() || s[t.len() as int] == ',')
}

pub fn str_first_comma_token_is(s: &str, t: &str) -> (r: bool)
    ensures
        r == first_comma_token_is(s@, t@),
{
    if !str_starts_with(s, t) {
        return false;
    }
    let tl = t.unicode_len();
    if s.unicode_len() == tl {
        true
    } else {
        s.get_char(tl) == ','
    }
}

/// A Unicode whitespace character, as the `White_Space` property defines
/// them (the set string trimming removes).
pub open spec fn is_space(c: char) -> bool {
    let u = c as u32;
    u == 0x09 || u == 0x0A || u == 0x0B || u == 0x0C || u == 0x0D || u == 0x20 || u == 0x85
        || u == 0xA0 || u == 0x1680 || (0x2000 <= u && u <= 0x200A) || u == 0x2028 || u == 0x2029
        || u == 0x202F || u == 0x205F || u == 0x3000
}

fn char_is_space(c: char) -> (r: bool)
    ensures
        r == is_space(c),
{
    let u = c as u32;
    u == 0x09 || u == 0x0A || u == 0x0B || u == 0x0C || u == 0x0D || u == 0x20 || u == 0x85
        || u == 0xA0 || u == 0x1680 || (0x2000 <= u && u <= 0x200A) || u == 0x2028 || u == 0x2029
        || u == 0x202F || u == 0x205F || u == 0x3000
}

/// Index of the first non-whitespace character at or after position `i`,
/// or the length when there is none.
pub open spec fn first_non_space(s: Seq<char>, i: int) -> int
    decreases s.len() - i,
{
    if i < 0 || i >= s.len() {
        s.len() as int
    } else if is_space(s[i]) {
        first_non_space(s, i + 1)
    } else {
        i
    }
}

/// The first character of `s` after leading whitespace is a minus sign.
pub open spec fn has_leading_minus(s: Seq<char>) -> bool {
    let i = first_non_space(s, 0);
    i < s.len() && s[i] == '-'
}

#[verifier::loop_isolation(false)]
pub fn str_has_leading_minus(s: &str) -> (r: bool)
    ensures
        r == has_leading_minus(s@),
{
    let n = s.unicode_len();
    let mut i: usize = 0;
    while i < n
        invariant
            0 <= i <= n,
            first_non_space(s@, 0) == first_non_space(s@, i as int),
        decreases n - i,
    {
        let c = s.get_char(i);
        if !char_is_space(c) {
            return c == '-';
        }
        i = i + 1;
    }
    false
}

/// `s` without one trailing line feed, and without one carriage return
/// left hanging before it.
pub open spec fn strip_eol(s: Seq<char>) -> Seq<char> {
    let t = if s.len() > 0 && s[s.len() - 1] == '\n' {
        s.subrange(0, s.len() - 1)
    } else {
        s
    };
    if t.len() > 0 && t[t.len() - 1] == '\r' {
        t.subrange(0, t.len() - 1)
    } else {
        t
    }
}

pub fn str_strip_eol(s: &str) -> (r: &str)
    ensures
        r@ == strip_eol(s@),
{
    let n = s.unicode_len();
    let mut end: usize = n;
    if end > 0 && s.get_char(end - 1) == '\n' {
        end = end - 1;
    }
    if end > 0 && s.get_char(end - 1) == '\r' {
        end = end - 1;
    }
    let r = s.substring_char(0, end);
    proof {
        assert(r@ =~= strip_eol(s@));
    }
    r
}

/// Index of the first occurrence of `c` at or after `from`, or the length.
pub fn str_find_from(s: &str, c: char, from: usize) -> (r: usize)
    requires
        from <= s@.len(),
    ensures
        r as int == find_from(s@, c, from as int),
        from <= r <= s@.len(),
{
    let n = s.unicode_len();
    let mut i: usize = from;
    while i < n
        invariant
            n == s@.len(),
            from <= i <= n,
            find_from(s@, c, from as int) == find_from(s@, c, i as int),
        decreases n - i,
    {
        if s.get_char(i) == c {
            return i;
        }
        i = i + 1;
    }
    n
}

} // verus!
