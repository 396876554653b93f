//! Characters and strings: conversions and trimming.
//!
//! The buffer and the log work on sequences of characters; the surrounding
//! binary and the wire protocol speak `String`. This module holds the two
//! conversions and the whitespace trimming that submission applies.

use vstd::prelude::*;
use vstd::string::StrSliceExecFns;

verus! {

/// Whether `char::is_whitespace` holds of a character: a pure function of
/// the character alone.
pub uninterp spec fn unicode_whitespace(c: char) -> bool;

/// Relies on `char::is_whitespace`: whether the character has the Unicode
/// `White_Space` property.
#[verifier::external_body]
pub fn is_whitespace_char(c: char) -> (r: bool)
    ensures
        r == unicode_whitespace(c),
{
    c.is_whitespace()
}

/// Relies on `String::from_iter` over `char`: collecting characters yields
/// the string of exactly those characters.
#[verifier::external_body]
pub fn chars_to_string(v: &Vec<char>) -> (s: String)
    ensures
        s@ == v@,
{
    v.iter().collect()
}

/// Relies on `str`'s `PartialEq`: two string slices are equal exactly when
/// their characters are.
#[verifier::external_body]
pub fn str_eq(a: &str, b: &str) -> (r: bool)
    ensures
        r == (a@ == b@),
{
    a == b
}

/// The characters of a string slice, one by one.
pub fn str_to_chars(s: &str) -> (v: Vec<char>)
    ensures
        v@ == s@,
{
    let n = s.unicode_len();
    let mut v: Vec<char> = Vec::new();
    let mut i: usize = 0;
    while i < n
        invariant
            n == s@.len(),
            i <= n,
            v@ == s@.take(i as int),
        decreases n - i,
    {
        v.push(s.get_char(i));
        proof {
            assert(v@ =~= s@.take(i + 1));
        }
        i = i + 1;
    }
    proof {
        assert(v@ =~= s@);
    }
    v
}

/// Index of the first non-whitespace character at or after `i`, or the
/// length when everything from `i` on is whitespace.
pub open spec fn first_non_ws_at(s: Seq<char>, i: int) -> int
    decreases s.len() - i,
{
    if i < 0 || i >= s.len() {
        s.len() as int
    } else if !unicode_whitespace(s[i]) {
        i
    } else {
        first_non_ws_at(s, i + 1)
    }
}

/// Index of the last non-whitespace character strictly before `i`, or `-1`
/// when everything before `i` is whitespace.
pub open spec fn last_non_ws_before(s: Seq<char>, i: int) -> int
    decreases i,
{
    if i <= 0 || i > s.len() {
        -1
    } else if !unicode_whitespace(s[i - 1]) {
        i - 1
    } else {
        last_non_ws_before(s, i - 1)
    }
}

/// The last non-whitespace index before `i` lies strictly before `i`.
proof fn lemma_last_non_ws_lt(s: Seq<char>, i: int)
    requires
        0 <= i,
    ensures
        last_non_ws_before(s, i) < i,
    decreases i,
{
    if 0 < i <= s.len() && unicode_whitespace(s[i - 1]) {
        lemma_last_non_ws_lt(s, i - 1);
    }
}

/// The text with leading and trailing whitespace removed.
pub open spec fn trimmed(s: Seq<char>) -> Seq<char> {
    let a = first_non_ws_at(s, 0);
    let b = last_non_ws_before(s, s.len() as int);
    if a <= b {
        s.subrange(a, b + 1)
    } else {
        Seq::empty()
    }
}

/// Executable counterpart of [`trimmed`].
pub fn trim_chars(v: &Vec<char>) -> (r: Vec<char>)
    ensures
        r@ == trimmed(v@),
{
    let n = v.len();
    let mut a: usize = 0;
    while a < n && is_whitespace_char(v[a])
        invariant
            n == v@.len(),
            a <= n,
            first_non_ws_at(v@, 0) == first_non_ws_at(v@, a as int),
        decreases n - a,
    {
        a = a + 1;
    }
    if a == n {
        proof {
            lemma_last_non_ws_lt(v@, n as int);
        }
        let r: Vec<char> = Vec::new();
        return r;
    }
    let mut b: usize = n;
    while b > a && is_whitespace_char(v[b - 1])
        invariant
            n == v@.len(),
            a < n,
            a < b <= n,
            !unicode_whitespace(v@[a as int]),
            first_non_ws_at(v@, 0) == a as int,
            last_non_ws_before(v@, n as int) == last_non_ws_before(v@, b as int),
        decreases b,
    {
        b = b - 1;
    }
    let mut r: Vec<char> = Vec::new();
    let mut i: usize = a;
    while i < b
        invariant
            n == v@.len(),
            a <= i <= b <= n,
            r@ == v@.subrange(a as int, i as int),
        decreases b - i,
    {
        r.push(v[i]);
        proof {
            assert(r@ =~= v@.subrange(a as int, i + 1));
        }
        i = i + 1;
    }
    proof {
        assert(b > a);
        assert(!unicode_whitespace(v@[b - 1]));
        assert(last_non_ws_before(v@, b as int) == b - 1);
        assert(trimmed(v@) == v@.subrange(a as int, b as int));
    }
    r
}

} // verus!
