//! Character classes and scanning helpers shared by the tagline grammar and
//! the query grammar.

use vstd::prelude::*;

verus! {

/// A character of the tag identifier alphabet: an ASCII letter, an ASCII
/// digit, or a hyphen.
pub open spec fn is_tag_char(c: char) -> bool {
    ('a' as u32 <= c as u32 && c as u32 <= 'z' as u32) || ('A' as u32 <= c as u32 && c as u32
        <= 'Z' as u32) || ('0' as u32 <= c as u32 && c as u32 <= '9' as u32) || c == '-'
}

/// A whitespace character. Both grammars treat whitespace, newlines included,
/// as insignificant between tokens.
pub open spec fn is_space_char(c: char) -> bool {
    c == ' ' || c == '\t' || c == '\n' || c == '\r' || c == '\u{b}' || c == '\u{c}'
}

/// Executable test for [`is_tag_char`].
pub fn tag_char(c: char) -> (b: bool)
    ensures
        b == is_tag_char(c),
{
    let u = c as u32;
    ('a' as u32 <= u && u <= 'z' as u32) || ('A' as u32 <= u && u <= 'Z' as u32) || ('0' as u32 <= u
        && u <= '9' as u32) || c == '-'
}

/// Executable test for [`is_space_char`].
pub fn space_char(c: char) -> (b: bool)
    ensures
        b == is_space_char(c),
{
    c == ' ' || c == '\t' || c == '\n' || c == '\r' || c == '\u{b}' || c == '\u{c}'
}

/// The first position at or after `i` holding a character that is not
/// whitespace, or the end of the text.
pub open spec fn skip_ws(s: Seq<char>, i: int) -> int
    decreases s.len() - i,
{
    if 0 <= i && i < s.len() && is_space_char(s[i]) {
        skip_ws(s, i + 1)
    } else {
        i
    }
}

/// The end of the run of tag identifier characters that starts at `i`.
pub open spec fn ident_end(s: Seq<char>, i: int) -> int
    decreases s.len() - i,
{
    if 0 <= i && i < s.len() && is_tag_char(s[i]) {
        ident_end(s, i + 1)
    } else {
        i
    }
}

/// A run of tag identifier characters over `[a, b)`, ended at `b` by the end
/// of the text or by some other character, is exactly what [`ident_end`]
/// scans.
pub proof fn lemma_ident_end_run(s: Seq<char>, a: int, b: int)
    requires
        0 <= a <= b <= s.len(),
        forall|k: int| a <= k < b ==> is_tag_char(s[k]),
        b == s.len() || !is_tag_char(s[b]),
    ensures
        ident_end(s, a) == b,
    decreases b - a,
{
    if a < b {
        lemma_ident_end_run(s, a + 1, b);
    }
}

/// Advances over whitespace: the executable form of [`skip_ws`].
pub fn skip_spaces(s: &str, i: usize) -> (j: usize)
    requires
        i <= s@.len(),
    ensures
        j as int == skip_ws(s@, i as int),
        i <= j <= s@.len(),
    decreases s@.len() - i,
{
    let n = s.unicode_len();
    if i < n && space_char(s.get_char(i)) {
        skip_spaces(s, i + 1)
    } else {
        i
    }
}

/// Scans the run of tag identifier characters that starts at `i`: the
/// executable form of [`ident_end`].
pub fn scan_ident(s: &str, i: usize) -> (e: usize)
    requires
        i <= s@.len(),
    ensures
        e as int == ident_end(s@, i as int),
        i <= e <= s@.len(),
{
    let n = s.unicode_len();
    let mut e = i;
    while e < n && tag_char(s.get_char(e))
        invariant
            i <= e <= n,
            n == s@.len(),
            forall|k: int| i <= k < e ==> is_tag_char(s@[k]),
        decreases n - e,
    {
        e = e + 1;
    }
    proof {
        lemma_ident_end_run(s@, i as int, e as int);
    }
    e
}

} // verus!
