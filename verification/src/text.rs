//! Tests on text that the rules of the library are stated with.

use vstd::prelude::*;
use vstd::string::*;

verus! {

/// Calls `String::push`. Claims that the character is added at the end of the
/// text.
#[verifier::external_body]
pub(crate) fn push_char(text: &mut String, c: char)
    ensures
        final(text)@ == old(text)@.push(c),
{
    text.push(c)
}

/// Whether `s` begins with `prefix`.
pub open spec fn is_prefix(prefix: Seq<char>, s: Seq<char>) -> bool {
    prefix.len() <= s.len() && s.subrange(0, prefix.len() as int) == prefix
}

/// Whether `s` ends with `suffix`.
pub open spec fn is_suffix(suffix: Seq<char>, s: Seq<char>) -> bool {
    suffix.len() <= s.len() && s.subrange(s.len() - suffix.len(), s.len() as int) == suffix
}

/// Whether the characters of `part` stand in `s` from the place `at` on.
fn matches_at(s: &str, part: &str, at: usize, s_len: usize, part_len: usize) -> (same: bool)
    requires
        s_len == s@.len(),
        part_len == part@.len(),
        at + part_len <= s_len,
    ensures
        same == (s@.subrange(at as int, at + part_len) == part@),
{
    let mut i: usize = 0;
    while i < part_len
        invariant
            i <= part_len,
            s_len == s@.len(),
            part_len == part@.len(),
            at + part_len <= s_len,
            forall|k: int| 0 <= k < i ==> s@[at + k] == part@[k],
        decreases part_len - i,
    {
        if s.get_char(at + i) != part.get_char(i) {
            return false;
        }
        i = i + 1;
    }
    assert(s@.subrange(at as int, at + part_len) =~= part@);
    true
}

/// Whether `s` begins with `prefix`.
pub fn starts_with(s: &str, prefix: &str) -> (res: bool)
    ensures
        res == is_prefix(prefix@, s@),
{
    let s_len = s.unicode_len();
    let prefix_len = prefix.unicode_len();
    if prefix_len > s_len {
        return false;
    }
    matches_at(s, prefix, 0, s_len, prefix_len)
}

/// Whether `s` ends with `suffix`.
pub fn ends_with(s: &str, suffix: &str) -> (res: bool)
    ensures
        res == is_suffix(suffix@, s@),
{
    let s_len = s.unicode_len();
    let suffix_len = suffix.unicode_len();
    if suffix_len > s_len {
        return false;
    }
    matches_at(s, suffix, s_len - suffix_len, s_len, suffix_len)
}

} // verus!
