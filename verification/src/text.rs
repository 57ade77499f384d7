//! Moving between `str`, whose characters are reached only front to back,
//! and slices of `char`, which the scanners index freely.

use vstd::prelude::*;

verus! {

/// Taken on trust from the standard library, not proved here:
/// `String::push` appends the given character to the end of the string and
/// leaves everything before it as it was.
pub assume_specification[ String::push ](s: &mut String, c: char)
    ensures
        final(s)@ == old(s)@.push(c),
;

/// The scalar values of `s`, in order.
pub fn to_chars(s: &str) -> (chars: Vec<char>)
    ensures
        chars@ == s@,
{
    let mut chars: Vec<char> = Vec::new();
    for c in it: s.chars()
        invariant
            it.seq() == s@,
            chars@ == it.history(),
    {
        chars.push(c);
    }
    chars
}

/// A string holding exactly the scalar values of `chars`, in order.
pub fn to_text(chars: &[char]) -> (text: String)
    ensures
        text@ == chars@,
{
    let mut text = String::new();
    let mut i: usize = 0;
    while i < chars.len()
        invariant
            i <= chars.len(),
            text@ == chars@.take(i as int),
        decreases chars.len() - i,
    {
        text.push(chars[i]);
        i += 1;
    }
    text
}

/// Whether `text` begins with the characters of `prefix`.
pub fn starts_with(text: &[char], prefix: &str) -> (found: bool)
    ensures
        found == prefix@.is_prefix_of(text@),
{
    let mut i: usize = 0;
    for c in it: prefix.chars()
        invariant
            it.seq() == prefix@,
            i == it.index(),
            i <= text.len(),
            text@.take(i as int) == prefix@.take(i as int),
    {
        if i >= text.len() || text[i] != c {
            return false;
        }
        i += 1;
    }
    true
}

/// Whether `text` ends with the characters of `suffix`.
pub fn ends_with(text: &[char], suffix: &str) -> (found: bool)
    ensures
        found == suffix@.is_suffix_of(text@),
{
    let n = suffix.unicode_len();
    if n > text.len() {
        return false;
    }
    let start = text.len() - n;
    let mut i: usize = 0;
    for c in it: suffix.chars()
        invariant
            it.seq() == suffix@,
            i == it.index(),
            n == suffix@.len(),
            start + n == text.len(),
            text@.subrange(start as int, start + i) == suffix@.take(i as int),
    {
        if text[start + i] != c {
            return false;
        }
        i += 1;
    }
    true
}

/// Whether `text` and `other` hold the same characters.
pub fn same_text(text: &[char], other: &str) -> (same: bool)
    ensures
        same == (text@ == other@),
{
    let mut i: usize = 0;
    for c in it: other.chars()
        invariant
            it.seq() == other@,
            i == it.index(),
            i <= text.len(),
            text@.take(i as int) == other@.take(i as int),
    {
        if i >= text.len() || text[i] != c {
            return false;
        }
        i += 1;
    }
    proof {
        assert(other@.take(i as int) =~= other@);
        assert(text@.take(text@.len() as int) =~= text@);
    }
    i == text.len()
}

} // verus!
