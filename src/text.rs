//! Editing a line of text by character position, and the bound used to
//! keep a cursor inside a range.
//!
//! Positions count characters, not bytes: an insertion or a deletion can
//! never split a multi-byte character.

use vstd::prelude::*;
use vstd::string::*;

verus! {

/// Relies on `String::push`: appends one character at the end.
#[verifier::external_body]
pub(crate) fn push_char(s: &mut String, c: char)
    ensures
        final(s)@ == old(s)@.push(c),
{
    s.push(c)
}

/// `x` restricted to `[lo, hi]`.
pub open spec fn clamp_spec(x: int, lo: int, hi: int) -> int {
    if x < lo {
        lo
    } else if x > hi {
        hi
    } else {
        x
    }
}

/// Relies on `num::clamp`: `min` below the range, `max` above it, else the
/// input itself. It panics in debug builds when `min > max`.
#[verifier::external_body]
pub(crate) fn clamp(input: usize, min: usize, max: usize) -> (r: usize)
    requires
        min <= max,
    ensures
        r == clamp_spec(input as int, min as int, max as int),
{
    num::clamp(input, min, max)
}

/// Number of characters of `s`.
pub fn char_len(s: &String) -> (r: usize)
    ensures
        r == s@.len(),
{
    s.as_str().unicode_len()
}

/// `s` with `c` inserted before the character at position `pos`.
pub fn insert_char_at(s: &String, pos: usize, c: char) -> (r: String)
    requires
        pos <= s@.len(),
    ensures
        r@ == s@.insert(pos as int, c),
{
    let t = s.as_str();
    let n = t.unicode_len();
    let mut r = String::from_str(t.substring_char(0, pos));
    push_char(&mut r, c);
    r.append(t.substring_char(pos, n));
    assert(r@ =~= s@.insert(pos as int, c));
    r
}

/// `s` without the character at position `pos`.
pub fn remove_char_at(s: &String, pos: usize) -> (r: String)
    requires
        pos < s@.len(),
    ensures
        r@ == s@.remove(pos as int),
{
    let t = s.as_str();
    let n = t.unicode_len();
    let mut r = String::from_str(t.substring_char(0, pos));
    r.append(t.substring_char(pos + 1, n));
    assert(r@ =~= s@.remove(pos as int));
    r
}

} // verus!
