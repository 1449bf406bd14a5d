//! The operations of `String` that the concatenation engine uses, with what
//! std documents of each. Every growing operation panics once the buffer
//! would pass `isize::MAX` bytes, so each one asks that the result fits.

use vstd::prelude::*;
use crate::text::{utf8_len, MAX_LEN};

verus! {

/// Relies on `str::len`: the length in bytes of the UTF-8 text.
#[verifier::external_body]
pub(crate) fn str_len(s: &str) -> (r: usize)
    ensures
        r == utf8_len(s@),
{
    s.len()
}

/// Relies on `String::with_capacity`: a new, empty string.
#[verifier::external_body]
pub(crate) fn with_capacity(capacity: usize) -> (r: String)
    requires
        capacity <= MAX_LEN,
    ensures
        r@ == Seq::<char>::empty(),
{
    String::with_capacity(capacity)
}

/// Relies on `String::capacity`: the allocation size, never below the length.
#[verifier::external_body]
pub(crate) fn capacity(s: &String) -> (r: usize)
    ensures
        r >= utf8_len(s@),
{
    s.capacity()
}

/// Relies on `String::reserve`: grows the allocation, leaves the text as it is.
#[verifier::external_body]
pub(crate) fn reserve(s: &mut String, additional: usize)
    requires
        utf8_len(old(s)@) + additional <= MAX_LEN,
    ensures
        final(s)@ == old(s)@,
{
    s.reserve(additional)
}

/// Relies on `String::push`: appends one character.
#[verifier::external_body]
pub(crate) fn push(s: &mut String, c: char)
    requires
        utf8_len(old(s)@ + seq![c]) <= MAX_LEN,
    ensures
        final(s)@ == old(s)@.push(c),
{
    s.push(c)
}

/// Relies on `String::push_str`: appends a string slice.
#[verifier::external_body]
pub(crate) fn push_str(s: &mut String, t: &str)
    requires
        utf8_len(old(s)@ + t@) <= MAX_LEN,
    ensures
        final(s)@ == old(s)@ + t@,
{
    s.push_str(t)
}

/// Relies on `String::insert` at index 0: shifts the text up and puts the
/// character in front.
#[verifier::external_body]
pub(crate) fn push_front(s: &mut String, c: char)
    requires
        utf8_len(seq![c] + old(s)@) <= MAX_LEN,
    ensures
        final(s)@ == seq![c] + old(s)@,
{
    s.insert(0, c)
}

/// Relies on `String::insert_str` at index 0: shifts the text up, with a
/// move that is safe for overlapping ranges, and puts the slice in front.
#[verifier::external_body]
pub(crate) fn push_str_front(s: &mut String, t: &str)
    requires
        utf8_len(t@ + old(s)@) <= MAX_LEN,
    ensures
        final(s)@ == t@ + old(s)@,
{
    s.insert_str(0, t)
}

} // verus!
