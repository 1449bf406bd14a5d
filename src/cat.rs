//! Terms of a concatenation and the trait they share.

use vstd::prelude::*;
use crate::buffer;
use crate::text::{lemma_utf8_len_char, lemma_utf8_len_concat, utf8_len, utf8_width, MAX_LEN};

verus! {

/// The one failure of a concatenation: its length in bytes would pass
/// `MAX_LEN`.
#[derive(Clone, Copy, Debug, PartialEq, Eq, Structural)]
pub struct CapacityOverflow;

/// Adds two byte lengths, failing when the sum would pass `MAX_LEN`.
pub fn checked_total(a: usize, b: usize) -> (r: Result<usize, CapacityOverflow>)
    ensures
        r == (if a + b <= MAX_LEN {
            Ok::<usize, CapacityOverflow>((a + b) as usize)
        } else {
            Err::<usize, CapacityOverflow>(CapacityOverflow)
        }),
{
    if a <= MAX_LEN && b <= MAX_LEN - a {
        Ok(a + b)
    } else {
        Err(CapacityOverflow)
    }
}

/// Trait for types that can be concatenated.
pub trait Cat: Sized {
    /// The characters that the item contributes.
    spec fn text(&self) -> Seq<char>;

    /// Length of item in bytes.
    fn size_hint(&self) -> (r: usize)
        requires
            utf8_len(self.text()) <= usize::MAX,
        ensures
            r == utf8_len(self.text()),
    ;

    /// Length of item in bytes, or `CapacityOverflow` when it passes `MAX_LEN`.
    fn checked_len(&self) -> (r: Result<usize, CapacityOverflow>)
        ensures
            r is Ok <==> utf8_len(self.text()) <= MAX_LEN,
            r is Ok ==> r->Ok_0 == utf8_len(self.text()),
    ;

    /// Append item to String.
    fn append_to(&self, s: &mut String)
        requires
            utf8_len(old(s)@) + utf8_len(self.text()) <= MAX_LEN,
        ensures
            final(s)@ == old(s)@ + self.text(),
    ;

    /// Put item in front of the text of a String, moving that text up.
    fn prepend_to(&self, s: &mut String)
        requires
            utf8_len(old(s)@) + utf8_len(self.text()) <= MAX_LEN,
        ensures
            final(s)@ == self.text() + old(s)@,
    ;

    /// The allocation, in bytes, of the largest owned buffer that the item
    /// could hand over for reuse; 0 when it owns none.
    fn owned_capacity(&self) -> usize;

    /// Converts item to a String, asking for room for `capacity` bytes in all.
    fn into_string(self, capacity: usize) -> (r: String)
        requires
            utf8_len(self.text()) <= MAX_LEN,
            capacity <= MAX_LEN,
        ensures
            r@ == self.text(),
    ;
}

impl Cat for char {
    open spec fn text(&self) -> Seq<char> {
        seq![*self]
    }

    fn size_hint(&self) -> (r: usize) {
        utf8_width(*self)
    }

    fn checked_len(&self) -> (r: Result<usize, CapacityOverflow>) {
        Ok(utf8_width(*self))
    }

    fn append_to(&self, s: &mut String) {
        proof {
            lemma_utf8_len_concat(s@, seq![*self]);
        }
        buffer::push(s, *self);
        assert(s@ =~= old(s)@ + seq![*self]);
    }

    fn prepend_to(&self, s: &mut String) {
        proof {
            lemma_utf8_len_concat(seq![*self], s@);
        }
        buffer::push_front(s, *self);
    }

    fn owned_capacity(&self) -> (r: usize)
        ensures
            r == 0,
    {
        0
    }

    fn into_string(self, capacity: usize) -> (r: String) {
        let mut s = buffer::with_capacity(capacity);
        proof {
            lemma_utf8_len_char(self);
            assert(Seq::<char>::empty() + seq![self] =~= seq![self]);
        }
        buffer::push(&mut s, self);
        assert(s@ =~= seq![self]);
        s
    }
}

impl<'a> Cat for &'a str {
    open spec fn text(&self) -> Seq<char> {
        (*self)@
    }

    fn size_hint(&self) -> (r: usize) {
        buffer::str_len(self)
    }

    fn checked_len(&self) -> (r: Result<usize, CapacityOverflow>) {
        let n = buffer::str_len(self);
        if n <= MAX_LEN {
            Ok(n)
        } else {
            Err(CapacityOverflow)
        }
    }

    fn append_to(&self, s: &mut String) {
        proof {
            lemma_utf8_len_concat(s@, self@);
        }
        buffer::push_str(s, *self);
    }

    fn prepend_to(&self, s: &mut String) {
        proof {
            lemma_utf8_len_concat(self@, s@);
        }
        buffer::push_str_front(s, *self);
    }

    fn owned_capacity(&self) -> (r: usize)
        ensures
            r == 0,
    {
        0
    }

    fn into_string(self, capacity: usize) -> (r: String) {
        let mut s = buffer::with_capacity(capacity);
        proof {
            assert(Seq::<char>::empty() + self@ =~= self@);
        }
        buffer::push_str(&mut s, self);
        s
    }
}

impl Cat for String {
    open spec fn text(&self) -> Seq<char> {
        self@
    }

    fn size_hint(&self) -> (r: usize) {
        buffer::str_len(self.as_str())
    }

    fn checked_len(&self) -> (r: Result<usize, CapacityOverflow>) {
        let n = buffer::str_len(self.as_str());
        if n <= MAX_LEN {
            Ok(n)
        } else {
            Err(CapacityOverflow)
        }
    }

    fn append_to(&self, s: &mut String) {
        proof {
            lemma_utf8_len_concat(s@, self@);
        }
        buffer::push_str(s, self.as_str());
    }

    fn prepend_to(&self, s: &mut String) {
        proof {
            lemma_utf8_len_concat(self@, s@);
        }
        buffer::push_str_front(s, self.as_str());
    }

    fn owned_capacity(&self) -> (r: usize)
        ensures
            r >= utf8_len(self@),
    {
        buffer::capacity(self)
    }

    fn into_string(self, capacity: usize) -> (r: String) {
        let mut s = self;
        let len = buffer::str_len(s.as_str());
        if capacity > len {
            buffer::reserve(&mut s, capacity - len);
        }
        s
    }
}

} // verus!
