//! Debug rendering of a concatenation: each leaf in its `{:?}` form, with
//! `" + "` between siblings, and `""` for the start term.

use vstd::prelude::*;
use crate::buffer;
use crate::cat::{Cat, CapacityOverflow};
use crate::text::{lemma_utf8_len_concat, utf8_len, MAX_LEN};
use crate::tree::{CatMany, CatOne, CatStart};

verus! {

/// The `{:?}` form of a string slice.
pub uninterp spec fn str_debug_text(s: Seq<char>) -> Seq<char>;

/// The `{:?}` form of a character.
pub uninterp spec fn char_debug_text(c: char) -> Seq<char>;

/// Relies on `<str as Debug>::fmt`: the quoted, escaped form of the text,
/// which depends on the text alone.
#[verifier::external_body]
fn debug_str(s: &str) -> (r: String)
    ensures
        r@ == str_debug_text(s@),
{
    format!("{:?}", s)
}

/// Relies on `<char as Debug>::fmt`: the quoted, escaped form of the
/// character, which depends on the character alone.
#[verifier::external_body]
fn debug_char(c: char) -> (r: String)
    ensures
        r@ == char_debug_text(c),
{
    format!("{:?}", c)
}

/// The separator between the debug forms of two siblings.
pub open spec fn separator() -> Seq<char> {
    seq![' ', '+', ' ']
}

/// Appends `piece` to `out` when the result fits in `MAX_LEN` bytes.
fn push_checked(out: &mut String, piece: &str) -> (r: Result<(), CapacityOverflow>)
    ensures
        r is Ok <==> utf8_len(old(out)@) + utf8_len(piece@) <= MAX_LEN,
        r is Ok ==> final(out)@ == old(out)@ + piece@,
        r is Err ==> final(out)@ == old(out)@,
{
    let n = buffer::str_len(piece);
    let d = buffer::str_len(out.as_str());
    if n <= MAX_LEN && d <= MAX_LEN - n {
        proof {
            lemma_utf8_len_concat(out@, piece@);
        }
        buffer::push_str(out, piece);
        Ok(())
    } else {
        Err(CapacityOverflow)
    }
}

/// Items whose concatenation can be rendered in debug form.
pub trait CatDebug {
    /// The debug form of the item.
    spec fn debug_text(&self) -> Seq<char>;

    /// Appends the debug form to `out`; `CapacityOverflow` when the result
    /// would pass `MAX_LEN` bytes.
    fn write_debug(&self, out: &mut String) -> (r: Result<(), CapacityOverflow>)
        ensures
            r is Ok <==> utf8_len(old(out)@) + utf8_len(self.debug_text()) <= MAX_LEN,
            r is Ok ==> final(out)@ == old(out)@ + self.debug_text(),
    ;
}

impl CatDebug for char {
    open spec fn debug_text(&self) -> Seq<char> {
        char_debug_text(*self)
    }

    fn write_debug(&self, out: &mut String) -> (r: Result<(), CapacityOverflow>) {
        let piece = debug_char(*self);
        push_checked(out, piece.as_str())
    }
}

impl<'a> CatDebug for &'a str {
    open spec fn debug_text(&self) -> Seq<char> {
        str_debug_text((*self)@)
    }

    fn write_debug(&self, out: &mut String) -> (r: Result<(), CapacityOverflow>) {
        let piece = debug_str(*self);
        push_checked(out, piece.as_str())
    }
}

impl CatDebug for String {
    open spec fn debug_text(&self) -> Seq<char> {
        str_debug_text(self@)
    }

    fn write_debug(&self, out: &mut String) -> (r: Result<(), CapacityOverflow>) {
        let piece = debug_str(self.as_str());
        push_checked(out, piece.as_str())
    }
}

impl<L: Cat + CatDebug, R: Cat + CatDebug> CatDebug for CatMany<L, R> {
    open spec fn debug_text(&self) -> Seq<char> {
        self.lhs.debug_text() + separator() + self.rhs.debug_text()
    }

    fn write_debug(&self, out: &mut String) -> (r: Result<(), CapacityOverflow>) {
        let ghost start = out@;
        let ghost (a, b, c) = (self.lhs.debug_text(), separator(), self.rhs.debug_text());
        proof {
            lemma_utf8_len_concat(a, b);
            lemma_utf8_len_concat(a + b, c);
            lemma_utf8_len_concat(start, a);
            lemma_utf8_len_concat(start + a, b);
            assert(start + (a + b + c) =~= start + a + b + c);
        }
        match self.lhs.write_debug(out) {
            Err(e) => {
                return Err(e);
            },
            Ok(()) => {},
        }
        let sep = " + ";
        proof {
            reveal_strlit(" + ");
            assert(sep@ =~= b);
        }
        match push_checked(out, sep) {
            Err(e) => {
                return Err(e);
            },
            Ok(()) => {},
        }
        let r = self.rhs.write_debug(out);
        assert(r is Ok ==> out@ =~= start + (a + b + c));
        r
    }
}

/// Renders `item` in debug form into a new `String`.
fn debug_string_of<T: CatDebug>(item: &T) -> (r: Result<String, CapacityOverflow>)
    ensures
        r is Ok <==> utf8_len(item.debug_text()) <= MAX_LEN,
        r is Ok ==> r->Ok_0@ == item.debug_text(),
{
    let mut s = String::new();
    proof {
        assert(Seq::<char>::empty() + item.debug_text() =~= item.debug_text());
        assert(utf8_len(Seq::<char>::empty()) == 0) by {
            reveal_with_fuel(vstd::utf8::encode_utf8, 1);
        }
    }
    match item.write_debug(&mut s) {
        Ok(()) => Ok(s),
        Err(e) => Err(e),
    }
}

impl<L: Cat + CatDebug, R: Cat + CatDebug> CatMany<L, R> {
    /// The debug form: the leaves' debug forms joined by `" + "`.
    pub fn debug_string(&self) -> (r: Result<String, CapacityOverflow>)
        ensures
            r is Ok <==> utf8_len(self.debug_text()) <= MAX_LEN,
            r is Ok ==> r->Ok_0@ == self.debug_text(),
    {
        debug_string_of(self)
    }
}

impl<T: Cat + CatDebug> CatOne<T> {
    /// The debug form of the concatenation: that of its term.
    pub open spec fn debug_text(&self) -> Seq<char> {
        self.inner.debug_text()
    }

    /// The debug form: that of the term.
    pub fn debug_string(&self) -> (r: Result<String, CapacityOverflow>)
        ensures
            r is Ok <==> utf8_len(self.debug_text()) <= MAX_LEN,
            r is Ok ==> r->Ok_0@ == self.debug_text(),
    {
        debug_string_of(&self.inner)
    }
}

impl CatStart {
    /// The debug form of the start term: an empty quoted literal.
    pub open spec fn debug_text(&self) -> Seq<char> {
        seq!['"', '"']
    }

    /// The debug form: `""`.
    pub fn debug_string(&self) -> (r: Result<String, CapacityOverflow>)
        ensures
            r is Ok,
            r->Ok_0@ == self.debug_text(),
    {
        let s = "\"\"";
        proof {
            reveal_strlit("\"\"");
        }
        let r = s.to_owned();
        assert(r@ =~= self.debug_text());
        Ok(r)
    }
}

} // verus!
