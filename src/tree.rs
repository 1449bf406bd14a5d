//! Concatenation trees and the choice of which owned buffer to reuse.

use vstd::prelude::*;
use crate::cat::{checked_total, Cat, CapacityOverflow};
use crate::buffer;
use crate::text::{lemma_utf8_len_concat, utf8_len, MAX_LEN};
use vstd::std_specs::ops::AddSpecImpl;

verus! {

/// Which operand of a node hands over its buffer for the result.
#[derive(Clone, Copy, Debug, PartialEq, Eq, Structural)]
pub enum Side {
    Left,
    Right,
}

/// The reuse rule: the left operand when its allocation holds `required`
/// bytes, or when neither does (growing it saves a shift); the right
/// operand only when it alone has room.
pub open spec fn reuse_side_spec(left_capacity: nat, right_capacity: nat, required: nat) -> Side {
    if left_capacity >= required || right_capacity < required {
        Side::Left
    } else {
        Side::Right
    }
}

/// Chooses the operand whose buffer a node reuses.
pub fn reuse_side(left_capacity: usize, right_capacity: usize, required: usize) -> (r: Side)
    ensures
        r == reuse_side_spec(left_capacity as nat, right_capacity as nat, required as nat),
{
    if left_capacity >= required || right_capacity < required {
        Side::Left
    } else {
        Side::Right
    }
}

/// A node of a concatenation: `lhs` followed by `rhs`.
#[derive(Clone, Copy)]
pub struct CatMany<L: Cat, R: Cat> {
    pub lhs: L,
    pub rhs: R,
}

impl<L: Cat, R: Cat> Cat for CatMany<L, R> {
    open spec fn text(&self) -> Seq<char> {
        self.lhs.text() + self.rhs.text()
    }

    fn size_hint(&self) -> (r: usize) {
        proof {
            lemma_utf8_len_concat(self.lhs.text(), self.rhs.text());
        }
        self.lhs.size_hint() + self.rhs.size_hint()
    }

    fn checked_len(&self) -> (r: Result<usize, CapacityOverflow>) {
        proof {
            lemma_utf8_len_concat(self.lhs.text(), self.rhs.text());
        }
        match self.lhs.checked_len() {
            Err(e) => Err(e),
            Ok(a) => match self.rhs.checked_len() {
                Err(e) => Err(e),
                Ok(b) => checked_total(a, b),
            },
        }
    }

    fn append_to(&self, s: &mut String) {
        proof {
            lemma_utf8_len_concat(self.lhs.text(), self.rhs.text());
            lemma_utf8_len_concat(s@, self.lhs.text());
        }
        self.lhs.append_to(s);
        self.rhs.append_to(s);
        assert(s@ =~= old(s)@ + (self.lhs.text() + self.rhs.text()));
    }

    fn prepend_to(&self, s: &mut String) {
        proof {
            lemma_utf8_len_concat(self.lhs.text(), self.rhs.text());
            lemma_utf8_len_concat(self.rhs.text(), s@);
        }
        self.rhs.prepend_to(s);
        self.lhs.prepend_to(s);
        assert(s@ =~= (self.lhs.text() + self.rhs.text()) + old(s)@);
    }

    fn owned_capacity(&self) -> usize {
        let a = self.lhs.owned_capacity();
        let b = self.rhs.owned_capacity();
        if a >= b {
            a
        } else {
            b
        }
    }

    fn into_string(self, capacity: usize) -> (r: String) {
        let CatMany { lhs, rhs } = self;
        proof {
            lemma_utf8_len_concat(lhs.text(), rhs.text());
        }
        // `capacity` is the size of the whole final result, so each operand
        // is materialized with room for its sibling and for whatever the
        // enclosing nodes will add around it.
        let side = reuse_side(lhs.owned_capacity(), rhs.owned_capacity(), capacity);
        match side {
            Side::Left => {
                // The left buffer grows once, then the right text follows it.
                let mut s = lhs.into_string(capacity);
                rhs.append_to(&mut s);
                s
            },
            Side::Right => {
                // The right buffer already has room: the left text goes in
                // front of it, its bytes shifted up by an overlapping move.
                let mut s = rhs.into_string(capacity);
                lhs.prepend_to(&mut s);
                s
            },
        }
    }
}

/// Materializes `cat` into a new `String`, reusing an owned buffer of it
/// where one has room; `CapacityOverflow`, with nothing written, when the
/// result would pass `MAX_LEN` bytes.
pub fn cat_into_string<C: Cat>(cat: C) -> (r: Result<String, CapacityOverflow>)
    ensures
        r is Ok <==> utf8_len(cat.text()) <= MAX_LEN,
        r is Ok ==> r->Ok_0@ == cat.text(),
{
    match cat.checked_len() {
        Ok(n) => Ok(cat.into_string(n)),
        Err(e) => Err(e),
    }
}

/// Appends `cat` to `dst` in place after one reservation of its length;
/// `CapacityOverflow`, with `dst` untouched, when the result would pass
/// `MAX_LEN` bytes.
pub fn cat_append<C: Cat>(dst: &mut String, cat: &C) -> (r: Result<(), CapacityOverflow>)
    ensures
        r is Ok <==> utf8_len(old(dst)@) + utf8_len(cat.text()) <= MAX_LEN,
        r is Ok ==> final(dst)@ == old(dst)@ + cat.text(),
        r is Err ==> final(dst)@ == old(dst)@,
{
    let n = match cat.checked_len() {
        Ok(n) => n,
        Err(e) => {
            return Err(e);
        },
    };
    let d = buffer::str_len(dst.as_str());
    match checked_total(d, n) {
        Ok(_) => {
            buffer::reserve(dst, n);
            cat.append_to(dst);
            Ok(())
        },
        Err(e) => Err(e),
    }
}

impl<L: Cat, R: Cat> CatMany<L, R> {
    /// Converts the concatenation to a `String`.
    pub fn try_into_string(self) -> (r: Result<String, CapacityOverflow>)
        ensures
            r is Ok <==> utf8_len(self.text()) <= MAX_LEN,
            r is Ok ==> r->Ok_0@ == self.text(),
    {
        cat_into_string(self)
    }

    /// Appends the concatenation to `dst`.
    pub fn try_append_to(&self, dst: &mut String) -> (r: Result<(), CapacityOverflow>)
        ensures
            r is Ok <==> utf8_len(old(dst)@) + utf8_len(self.text()) <= MAX_LEN,
            r is Ok ==> final(dst)@ == old(dst)@ + self.text(),
            r is Err ==> final(dst)@ == old(dst)@,
    {
        cat_append(dst, self)
    }

    /// The concatenated text, copied leaf by leaf into a new `String`.
    pub fn to_string(&self) -> (r: String)
        requires
            utf8_len(self.text()) <= MAX_LEN,
        ensures
            r@ == self.text(),
    {
        let mut s = String::new();
        proof {
            assert(Seq::<char>::empty() + self.text() =~= self.text());
        }
        self.append_to(&mut s);
        s
    }
}

/// A concatenation of one term.
#[derive(Clone, Copy)]
pub struct CatOne<T: Cat> {
    pub inner: T,
}

impl<T: Cat> CatOne<T> {
    /// The characters of the concatenation.
    pub open spec fn text(&self) -> Seq<char> {
        self.inner.text()
    }

    /// Length of the concatenation in bytes.
    pub fn size_hint(&self) -> (r: usize)
        requires
            utf8_len(self.text()) <= usize::MAX,
        ensures
            r == utf8_len(self.text()),
    {
        self.inner.size_hint()
    }

    /// Converts the concatenation to a `String`.
    pub fn try_into_string(self) -> (r: Result<String, CapacityOverflow>)
        ensures
            r is Ok <==> utf8_len(self.text()) <= MAX_LEN,
            r is Ok ==> r->Ok_0@ == self.text(),
    {
        cat_into_string(self.inner)
    }

    /// Appends the concatenation to `dst`.
    pub fn try_append_to(&self, dst: &mut String) -> (r: Result<(), CapacityOverflow>)
        ensures
            r is Ok <==> utf8_len(old(dst)@) + utf8_len(self.text()) <= MAX_LEN,
            r is Ok ==> final(dst)@ == old(dst)@ + self.text(),
            r is Err ==> final(dst)@ == old(dst)@,
    {
        cat_append(dst, &self.inner)
    }

    /// The text of the term, copied into a new `String`.
    pub fn to_string(&self) -> (r: String)
        requires
            utf8_len(self.text()) <= MAX_LEN,
        ensures
            r@ == self.text(),
    {
        let mut s = String::new();
        proof {
            assert(Seq::<char>::empty() + self.text() =~= self.text());
        }
        self.inner.append_to(&mut s);
        s
    }
}

/// The empty term that starts a concatenation.
#[derive(Clone, Copy)]
pub struct CatStart;

/// A term that is used to start a string concatenation.
pub const CAT: CatStart = CatStart;

impl CatStart {
    /// The characters of the concatenation: none.
    pub open spec fn text(&self) -> Seq<char> {
        Seq::empty()
    }

    /// Length of the concatenation in bytes: 0.
    pub fn size_hint(&self) -> (r: usize)
        ensures
            r == utf8_len(self.text()),
    {
        proof {
            reveal_with_fuel(vstd::utf8::encode_utf8, 1);
        }
        0
    }

    /// Converts the concatenation to a `String`: an empty one.
    pub fn try_into_string(self) -> (r: Result<String, CapacityOverflow>)
        ensures
            r is Ok,
            r->Ok_0@ == self.text(),
    {
        Ok(String::new())
    }

    /// Appends the concatenation to `dst`, which leaves it as it is.
    pub fn try_append_to(&self, dst: &mut String) -> (r: Result<(), CapacityOverflow>)
        ensures
            r is Ok,
            final(dst)@ == old(dst)@ + self.text(),
    {
        assert(dst@ + self.text() =~= dst@);
        Ok(())
    }

    /// An empty `String`.
    pub fn to_string(&self) -> (r: String)
        ensures
            r@ == self.text(),
    {
        String::new()
    }
}

impl core::ops::Add<CatStart> for CatStart {
    type Output = CatStart;

    fn add(self, _rhs: CatStart) -> CatStart {
        self
    }
}

impl AddSpecImpl<CatStart> for CatStart {
    open spec fn obeys_add_spec() -> bool {
        true
    }

    open spec fn add_req(self, rhs: CatStart) -> bool {
        true
    }

    open spec fn add_spec(self, rhs: CatStart) -> CatStart {
        self
    }
}

impl<T: Cat> core::ops::Add<CatOne<T>> for CatStart {
    type Output = CatOne<T>;

    fn add(self, rhs: CatOne<T>) -> CatOne<T> {
        rhs
    }
}

impl<T: Cat> AddSpecImpl<CatOne<T>> for CatStart {
    open spec fn obeys_add_spec() -> bool {
        true
    }

    open spec fn add_req(self, rhs: CatOne<T>) -> bool {
        true
    }

    open spec fn add_spec(self, rhs: CatOne<T>) -> CatOne<T> {
        rhs
    }
}

impl<T: Cat> core::ops::Add<T> for CatStart {
    type Output = CatOne<T>;

    fn add(self, rhs: T) -> CatOne<T> {
        CatOne { inner: rhs }
    }
}

impl<T: Cat> AddSpecImpl<T> for CatStart {
    open spec fn obeys_add_spec() -> bool {
        true
    }

    open spec fn add_req(self, rhs: T) -> bool {
        true
    }

    open spec fn add_spec(self, rhs: T) -> CatOne<T> {
        CatOne { inner: rhs }
    }
}

impl<T: Cat> core::ops::Add<CatStart> for CatOne<T> {
    type Output = CatOne<T>;

    fn add(self, _rhs: CatStart) -> CatOne<T> {
        self
    }
}

impl<T: Cat> AddSpecImpl<CatStart> for CatOne<T> {
    open spec fn obeys_add_spec() -> bool {
        true
    }

    open spec fn add_req(self, rhs: CatStart) -> bool {
        true
    }

    open spec fn add_spec(self, rhs: CatStart) -> CatOne<T> {
        self
    }
}

impl<L: Cat, R: Cat> core::ops::Add<CatOne<R>> for CatOne<L> {
    type Output = CatMany<L, R>;

    fn add(self, rhs: CatOne<R>) -> CatMany<L, R> {
        CatMany { lhs: self.inner, rhs: rhs.inner }
    }
}

impl<L: Cat, R: Cat> AddSpecImpl<CatOne<R>> for CatOne<L> {
    open spec fn obeys_add_spec() -> bool {
        true
    }

    open spec fn add_req(self, rhs: CatOne<R>) -> bool {
        true
    }

    open spec fn add_spec(self, rhs: CatOne<R>) -> CatMany<L, R> {
        CatMany { lhs: self.inner, rhs: rhs.inner }
    }
}

impl<L: Cat, R: Cat> core::ops::Add<R> for CatOne<L> {
    type Output = CatMany<L, R>;

    fn add(self, rhs: R) -> CatMany<L, R> {
        CatMany { lhs: self.inner, rhs: rhs }
    }
}

impl<L: Cat, R: Cat> AddSpecImpl<R> for CatOne<L> {
    open spec fn obeys_add_spec() -> bool {
        true
    }

    open spec fn add_req(self, rhs: R) -> bool {
        true
    }

    open spec fn add_spec(self, rhs: R) -> CatMany<L, R> {
        CatMany { lhs: self.inner, rhs: rhs }
    }
}

impl<L: Cat, R: Cat> core::ops::Add<CatStart> for CatMany<L, R> {
    type Output = CatMany<L, R>;

    fn add(self, _rhs: CatStart) -> CatMany<L, R> {
        self
    }
}

impl<L: Cat, R: Cat> AddSpecImpl<CatStart> for CatMany<L, R> {
    open spec fn obeys_add_spec() -> bool {
        true
    }

    open spec fn add_req(self, rhs: CatStart) -> bool {
        true
    }

    open spec fn add_spec(self, rhs: CatStart) -> CatMany<L, R> {
        self
    }
}

impl<L: Cat, R: Cat, RR: Cat> core::ops::Add<CatOne<RR>> for CatMany<L, R> {
    type Output = CatMany<CatMany<L, R>, RR>;

    fn add(self, rhs: CatOne<RR>) -> CatMany<CatMany<L, R>, RR> {
        CatMany { lhs: self, rhs: rhs.inner }
    }
}

impl<L: Cat, R: Cat, RR: Cat> AddSpecImpl<CatOne<RR>> for CatMany<L, R> {
    open spec fn obeys_add_spec() -> bool {
        true
    }

    open spec fn add_req(self, rhs: CatOne<RR>) -> bool {
        true
    }

    open spec fn add_spec(self, rhs: CatOne<RR>) -> CatMany<CatMany<L, R>, RR> {
        CatMany { lhs: self, rhs: rhs.inner }
    }
}

impl<L: Cat, R: Cat, RR: Cat> core::ops::Add<RR> for CatMany<L, R> {
    type Output = CatMany<CatMany<L, R>, RR>;

    fn add(self, rhs: RR) -> CatMany<CatMany<L, R>, RR> {
        CatMany { lhs: self, rhs: rhs }
    }
}

impl<L: Cat, R: Cat, RR: Cat> AddSpecImpl<RR> for CatMany<L, R> {
    open spec fn obeys_add_spec() -> bool {
        true
    }

    open spec fn add_req(self, rhs: RR) -> bool {
        true
    }

    open spec fn add_spec(self, rhs: RR) -> CatMany<CatMany<L, R>, RR> {
        CatMany { lhs: self, rhs: rhs }
    }
}

} // verus!
