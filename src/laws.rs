//! Laws that hold of every concatenation.

use vstd::prelude::*;
use vstd::std_specs::ops::AddSpec;
use vstd::utf8::encode_utf8;
use crate::cat::Cat;
use crate::text::lemma_encode_concat;
use crate::tree::{reuse_side_spec, CatMany, CatOne, CatStart, Side};

verus! {

/// A materialized node holds the bytes of its left operand followed by the
/// bytes of its right operand, whichever buffer was reused.
pub proof fn lemma_materialized_bytes<L: Cat, R: Cat>(tree: CatMany<L, R>, out: String)
    requires
        out@ == tree.text(),
    ensures
        encode_utf8(out@) == encode_utf8(tree.lhs.text()) + encode_utf8(tree.rhs.text()),
{
    lemma_encode_concat(tree.lhs.text(), tree.rhs.text());
}

/// Appending a term to a node adds the term's text at the end.
pub proof fn lemma_append_term<L: Cat, R: Cat, T: Cat>(tree: CatMany<L, R>, term: T)
    ensures
        tree.add_spec(term).text() == tree.text() + term.text(),
{
}

/// Appending the start term to a node, on either side, keeps its text.
pub proof fn lemma_start_identity_many<L: Cat, R: Cat>(tree: CatMany<L, R>)
    ensures
        tree.add_spec(CatStart).text() == tree.text(),
        CatStart.add_spec(tree).text() == tree.text(),
{
}

/// Appending the start term to a one-term concatenation, on either side,
/// keeps its text.
pub proof fn lemma_start_identity_one<T: Cat>(one: CatOne<T>)
    ensures
        one.add_spec(CatStart).text() == one.text(),
        CatStart.add_spec(one).text() == one.text(),
{
}

/// The start term appended to itself stays empty.
pub proof fn lemma_start_identity_start()
    ensures
        CatStart.add_spec(CatStart).text() == CatStart.text(),
{
}

/// A left operand whose allocation holds the whole result is always the
/// one reused, so that no allocation happens.
pub proof fn lemma_left_reused_when_room(left_capacity: nat, right_capacity: nat, required: nat)
    requires
        left_capacity >= required,
    ensures
        reuse_side_spec(left_capacity, right_capacity, required) == Side::Left,
{
}

/// The right operand is reused only when it alone has room.
pub proof fn lemma_right_reused_only_with_room(
    left_capacity: nat,
    right_capacity: nat,
    required: nat,
)
    ensures
        reuse_side_spec(left_capacity, right_capacity, required) == Side::Right <==> (
        left_capacity < required && right_capacity >= required),
{
}

} // verus!
