//! The insertion-ordered set of persona ids added to a chat.
//!
//! The set is indexmap's `IndexSet`, reached through trusted wrappers.
//! Each wrapper's contract states, over the set's abstract element
//! sequence `id_set_elems`, what indexmap's documentation promises of
//! the call; the chat logic on top is verified against these contracts.

use vstd::prelude::*;
use crate::UniqueId;

verus! {

#[verifier::external_type_specification]
#[verifier::external_body]
#[verifier::reject_recursive_types(T)]
#[verifier::reject_recursive_types(S)]
pub struct ExIndexSet<T, S>(indexmap::IndexSet<T, S>);

/// The elements an id set holds, in insertion order.
pub uninterp spec fn id_set_elems(s: indexmap::IndexSet<UniqueId>) -> Seq<UniqueId>;

/// Relies on indexmap::IndexSet::new: the new set is empty.
#[verifier::external_body]
pub fn id_set_new() -> (s: indexmap::IndexSet<UniqueId>)
    ensures
        id_set_elems(s) == Seq::<UniqueId>::empty(),
{
    indexmap::IndexSet::new()
}

/// Relies on indexmap::IndexSet::insert: a missing value is appended to
/// the insertion order and `true` is returned; a present value leaves the
/// set unchanged and returns `false`.
#[verifier::external_body]
pub fn id_set_insert(s: &mut indexmap::IndexSet<UniqueId>, x: UniqueId) -> (newly: bool)
    ensures
        newly == !id_set_elems(*old(s)).contains(x),
        newly ==> id_set_elems(*final(s)) == id_set_elems(*old(s)).push(x),
        !newly ==> id_set_elems(*final(s)) == id_set_elems(*old(s)),
{
    s.insert(x)
}

/// Relies on indexmap::IndexSet::len: the number of elements.
#[verifier::external_body]
pub fn id_set_len(s: &indexmap::IndexSet<UniqueId>) -> (n: usize)
    ensures
        n == id_set_elems(*s).len(),
{
    s.len()
}

/// Relies on indexmap::IndexSet::contains: membership.
#[verifier::external_body]
pub fn id_set_contains(s: &indexmap::IndexSet<UniqueId>, x: UniqueId) -> (r: bool)
    ensures
        r == id_set_elems(*s).contains(x),
{
    s.contains(&x)
}

/// Relies on indexmap::IndexSet::get_index: the element at an insertion
/// position, `None` out of range.
#[verifier::external_body]
pub fn id_set_get_index(s: &indexmap::IndexSet<UniqueId>, i: usize) -> (r: Option<UniqueId>)
    ensures
        match r {
            Some(v) => i < id_set_elems(*s).len() && v == id_set_elems(*s)[i as int],
            None => i >= id_set_elems(*s).len(),
        },
{
    s.get_index(i).copied()
}

/// Relies on indexmap::IndexSet::get_index_of: the insertion position of
/// a present element, `None` for an absent one.
#[verifier::external_body]
pub fn id_set_get_index_of(s: &indexmap::IndexSet<UniqueId>, x: UniqueId) -> (r: Option<usize>)
    ensures
        match r {
            Some(i) => i < id_set_elems(*s).len() && id_set_elems(*s)[i as int] == x,
            None => !id_set_elems(*s).contains(x),
        },
{
    s.get_index_of(&x)
}

/// Relies on indexmap::IndexSet::iter: the elements in insertion order.
#[verifier::external_body]
pub fn id_set_to_vec(s: &indexmap::IndexSet<UniqueId>) -> (v: Vec<UniqueId>)
    ensures
        v@ == id_set_elems(*s),
{
    s.iter().copied().collect()
}

} // verus!
