//! Plain-value models of the SDK's common kernel-list header and the
//! shared minimum helper.
//!
//! The SDK's `co_list` is a C structure holding the addresses of the first
//! and last node of an intrusive linked list. The engine-side model keeps
//! those two addresses as plain machine words, with zero standing for the
//! null pointer; walking the nodes themselves is memory work left to the
//! embedding program.

use vstd::prelude::*;
use vstd::std_specs::cmp::PartialOrdSpec;

verus! {

/// A kernel list header: the addresses of the first and last node, zero
/// meaning null.
#[derive(Clone, Copy, Debug, PartialEq, Eq, Structural)]
pub struct CoList {
    pub first: usize,
    pub last: usize,
}

/// Resets the list header to the empty state: both node addresses null.
pub fn co_list_init(list: &mut CoList)
    ensures
        final(list).first == 0,
        final(list).last == 0,
{
    list.first = 0;
    list.last = 0;
}

/// Whether the list holds no node: its head address is null. Leaves the
/// list untouched.
pub fn co_list_is_empty(list: &mut CoList) -> (r: bool)
    ensures
        *final(list) == *old(list),
        r == (old(list).first == 0),
{
    list.first == 0
}

/// The smaller of two values under their partial order; the right operand
/// when the two are tied or unordered.
pub fn co_min<T: PartialOrd>(a: T, b: T) -> (r: T)
    ensures
        r == a || r == b,
        T::obeys_partial_cmp_spec() ==> r == (if a.partial_cmp_spec(&b) == Some(
            core::cmp::Ordering::Less,
        ) {
            a
        } else {
            b
        }),
{
    if a < b {
        a
    } else {
        b
    }
}

} // verus!
