//! Bounded result pages.
//!
//! A single discovery response carries at most a fixed number of records —
//! a limit of the transport's response size, not of this crate — so pages are
//! held in fixed-capacity vectors and the walk pages further when a response
//! may have been cut short.

use vstd::prelude::*;
use crate::types::{Characteristic, Descriptor};

verus! {

/// Relies on heapless::Vec, a stack-allocated vector holding at most `N`
/// items; declared so that pages can appear in verified signatures.
#[verifier::external_type_specification]
#[verifier::external_body]
#[verifier::reject_recursive_types(T)]
pub struct ExHeaplessVec<T, const N: usize>(heapless::Vec<T, N>);

/// How many records one response page can carry.
pub const PAGE_CAPACITY: usize = 6;

/// One page of characteristic records.
pub type CharacteristicPage = heapless::Vec<Characteristic, 6>;

/// One page of descriptor records.
pub type DescriptorPage = heapless::Vec<Descriptor, 6>;

/// The records a characteristic page holds, in order.
pub uninterp spec fn char_page(v: CharacteristicPage) -> Seq<Characteristic>;

/// The records a descriptor page holds, in order.
pub uninterp spec fn desc_page(v: DescriptorPage) -> Seq<Descriptor>;

/// Relies on heapless::Vec::new: a fresh vector holds nothing.
#[verifier::external_body]
pub fn char_page_new() -> (v: CharacteristicPage)
    ensures
        char_page(v) == Seq::<Characteristic>::empty(),
{
    heapless::Vec::new()
}

/// Relies on heapless::Vec::push: appends the item while below the capacity,
/// and hands the item back unchanged when full.
#[verifier::external_body]
pub fn char_page_push(v: &mut CharacteristicPage, item: Characteristic) -> (r: Result<(), Characteristic>)
    ensures
        r == (if char_page(*old(v)).len() < PAGE_CAPACITY {
            Ok::<(), Characteristic>(())
        } else {
            Err::<(), Characteristic>(item)
        }),
        char_page(*final(v)) == (if char_page(*old(v)).len() < PAGE_CAPACITY {
            char_page(*old(v)).push(item)
        } else {
            char_page(*old(v))
        }),
{
    v.push(item)
}

/// Relies on heapless::Vec's slice view: the number of records held.
#[verifier::external_body]
pub fn char_page_len(v: &CharacteristicPage) -> (n: usize)
    ensures
        n == char_page(*v).len(),
{
    v.as_slice().len()
}

/// Relies on heapless::Vec's slice view: the record at position `i`.
#[verifier::external_body]
pub fn char_page_get(v: &CharacteristicPage, i: usize) -> (r: Characteristic)
    requires
        i < char_page(*v).len(),
    ensures
        r == char_page(*v)[i as int],
{
    v.as_slice()[i]
}

/// Relies on heapless::Vec::new: a fresh vector holds nothing.
#[verifier::external_body]
pub fn desc_page_new() -> (v: DescriptorPage)
    ensures
        desc_page(v) == Seq::<Descriptor>::empty(),
{
    heapless::Vec::new()
}

/// Relies on heapless::Vec::push: appends the item while below the capacity,
/// and hands the item back unchanged when full.
#[verifier::external_body]
pub fn desc_page_push(v: &mut DescriptorPage, item: Descriptor) -> (r: Result<(), Descriptor>)
    ensures
        r == (if desc_page(*old(v)).len() < PAGE_CAPACITY {
            Ok::<(), Descriptor>(())
        } else {
            Err::<(), Descriptor>(item)
        }),
        desc_page(*final(v)) == (if desc_page(*old(v)).len() < PAGE_CAPACITY {
            desc_page(*old(v)).push(item)
        } else {
            desc_page(*old(v))
        }),
{
    v.push(item)
}

/// Relies on heapless::Vec's slice view: the number of records held.
#[verifier::external_body]
pub fn desc_page_len(v: &DescriptorPage) -> (n: usize)
    ensures
        n == desc_page(*v).len(),
{
    v.as_slice().len()
}

/// Relies on heapless::Vec's slice view: the record at position `i`.
#[verifier::external_body]
pub fn desc_page_get(v: &DescriptorPage, i: usize) -> (r: Descriptor)
    requires
        i < desc_page(*v).len(),
    ensures
        r == desc_page(*v)[i as int],
{
    v.as_slice()[i]
}

} // verus!
