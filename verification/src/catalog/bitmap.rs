//! Campaign-id bitmaps.
//!
//! The inverted indices of the catalog are `roaring::RoaringBitmap`s. A bitmap
//! is modelled by the finite set of ids that it holds; every operation the
//! library performs on one goes through the functions of this file.
use roaring::RoaringBitmap;
use vstd::prelude::*;

verus! {

/// `roaring::RoaringBitmap`, a compressed set of `u32`.
#[verifier::external_type_specification]
#[verifier::external_body]
pub struct ExRoaringBitmap(roaring::RoaringBitmap);

/// The ids that a bitmap holds.
pub uninterp spec fn ids(bm: roaring::RoaringBitmap) -> Set<u32>;

/// `RoaringBitmap::new`: a bitmap that holds no id.
#[verifier::external_body]
pub(crate) fn bitmap_new() -> (bm: RoaringBitmap)
    ensures
        ids(bm) == Set::<u32>::empty(),
{
    RoaringBitmap::new()
}

/// `RoaringBitmap::insert`: adds one id, and keeps the others.
#[verifier::external_body]
pub(crate) fn bitmap_insert(bm: &mut RoaringBitmap, id: u32)
    ensures
        ids(*final(bm)) == ids(*old(bm)).insert(id),
{
    bm.insert(id);
}

/// `RoaringBitmap::is_empty`: whether no id is held.
#[verifier::external_body]
pub(crate) fn bitmap_is_empty(bm: &RoaringBitmap) -> (empty: bool)
    ensures
        empty == (ids(*bm) == Set::<u32>::empty()),
{
    bm.is_empty()
}

/// `RoaringBitmap::bitor_assign` (`|=`) with a borrowed right side: set union.
#[verifier::external_body]
pub(crate) fn bitmap_union_with(bm: &mut RoaringBitmap, other: &RoaringBitmap)
    ensures
        ids(*final(bm)) == ids(*old(bm)).union(ids(*other)),
{
    *bm |= other;
}

/// `RoaringBitmap::bitand_assign` (`&=`) with a borrowed right side: set
/// intersection.
#[verifier::external_body]
pub(crate) fn bitmap_intersect_with(bm: &mut RoaringBitmap, other: &RoaringBitmap)
    ensures
        ids(*final(bm)) == ids(*old(bm)).intersect(ids(*other)),
{
    *bm &= other;
}

/// `RoaringBitmap::sub` (`-`) on two borrowed bitmaps: set difference.
#[verifier::external_body]
pub(crate) fn bitmap_difference(left: &RoaringBitmap, right: &RoaringBitmap) -> (bm: RoaringBitmap)
    ensures
        ids(bm) == ids(*left).difference(ids(*right)),
{
    left - right
}

/// `RoaringBitmap::clone`: a bitmap with the same ids.
#[verifier::external_body]
pub(crate) fn bitmap_clone(bm: &RoaringBitmap) -> (copy: RoaringBitmap)
    ensures
        ids(copy) == ids(*bm),
{
    bm.clone()
}

/// `RoaringBitmap::iter`: the ids, each once, in ascending order.
#[verifier::external_body]
pub(crate) fn bitmap_to_vec(bm: &RoaringBitmap) -> (out: Vec<u32>)
    ensures
        forall|i: int, j: int| 0 <= i < j < out@.len() ==> out@[i] < out@[j],
        forall|id: u32| out@.contains(id) <==> #[trigger] ids(*bm).contains(id),
{
    bm.iter().collect()
}

} // verus!
