//! Concurrent maps behind the in-process frequency cache.
//!
//! Counters live in `dashmap::DashMap`s: one map from user to slot, and one map
//! per slot from campaign to its day and hour counts. A map is modelled by the
//! entries that it holds; it is changed only through an exclusive borrow, so no
//! other thread changes it in between.
use dashmap::DashMap;
use vstd::prelude::*;

verus! {

/// `dashmap::DashMap`, a concurrent hash map.
#[verifier::external_type_specification]
#[verifier::external_body]
#[verifier::reject_recursive_types(K)]
#[verifier::reject_recursive_types(V)]
#[verifier::reject_recursive_types(S)]
pub struct ExDashMap<K, V, S>(dashmap::DashMap<K, V, S>);

/// The slots that a map holds, by user.
pub uninterp spec fn user_slots(m: DashMap<String, usize>) -> Map<Seq<char>, usize>;

/// The day and hour counts that a map holds, by campaign.
pub uninterp spec fn cap_counts(m: DashMap<u32, (i64, i64)>) -> Map<u32, (i64, i64)>;

/// `DashMap::new` for slots: a map without entries.
#[verifier::external_body]
pub(crate) fn slots_new() -> (m: DashMap<String, usize>)
    ensures
        user_slots(m).dom() == Set::<Seq<char>>::empty(),
{
    DashMap::new()
}

/// `DashMap::get` for slots: a copy of the slot that the map holds for the user.
#[verifier::external_body]
pub(crate) fn slots_get(m: &DashMap<String, usize>, user_id: &str) -> (slot: Option<usize>)
    ensures
        match slot {
            Some(s) => user_slots(*m).contains_key(user_id@) && s == user_slots(*m)[user_id@],
            None => !user_slots(*m).contains_key(user_id@),
        },
{
    m.get(user_id).map(|slot| *slot)
}

/// `DashMap::insert` for slots: sets the entry of one user and keeps the others.
#[verifier::external_body]
pub(crate) fn slots_insert(m: &mut DashMap<String, usize>, user_id: String, slot: usize)
    ensures
        user_slots(*final(m)) == user_slots(*old(m)).insert(user_id@, slot),
{
    m.insert(user_id, slot);
}

/// `DashMap::len` for slots: the number of entries.
#[verifier::external_body]
pub(crate) fn slots_len(m: &DashMap<String, usize>) -> (n: usize)
    ensures
        n == user_slots(*m).dom().len(),
{
    m.len()
}

/// `DashMap::new` for counts: a map without entries.
#[verifier::external_body]
pub(crate) fn counts_new() -> (m: DashMap<u32, (i64, i64)>)
    ensures
        cap_counts(m).dom() == Set::<u32>::empty(),
{
    DashMap::new()
}

/// `DashMap::get` for counts: a copy of the counts that the map holds for the
/// campaign.
#[verifier::external_body]
pub(crate) fn counts_get(m: &DashMap<u32, (i64, i64)>, campaign_id: u32) -> (counts: Option<
    (i64, i64),
>)
    ensures
        match counts {
            Some(c) => cap_counts(*m).contains_key(campaign_id) && c == cap_counts(*m)[campaign_id],
            None => !cap_counts(*m).contains_key(campaign_id),
        },
{
    m.get(&campaign_id).map(|counts| *counts)
}

/// `DashMap::insert` for counts: sets the entry of one campaign and keeps the
/// others.
#[verifier::external_body]
pub(crate) fn counts_insert(m: &mut DashMap<u32, (i64, i64)>, campaign_id: u32, counts: (i64, i64))
    ensures
        cap_counts(*final(m)) == cap_counts(*old(m)).insert(campaign_id, counts),
{
    m.insert(campaign_id, counts);
}

} // verus!
