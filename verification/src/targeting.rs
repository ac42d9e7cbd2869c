//! Names of audience segments and their ids.
use crate::catalog::types::SegmentId;
use vstd::hash_map::StringHashMap;
use vstd::prelude::*;

verus! {

/// Maps segment name strings to their assigned `SegmentId` integers.
///
/// Built during catalog load and merged append-only on background refresh. IDs
/// are never evicted, so in-flight requests always resolve correctly.
pub struct SegmentRegistry {
    inner: StringHashMap<SegmentId>,
    /// The names of the registry, each once, in the order of their insertion.
    names: Vec<String>,
}

/// The ids of those of `names` that a table holds, in the order of the names.
pub open spec fn resolved(table: Map<Seq<char>, SegmentId>, names: Seq<String>) -> Seq<SegmentId> {
    names.filter(|n: String| table.contains_key(n@)).map_values(|n: String| table[n@])
}

impl View for SegmentRegistry {
    type V = Map<Seq<char>, SegmentId>;

    closed spec fn view(&self) -> Map<Seq<char>, SegmentId> {
        self.inner@
    }
}

impl SegmentRegistry {
    /// The list of names holds exactly the names that have an id, each once.
    pub closed spec fn wf(self) -> bool {
        &&& forall|i: int|
            0 <= i < self.names@.len() ==> self.inner@.contains_key((#[trigger] self.names@[i])@)
        &&& forall|name: Seq<char>| #[trigger]
            self.inner@.contains_key(name) ==> exists|i: int|
                0 <= i < self.names@.len() && (#[trigger] self.names@[i])@ == name
        &&& forall|i: int, j: int|
            0 <= i < j < self.names@.len() ==> (#[trigger] self.names@[i])@ != (
            #[trigger] self.names@[j])@
    }

    /// Assigns an id to a name, replacing the one it had.
    pub fn insert(&mut self, name: String, id: SegmentId)
        requires
            old(self).wf(),
        ensures
            final(self).wf(),
            final(self)@ == old(self)@.insert(name@, id),
    {
        if !self.inner.contains_key(name.as_str()) {
            self.names.push(name.clone());
        }
        self.inner.insert(name, id);
        assert forall|n: Seq<char>| #[trigger] self.inner@.contains_key(n) implies exists|i: int|
            0 <= i < self.names@.len() && (#[trigger] self.names@[i])@ == n by {
            if old(self).inner@.contains_key(n) {
                let i = choose|i: int|
                    0 <= i < old(self).names@.len() && (#[trigger] old(self).names@[i])@ == n;
                assert(self.names@[i]@ == n);
            } else {
                assert(self.names@[self.names@.len() - 1]@ == n);
            }
        }
    }

    /// The ids of the known names, in the order of the names; unknown names are
    /// left out.
    pub fn resolve(&self, names: &[String]) -> (ids: Vec<SegmentId>)
        ensures
            ids@ == resolved(self@, names@),
    {
        let mut ids: Vec<SegmentId> = Vec::new();
        let n: usize = names.len();
        proof {
            reveal(Seq::filter);
        }
        assert(ids@ =~= resolved(self@, names@.take(0)));
        for i in 0..n
            invariant
                n == names@.len(),
                ids@ == resolved(self@, names@.take(i as int)),
        {
            proof {
                reveal(Seq::filter);
                assert(names@.take(i + 1).drop_last() =~= names@.take(i as int));
                assert(names@.take(i + 1).last() == names@[i as int]);
            }
            if let Some(id) = self.inner.get(names[i].as_str()) {
                ids.push(*id);
            }
            assert(ids@ =~= resolved(self@, names@.take(i + 1)));
        }
        assert(names@.take(n as int) =~= names@);
        ids
    }

    /// The number of names.
    pub fn len(&self) -> (n: usize)
        ensures
            n == self@.len(),
    {
        self.inner.len()
    }

    /// Whether the registry holds no name.
    pub fn is_empty(&self) -> (b: bool)
        ensures
            b == self@.is_empty(),
    {
        self.inner.is_empty()
    }

    /// Merges entries from another registry without evicting existing IDs: a name
    /// that both hold keeps the id it has here.
    pub fn merge(&mut self, other: SegmentRegistry)
        requires
            old(self).wf(),
            other.wf(),
        ensures
            final(self).wf(),
            final(self)@ == other@.union_prefer_right(old(self)@),
    {
        let n: usize = other.names.len();
        for i in 0..n
            invariant
                n == other.names@.len(),
                other.wf(),
                self.wf(),
                forall|name: Seq<char>|
                    self@.contains_key(name) <==> old(self)@.contains_key(name) || exists|j: int|
                        0 <= j < i && (#[trigger] other.names@[j])@ == name,
                forall|name: Seq<char>| #[trigger]
                    self@.contains_key(name) ==> self@[name] == (if old(self)@.contains_key(name) {
                        old(self)@[name]
                    } else {
                        other@[name]
                    }),
        {
            let name = &other.names[i];
            if !self.inner.contains_key(name.as_str()) {
                if let Some(id) = other.inner.get(name.as_str()) {
                    self.insert(name.clone(), *id);
                }
            }
        }
        assert(self@ =~= other@.union_prefer_right(old(self)@));
    }
}

impl Clone for SegmentRegistry {
    /// A registry with the same names and ids.
    fn clone(&self) -> (copy: Self)
        ensures
            self.wf() ==> copy.wf(),
            self.wf() ==> copy@ == self@,
    {
        let mut copy = SegmentRegistry::default();
        let n: usize = self.names.len();
        for i in 0..n
            invariant
                n == self.names@.len(),
                copy.wf(),
                forall|name: Seq<char>| #[trigger]
                    copy@.contains_key(name) ==> self@.contains_key(name) && copy@[name]
                        == self@[name],
                forall|j: int|
                    0 <= j < i && self@.contains_key((#[trigger] self.names@[j])@)
                        ==> copy@.contains_key(self.names@[j]@),
        {
            let name = &self.names[i];
            if let Some(id) = self.inner.get(name.as_str()) {
                copy.insert(name.clone(), *id);
            }
        }
        assert(self.wf() ==> copy@ =~= self@);
        copy
    }
}

impl Default for SegmentRegistry {
    /// A registry without names.
    fn default() -> (r: Self)
        ensures
            r.wf(),
            r@ == Map::<Seq<char>, SegmentId>::empty(),
    {
        SegmentRegistry { inner: StringHashMap::new(), names: Vec::new() }
    }
}

/// The registry that follows another on a refresh: what was loaded is merged into
/// a copy of the current one, which stays as it is for requests in flight.
pub fn refreshed(current: &SegmentRegistry, loaded: SegmentRegistry) -> (r: SegmentRegistry)
    requires
        current.wf(),
        loaded.wf(),
    ensures
        r.wf(),
        r@ == loaded@.union_prefer_right(current@),
{
    let mut merged = current.clone();
    merged.merge(loaded);
    merged
}

/// Merging never evicts or renumbers: a name that resolves before a merge resolves
/// to the same id after it, whatever was merged in.
pub proof fn law_merge_keeps_ids(
    before: Map<Seq<char>, SegmentId>,
    other: Map<Seq<char>, SegmentId>,
    name: Seq<char>,
)
    requires
        before.contains_key(name),
    ensures
        other.union_prefer_right(before).contains_key(name),
        other.union_prefer_right(before)[name] == before[name],
{
}

/// Every name resolves in isolation: resolving two lists of names one after the
/// other gives the ids of the joined list.
pub proof fn law_resolve_concatenates(
    table: Map<Seq<char>, SegmentId>,
    left: Seq<String>,
    right: Seq<String>,
)
    ensures
        resolved(table, left + right) == resolved(table, left) + resolved(table, right),
{
    let known = |n: String| table.contains_key(n@);
    Seq::filter_distributes_over_add(left, right, known);
    assert(resolved(table, left + right) =~= resolved(table, left) + resolved(table, right));
}

/// A known name resolves to its id, and an unknown one to nothing.
pub proof fn law_one_name_resolves_to_its_id(table: Map<Seq<char>, SegmentId>, name: String)
    ensures
        table.contains_key(name@) ==> resolved(table, seq![name]) == seq![table[name@]],
        !table.contains_key(name@) ==> resolved(table, seq![name]).len() == 0,
{
    reveal_with_fuel(Seq::filter, 2);
    let one = seq![name];
    assert(one.drop_last() =~= Seq::<String>::empty());
    if table.contains_key(name@) {
        assert(resolved(table, one) =~= seq![table[name@]]);
    }
}

/// A merge takes over the ids of names that are new, and nothing else.
pub proof fn law_merge_takes_over_new_names(
    before: Map<Seq<char>, SegmentId>,
    other: Map<Seq<char>, SegmentId>,
    name: Seq<char>,
)
    requires
        !before.contains_key(name),
    ensures
        other.union_prefer_right(before).contains_key(name) <==> other.contains_key(name),
        other.contains_key(name) ==> other.union_prefer_right(before)[name] == other[name],
{
}

} // verus!
