//! [`AxHashSet`]: a hash set of `u64` items.

use crate::raw::{
    rebuilt_room, table_room_for,
    lists_items, raw_set_contents, raw_set_hasher, raw_set_removed, raw_set_capacity, set_has_len, RawHashSet, MAX_SET_CAPACITY,
};
use axhash_core::AxBuildHasher;
use vstd::prelude::*;
use vstd::std_specs::cmp::PartialEqSpecImpl;
use vstd::std_specs::convert::FromSpecImpl;

verus! {

/// A hash set of `u64` items, held in a `hashbrown` table that hashes with
/// [`AxBuildHasher`].
///
/// Its model (`@`) is the `Set` of its items; `room` is what `capacity`
/// reports, and `hasher` the hasher it hashes with.
#[derive(Debug)]
pub struct AxHashSet(RawHashSet);

impl View for AxHashSet {
    type V = Set<u64>;

    closed spec fn view(&self) -> Set<u64> {
        raw_set_contents(self.0)
    }
}

impl AxHashSet {
    /// How many items this set can hold without reallocating, as `capacity`
    /// reports it.
    pub closed spec fn room(&self) -> nat {
        raw_set_capacity(self.0)
    }

    /// The hasher this set was made with and hashes with.
    pub closed spec fn hasher(&self) -> AxBuildHasher {
        raw_set_hasher(self.0)
    }

    /// How many slots of this set's table are marked as left by a removal;
    /// each counts against `room` until the table is rebuilt.
    pub closed spec fn removed_slots(&self) -> nat {
        raw_set_removed(self.0)
    }

    /// Creates an empty set with the default [`AxBuildHasher`]. It allocates
    /// nothing until items are inserted.
    pub fn new() -> (r: Self)
        ensures
            r@ == Set::<u64>::empty(),
            r.room() == 0,
            r.removed_slots() == 0,
    {
        AxHashSet(RawHashSet::with_hasher(AxBuildHasher::new()))
    }

    /// Creates an empty set with the default [`AxBuildHasher`] that can hold
    /// at least `capacity` items without reallocating.
    pub fn with_capacity(capacity: usize) -> (r: Self)
        requires
            capacity <= MAX_SET_CAPACITY,
        ensures
            r@ == Set::<u64>::empty(),
            r.room() >= capacity,
            r.room() == table_room_for(capacity as nat),
            r.removed_slots() == 0,
    {
        AxHashSet(RawHashSet::with_capacity_and_hasher(capacity, AxBuildHasher::new()))
    }

    /// Creates an empty set that hashes with `hasher`.
    pub fn with_hasher(hasher: AxBuildHasher) -> (r: Self)
        ensures
            r@ == Set::<u64>::empty(),
            r.room() == 0,
            r.removed_slots() == 0,
            r.hasher() == hasher,
    {
        AxHashSet(RawHashSet::with_hasher(hasher))
    }

    /// Creates an empty set that hashes with `hasher` and can hold at least
    /// `capacity` items without reallocating.
    pub fn with_capacity_and_hasher(capacity: usize, hasher: AxBuildHasher) -> (r: Self)
        requires
            capacity <= MAX_SET_CAPACITY,
        ensures
            r@ == Set::<u64>::empty(),
            r.room() >= capacity,
            r.room() == table_room_for(capacity as nat),
            r.removed_slots() == 0,
            r.hasher() == hasher,
    {
        AxHashSet(RawHashSet::with_capacity_and_hasher(capacity, hasher))
    }

    /// Consumes the set and returns the table it holds.
    pub fn into_inner(self) -> (r: RawHashSet)
        ensures
            raw_set_contents(r) == self@,
            raw_set_capacity(r) == self.room(),
            raw_set_hasher(r) == self.hasher(),
            raw_set_removed(r) == self.removed_slots(),
    {
        self.0
    }

    /// The number of items.
    pub fn len(&self) -> (r: usize)
        ensures
            set_has_len(self@, r as nat),
            r <= MAX_SET_CAPACITY,
    {
        self.0.len()
    }

    /// Whether the set has no item.
    pub fn is_empty(&self) -> (r: bool)
        ensures
            r == (self@ == Set::<u64>::empty()),
    {
        self.0.is_empty()
    }

    /// How many items the set can hold without reallocating.
    pub fn capacity(&self) -> (r: usize)
        ensures
            r == self.room(),
            r >= self@.len(),
            r <= MAX_SET_CAPACITY,
    {
        self.0.capacity()
    }

    /// Whether `item` is in the set.
    pub fn contains(&self, item: &u64) -> (r: bool)
        ensures
            r == self@.contains(*item),
    {
        self.0.contains(item)
    }

    /// Adds `item`; returns whether it was new. Inserting an item that is
    /// already there leaves the set as it was.
    pub fn insert(&mut self, item: u64) -> (r: bool)
        ensures
            final(self)@ == old(self)@.insert(item),
            final(self).room() >= old(self).room(),
            final(self).removed_slots() <= old(self).removed_slots(),
            old(self)@.len() == old(self).room() ==> final(self).removed_slots() == 0,
            old(self)@.len() == old(self).room() ==> final(self).room()
                == rebuilt_room(old(self)@.len() + 1, old(self).room() + old(self).removed_slots()),
            old(self)@.len() < old(self).room() ==> final(self).room() + final(self).removed_slots()
                == old(self).room() + old(self).removed_slots(),
            old(self)@.len() < old(self).room() ==> final(self).removed_slots() + 1 >= old(self).removed_slots(),
            old(self)@.len() < old(self).room() ==> (old(self)@.contains(item) ==> final(self).room() == old(self).room()),
            old(self)@.len() < old(self).room() ==> (old(self)@.contains(item) ==> final(self).removed_slots() == old(self).removed_slots()),
            old(self)@.len() < old(self).room() ==> (old(self).removed_slots() == 0 ==> final(self).room() == old(self).room()),
            final(self).hasher() == old(self).hasher(),
            r == !old(self)@.contains(item),
    {
        self.0.insert(item)
    }

    /// Removes `item`; returns whether it was there.
    pub fn remove(&mut self, item: &u64) -> (r: bool)
        ensures
            final(self)@ == old(self)@.remove(*item),
            final(self).room() + final(self).removed_slots() == old(self).room() + old(self).removed_slots(),
            final(self).removed_slots() >= old(self).removed_slots(),
            final(self).removed_slots() <= old(self).removed_slots() + 1,
            !old(self)@.contains(*item) ==> final(self).room() == old(self).room(),
            !old(self)@.contains(*item) ==> final(self).removed_slots() == old(self).removed_slots(),
            final(self).hasher() == old(self).hasher(),
            r == old(self)@.contains(*item),
    {
        self.0.remove(item)
    }

    /// Adds all of `items`.
    pub fn extend(&mut self, items: Vec<u64>)
        requires
            old(self)@.len() + items@.len() <= MAX_SET_CAPACITY,
        ensures
            final(self)@ == old(self)@.union(items@.to_set()),
            final(self).room() >= old(self).room(),
            final(self).removed_slots() <= old(self).removed_slots(),
            old(self)@.len() + items@.len() <= old(self).room() ==> final(self).room() + final(self).removed_slots()
                == old(self).room() + old(self).removed_slots(),
            old(self)@.len() + items@.len() <= old(self).room() ==> (old(self).removed_slots() == 0
                ==> final(self).room() == old(self).room()),
            final(self).hasher() == old(self).hasher(),
    {
        self.0.extend(items)
    }

    /// Like `extend`, with the items copied out of a slice.
    pub fn extend_from_slice(&mut self, items: &[u64])
        requires
            old(self)@.len() + items@.len() <= MAX_SET_CAPACITY,
        ensures
            final(self)@ == old(self)@.union(items@.to_set()),
            final(self).room() >= old(self).room(),
            final(self).removed_slots() <= old(self).removed_slots(),
            old(self)@.len() + items@.len() <= old(self).room() ==> final(self).room() + final(self).removed_slots()
                == old(self).room() + old(self).removed_slots(),
            old(self)@.len() + items@.len() <= old(self).room() ==> (old(self).removed_slots() == 0
                ==> final(self).room() == old(self).room()),
            final(self).hasher() == old(self).hasher(),
    {
        let mut owned: Vec<u64> = Vec::new();
        let mut i: usize = 0;
        while i < items.len()
            invariant
                i <= items@.len(),
                owned@ == items@.subrange(0, i as int),
            decreases items@.len() - i,
        {
            owned.push(items[i]);
            i = i + 1;
        }
        assert(owned@ =~= items@);
        self.extend(owned);
    }

    /// Drops every item but keeps the table: its slots are all free again, so
    /// `room` takes back the removed slots (an empty set stays as it is).
    pub fn clear(&mut self)
        ensures
            final(self)@ == Set::<u64>::empty(),
            old(self)@ == Set::<u64>::empty() ==> final(self).room() == old(self).room(),
            old(self)@ == Set::<u64>::empty() ==> final(self).removed_slots() == old(self).removed_slots(),
            old(self)@ != Set::<u64>::empty() ==> final(self).room() == old(self).room() + old(self).removed_slots(),
            old(self)@ != Set::<u64>::empty() ==> final(self).removed_slots() == 0,
            final(self).hasher() == old(self).hasher(),
    {
        self.0.clear()
    }

    /// Makes room for at least `additional` more items; the contents stay.
    pub fn reserve(&mut self, additional: usize)
        requires
            old(self)@.len() + additional <= MAX_SET_CAPACITY,
        ensures
            final(self)@ == old(self)@,
            final(self).room() >= old(self)@.len() + additional,
            final(self).room() >= old(self).room(),
            final(self).removed_slots() <= old(self).removed_slots(),
            old(self)@.len() + additional <= old(self).room() ==> final(self).room() == old(self).room(),
            old(self)@.len() + additional <= old(self).room() ==> final(self).removed_slots() == old(self).removed_slots(),
            old(self)@.len() + additional > old(self).room() ==> final(self).removed_slots() == 0,
            old(self)@.len() + additional > old(self).room() ==> final(self).room()
                == rebuilt_room(old(self)@.len() + additional as nat, old(self).room() + old(self).removed_slots()),
            final(self).hasher() == old(self).hasher(),
    {
        self.0.reserve(additional)
    }

    /// Shrinks the table as far as its items allow (an empty set gives up its
    /// table); the contents stay.
    pub fn shrink_to_fit(&mut self)
        ensures
            final(self)@ == old(self)@,
            final(self).room() >= final(self)@.len(),
            old(self)@ == Set::<u64>::empty() ==> final(self).room() == 0,
            old(self)@ == Set::<u64>::empty() ==> final(self).removed_slots() == 0,
            old(self).room() + old(self).removed_slots() > table_room_for(old(self)@.len())
                ==> final(self).room() == table_room_for(old(self)@.len()),
            old(self).room() + old(self).removed_slots() > table_room_for(old(self)@.len())
                ==> final(self).removed_slots() == 0,
            old(self).room() + old(self).removed_slots() <= table_room_for(old(self)@.len())
                ==> final(self).room() == old(self).room(),
            old(self).room() + old(self).removed_slots() <= table_room_for(old(self)@.len())
                ==> final(self).removed_slots() == old(self).removed_slots(),
            final(self).hasher() == old(self).hasher(),
    {
        self.0.shrink_to_fit()
    }

    /// Builds a set from `items` with the default [`AxBuildHasher`]: room for
    /// all of them is reserved first, then they are added; repeated items
    /// are held once.
    pub fn from_iter(items: Vec<u64>) -> (r: Self)
        requires
            items@.len() <= MAX_SET_CAPACITY,
        ensures
            r@ == items@.to_set(),
            r.room() >= items@.len(),
            r.room() == table_room_for(items@.len()),
            r.removed_slots() == 0,
    {
        let mut set = Self::with_capacity(items.len());
        set.extend(items);
        proof {
            assert(Set::<u64>::empty().union(items@.to_set()) =~= items@.to_set());
        }
        set
    }

    /// The items that are in `self`, in `other`, or in both, as a new set
    /// with the default [`AxBuildHasher`].
    pub fn union(&self, other: &AxHashSet) -> (r: AxHashSet)
        requires
            self@.union(other@).len() <= MAX_SET_CAPACITY,
        ensures
            r@ == self@.union(other@),
            r.removed_slots() == 0,
    {
        AxHashSet(self.0.union_table(&other.0))
    }

    /// The items that are in both `self` and `other`, as a new set with the
    /// default [`AxBuildHasher`].
    pub fn intersection(&self, other: &AxHashSet) -> (r: AxHashSet)
        ensures
            r@ == self@.intersect(other@),
            r.removed_slots() == 0,
    {
        AxHashSet(self.0.intersection_table(&other.0))
    }

    /// The items, each once, in the table's order.
    pub fn iter(&self) -> (r: Vec<u64>)
        ensures
            lists_items(r@, self@),
    {
        self.0.items()
    }

    /// Consumes the set and returns its items, each once, in the table's
    /// order.
    pub fn into_iter(self) -> (r: Vec<u64>)
        ensures
            lists_items(r@, self@),
    {
        self.0.into_items()
    }
}

impl std::ops::Deref for AxHashSet {
    type Target = RawHashSet;

    /// The table this set holds, for code that speaks `hashbrown` (through
    /// its field `.0`).
    fn deref(&self) -> (r: &RawHashSet)
        ensures
            raw_set_contents(*r) == self@,
            raw_set_capacity(*r) == self.room(),
            raw_set_hasher(*r) == self.hasher(),
            raw_set_removed(*r) == self.removed_slots(),
    {
        &self.0
    }
}

impl std::ops::DerefMut for AxHashSet {
    /// The table this set holds, to change in place: whatever the table
    /// holds when the borrow ends is what the set holds.
    fn deref_mut(&mut self) -> (r: &mut RawHashSet)
        ensures
            raw_set_contents(*r) == old(self)@,
            raw_set_capacity(*r) == old(self).room(),
            raw_set_hasher(*r) == old(self).hasher(),
            raw_set_removed(*r) == old(self).removed_slots(),
            final(self)@ == raw_set_contents(*final(r)),
            final(self).room() == raw_set_capacity(*final(r)),
            final(self).hasher() == raw_set_hasher(*final(r)),
            final(self).removed_slots() == raw_set_removed(*final(r)),
    {
        &mut self.0
    }
}

impl Default for AxHashSet {
    /// An empty set with the default [`AxBuildHasher`].
    fn default() -> (r: Self)
        ensures
            r@ == Set::<u64>::empty(),
            r.room() == 0,
            r.removed_slots() == 0,
    {
        Self::new()
    }
}

impl Clone for AxHashSet {
    /// A set with the same items and the same room.
    fn clone(&self) -> (r: Self)
        ensures
            r@ == self@,
            r.room() == self.room(),
            r.hasher() == self.hasher(),
            r.removed_slots() == self.removed_slots(),
    {
        AxHashSet(self.0.clone_table())
    }
}

impl PartialEq for AxHashSet {
    /// Two sets are equal when they hold the same items.
    fn eq(&self, other: &Self) -> (r: bool) {
        self.0.eq_table(&other.0)
    }
}

impl PartialEqSpecImpl for AxHashSet {
    open spec fn obeys_eq_spec() -> bool {
        true
    }

    open spec fn eq_spec(&self, other: &AxHashSet) -> bool {
        self@ == other@
    }
}

impl Eq for AxHashSet {}

impl From<RawHashSet> for AxHashSet {
    /// Wraps a table.
    fn from(inner: RawHashSet) -> (r: Self)
        ensures
            r@ == raw_set_contents(inner),
            r.room() == raw_set_capacity(inner),
            r.hasher() == raw_set_hasher(inner),
            r.removed_slots() == raw_set_removed(inner),
    {
        AxHashSet(inner)
    }
}

impl FromSpecImpl<RawHashSet> for AxHashSet {
    open spec fn obeys_from_spec() -> bool {
        true
    }

    closed spec fn from_spec(v: RawHashSet) -> AxHashSet {
        AxHashSet(v)
    }
}

impl From<AxHashSet> for RawHashSet {
    /// Unwraps the table of a set.
    fn from(wrapper: AxHashSet) -> (r: Self)
        ensures
            raw_set_contents(r) == wrapper@,
            raw_set_capacity(r) == wrapper.room(),
            raw_set_hasher(r) == wrapper.hasher(),
            raw_set_removed(r) == wrapper.removed_slots(),
    {
        wrapper.0
    }
}

impl FromSpecImpl<AxHashSet> for RawHashSet {
    open spec fn obeys_from_spec() -> bool {
        true
    }

    closed spec fn from_spec(v: AxHashSet) -> RawHashSet {
        v.0
    }
}

} // verus!
