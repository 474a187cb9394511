//! [`AxHashMap`]: a hash map from `u64` keys to `u64` values.

use crate::raw::{
    rebuilt_room, table_room_for,
    insert_all, lists_entries, map_has_len, raw_map_contents, raw_map_hasher, raw_map_removed, raw_map_capacity, RawHashMap,
    MAX_MAP_CAPACITY,
};
use axhash_core::AxBuildHasher;
use vstd::prelude::*;
use vstd::std_specs::cmp::PartialEqSpecImpl;
use vstd::std_specs::convert::FromSpecImpl;

verus! {

/// What a map holds under `key`: its value, or `None` where it has no entry.
pub open spec fn lookup(m: Map<u64, u64>, key: u64) -> Option<u64> {
    if m.contains_key(key) {
        Some(m[key])
    } else {
        None
    }
}

/// A hash map from `u64` keys to `u64` values, held in a `hashbrown` table
/// that hashes with [`AxBuildHasher`].
///
/// Its model (`@`) is the `Map` of its entries; `room` is what `capacity`
/// reports, and `hasher` the hasher it hashes with.
#[derive(Debug)]
pub struct AxHashMap(RawHashMap);

impl View for AxHashMap {
    type V = Map<u64, u64>;

    closed spec fn view(&self) -> Map<u64, u64> {
        raw_map_contents(self.0)
    }
}

impl AxHashMap {
    /// How many entries this map can hold without reallocating, as `capacity`
    /// reports it.
    pub closed spec fn room(&self) -> nat {
        raw_map_capacity(self.0)
    }

    /// The hasher this map was made with and hashes with.
    pub closed spec fn hasher(&self) -> AxBuildHasher {
        raw_map_hasher(self.0)
    }

    /// How many slots of this map's table are marked as left by a removal;
    /// each counts against `room` until the table is rebuilt.
    pub closed spec fn removed_slots(&self) -> nat {
        raw_map_removed(self.0)
    }

    /// Creates an empty map with the default [`AxBuildHasher`]. It allocates
    /// nothing until entries are inserted.
    pub fn new() -> (r: Self)
        ensures
            r@ == Map::<u64, u64>::empty(),
            r.room() == 0,
            r.removed_slots() == 0,
    {
        AxHashMap(RawHashMap::with_hasher(AxBuildHasher::new()))
    }

    /// Creates an empty map with the default [`AxBuildHasher`] that can hold
    /// at least `capacity` entries without reallocating.
    pub fn with_capacity(capacity: usize) -> (r: Self)
        requires
            capacity <= MAX_MAP_CAPACITY,
        ensures
            r@ == Map::<u64, u64>::empty(),
            r.room() >= capacity,
            r.room() == table_room_for(capacity as nat),
            r.removed_slots() == 0,
    {
        AxHashMap(RawHashMap::with_capacity_and_hasher(capacity, AxBuildHasher::new()))
    }

    /// Creates an empty map that hashes with `hasher` (for example one made
    /// by [`AxBuildHasher::with_seed`]).
    pub fn with_hasher(hasher: AxBuildHasher) -> (r: Self)
        ensures
            r@ == Map::<u64, u64>::empty(),
            r.room() == 0,
            r.removed_slots() == 0,
            r.hasher() == hasher,
    {
        AxHashMap(RawHashMap::with_hasher(hasher))
    }

    /// Creates an empty map that hashes with `hasher` and can hold at least
    /// `capacity` entries without reallocating.
    pub fn with_capacity_and_hasher(capacity: usize, hasher: AxBuildHasher) -> (r: Self)
        requires
            capacity <= MAX_MAP_CAPACITY,
        ensures
            r@ == Map::<u64, u64>::empty(),
            r.room() >= capacity,
            r.room() == table_room_for(capacity as nat),
            r.removed_slots() == 0,
            r.hasher() == hasher,
    {
        AxHashMap(RawHashMap::with_capacity_and_hasher(capacity, hasher))
    }

    /// Consumes the map and returns the table it holds.
    pub fn into_inner(self) -> (r: RawHashMap)
        ensures
            raw_map_contents(r) == self@,
            raw_map_capacity(r) == self.room(),
            raw_map_hasher(r) == self.hasher(),
            raw_map_removed(r) == self.removed_slots(),
    {
        self.0
    }

    /// The number of entries.
    pub fn len(&self) -> (r: usize)
        ensures
            map_has_len(self@, r as nat),
            r <= MAX_MAP_CAPACITY,
    {
        self.0.len()
    }

    /// Whether the map has no entry.
    pub fn is_empty(&self) -> (r: bool)
        ensures
            r == (self@ == Map::<u64, u64>::empty()),
    {
        self.0.is_empty()
    }

    /// How many entries the map can hold without reallocating.
    pub fn capacity(&self) -> (r: usize)
        ensures
            r == self.room(),
            r >= self@.len(),
            r <= MAX_MAP_CAPACITY,
    {
        self.0.capacity()
    }

    /// The value stored under `key`, if any.
    pub fn get(&self, key: &u64) -> (r: Option<&u64>)
        ensures
            r == (if self@.contains_key(*key) { Some(&self@[*key]) } else { None }),
    {
        self.0.get(key)
    }

    /// Whether `key` has an entry.
    pub fn contains_key(&self, key: &u64) -> (r: bool)
        ensures
            r == self@.contains_key(*key),
    {
        self.0.contains_key(key)
    }

    /// The value stored under `key`, which must have an entry (indexing a
    /// map with a missing key panics).
    pub fn index(&self, key: &u64) -> (r: &u64)
        requires
            self@.contains_key(*key),
        ensures
            *r == self@[*key],
    {
        self.0.get(key).unwrap()
    }

    /// Stores `value` under `key` and returns the value that was stored
    /// there before, if any.
    pub fn insert(&mut self, key: u64, value: u64) -> (r: Option<u64>)
        ensures
            final(self)@ == old(self)@.insert(key, value),
            final(self).room() >= old(self).room(),
            final(self).removed_slots() <= old(self).removed_slots(),
            old(self)@.len() == old(self).room() ==> final(self).removed_slots() == 0,
            old(self)@.len() == old(self).room() ==> final(self).room()
                == rebuilt_room(old(self)@.len() + 1, old(self).room() + old(self).removed_slots()),
            old(self)@.len() < old(self).room() ==> final(self).room() + final(self).removed_slots()
                == old(self).room() + old(self).removed_slots(),
            old(self)@.len() < old(self).room() ==> final(self).removed_slots() + 1 >= old(self).removed_slots(),
            old(self)@.len() < old(self).room() ==> (old(self)@.contains_key(key) ==> final(self).room() == old(self).room()),
            old(self)@.len() < old(self).room() ==> (old(self)@.contains_key(key) ==> final(self).removed_slots() == old(self).removed_slots()),
            old(self)@.len() < old(self).room() ==> (old(self).removed_slots() == 0 ==> final(self).room() == old(self).room()),
            final(self).hasher() == old(self).hasher(),
            r == lookup(old(self)@, key),
            r == (if old(self)@.contains_key(key) { Some(old(self)@[key]) } else { None }),
    {
        self.0.insert(key, value)
    }

    /// Removes the entry of `key` and returns its value, if it had one.
    pub fn remove(&mut self, key: &u64) -> (r: Option<u64>)
        ensures
            final(self)@ == old(self)@.remove(*key),
            final(self).room() + final(self).removed_slots() == old(self).room() + old(self).removed_slots(),
            final(self).removed_slots() >= old(self).removed_slots(),
            final(self).removed_slots() <= old(self).removed_slots() + 1,
            !old(self)@.contains_key(*key) ==> final(self).room() == old(self).room(),
            !old(self)@.contains_key(*key) ==> final(self).removed_slots() == old(self).removed_slots(),
            final(self).hasher() == old(self).hasher(),
            r == lookup(old(self)@, *key),
            r == (if old(self)@.contains_key(*key) { Some(old(self)@[*key]) } else { None }),
    {
        self.0.remove(key)
    }

    /// Inserts the `pairs` one after the other, in order: where a key occurs
    /// more than once, its last pair wins.
    pub fn extend(&mut self, pairs: Vec<(u64, u64)>)
        requires
            old(self)@.len() + pairs@.len() <= MAX_MAP_CAPACITY,
        ensures
            final(self)@ == insert_all(old(self)@, pairs@),
            final(self).room() >= old(self).room(),
            final(self).removed_slots() <= old(self).removed_slots(),
            old(self)@.len() + pairs@.len() <= old(self).room() ==> final(self).room() + final(self).removed_slots()
                == old(self).room() + old(self).removed_slots(),
            old(self)@.len() + pairs@.len() <= old(self).room() ==> (old(self).removed_slots() == 0
                ==> final(self).room() == old(self).room()),
            final(self).hasher() == old(self).hasher(),
    {
        self.0.extend(pairs)
    }

    /// Like `extend`, with the pairs copied out of a slice.
    pub fn extend_from_slice(&mut self, pairs: &[(u64, u64)])
        requires
            old(self)@.len() + pairs@.len() <= MAX_MAP_CAPACITY,
        ensures
            final(self)@ == insert_all(old(self)@, pairs@),
            final(self).room() >= old(self).room(),
            final(self).removed_slots() <= old(self).removed_slots(),
            old(self)@.len() + pairs@.len() <= old(self).room() ==> final(self).room() + final(self).removed_slots()
                == old(self).room() + old(self).removed_slots(),
            old(self)@.len() + pairs@.len() <= old(self).room() ==> (old(self).removed_slots() == 0
                ==> final(self).room() == old(self).room()),
            final(self).hasher() == old(self).hasher(),
    {
        let mut owned: Vec<(u64, u64)> = Vec::new();
        let mut i: usize = 0;
        while i < pairs.len()
            invariant
                i <= pairs@.len(),
                owned@ == pairs@.subrange(0, i as int),
            decreases pairs@.len() - i,
        {
            owned.push(pairs[i]);
            i = i + 1;
        }
        assert(owned@ =~= pairs@);
        self.extend(owned);
    }

    /// Drops every entry but keeps the table: its slots are all free again, so
    /// `room` takes back the removed slots (an empty map stays as it is).
    pub fn clear(&mut self)
        ensures
            final(self)@ == Map::<u64, u64>::empty(),
            old(self)@ == Map::<u64, u64>::empty() ==> final(self).room() == old(self).room(),
            old(self)@ == Map::<u64, u64>::empty() ==> final(self).removed_slots() == old(self).removed_slots(),
            old(self)@ != Map::<u64, u64>::empty() ==> final(self).room() == old(self).room() + old(self).removed_slots(),
            old(self)@ != Map::<u64, u64>::empty() ==> final(self).removed_slots() == 0,
            final(self).hasher() == old(self).hasher(),
    {
        self.0.clear()
    }

    /// Makes room for at least `additional` more entries; the contents stay.
    pub fn reserve(&mut self, additional: usize)
        requires
            old(self)@.len() + additional <= MAX_MAP_CAPACITY,
        ensures
            final(self)@ == old(self)@,
            final(self).room() >= old(self)@.len() + additional,
            final(self).room() >= old(self).room(),
            final(self).removed_slots() <= old(self).removed_slots(),
            old(self)@.len() + additional <= old(self).room() ==> final(self).room() == old(self).room(),
            old(self)@.len() + additional <= old(self).room() ==> final(self).removed_slots() == old(self).removed_slots(),
            old(self)@.len() + additional > old(self).room() ==> final(self).removed_slots() == 0,
            old(self)@.len() + additional > old(self).room() ==> final(self).room()
                == rebuilt_room(old(self)@.len() + additional as nat, old(self).room() + old(self).removed_slots()),
            final(self).hasher() == old(self).hasher(),
    {
        self.0.reserve(additional)
    }

    /// Shrinks the table as far as its entries allow (an empty map gives up its
    /// table); the contents stay.
    pub fn shrink_to_fit(&mut self)
        ensures
            final(self)@ == old(self)@,
            final(self).room() >= final(self)@.len(),
            old(self)@ == Map::<u64, u64>::empty() ==> final(self).room() == 0,
            old(self)@ == Map::<u64, u64>::empty() ==> final(self).removed_slots() == 0,
            old(self).room() + old(self).removed_slots() > table_room_for(old(self)@.len())
                ==> final(self).room() == table_room_for(old(self)@.len()),
            old(self).room() + old(self).removed_slots() > table_room_for(old(self)@.len())
                ==> final(self).removed_slots() == 0,
            old(self).room() + old(self).removed_slots() <= table_room_for(old(self)@.len())
                ==> final(self).room() == old(self).room(),
            old(self).room() + old(self).removed_slots() <= table_room_for(old(self)@.len())
                ==> final(self).removed_slots() == old(self).removed_slots(),
            final(self).hasher() == old(self).hasher(),
    {
        self.0.shrink_to_fit()
    }

    /// Builds a map from `pairs` with the default [`AxBuildHasher`]: room
    /// for all of them is reserved first, then they are inserted in order.
    pub fn from_iter(pairs: Vec<(u64, u64)>) -> (r: Self)
        requires
            pairs@.len() <= MAX_MAP_CAPACITY,
        ensures
            r@ == insert_all(Map::empty(), pairs@),
            r.room() >= pairs@.len(),
            r.room() == table_room_for(pairs@.len()),
            r.removed_slots() == 0,
    {
        let mut map = Self::with_capacity(pairs.len());
        map.extend(pairs);
        map
    }

    /// The entries, each once, in the table's order.
    pub fn iter(&self) -> (r: Vec<(u64, u64)>)
        ensures
            lists_entries(r@, self@),
    {
        self.0.entries()
    }

    /// Consumes the map and returns its entries, each once, in the table's
    /// order.
    pub fn into_iter(self) -> (r: Vec<(u64, u64)>)
        ensures
            lists_entries(r@, self@),
    {
        self.0.into_entries()
    }
}

impl std::ops::Deref for AxHashMap {
    type Target = RawHashMap;

    /// The table this map holds, for code that speaks `hashbrown` (through
    /// its field `.0`).
    fn deref(&self) -> (r: &RawHashMap)
        ensures
            raw_map_contents(*r) == self@,
            raw_map_capacity(*r) == self.room(),
            raw_map_hasher(*r) == self.hasher(),
            raw_map_removed(*r) == self.removed_slots(),
    {
        &self.0
    }
}

impl std::ops::DerefMut for AxHashMap {
    /// The table this map holds, to change in place: whatever the table
    /// holds when the borrow ends is what the map holds.
    fn deref_mut(&mut self) -> (r: &mut RawHashMap)
        ensures
            raw_map_contents(*r) == old(self)@,
            raw_map_capacity(*r) == old(self).room(),
            raw_map_hasher(*r) == old(self).hasher(),
            raw_map_removed(*r) == old(self).removed_slots(),
            final(self)@ == raw_map_contents(*final(r)),
            final(self).room() == raw_map_capacity(*final(r)),
            final(self).hasher() == raw_map_hasher(*final(r)),
            final(self).removed_slots() == raw_map_removed(*final(r)),
    {
        &mut self.0
    }
}

impl Default for AxHashMap {
    /// An empty map with the default [`AxBuildHasher`].
    fn default() -> (r: Self)
        ensures
            r@ == Map::<u64, u64>::empty(),
            r.room() == 0,
            r.removed_slots() == 0,
    {
        Self::new()
    }
}

impl Clone for AxHashMap {
    /// A map with the same entries and the same room.
    fn clone(&self) -> (r: Self)
        ensures
            r@ == self@,
            r.room() == self.room(),
            r.hasher() == self.hasher(),
            r.removed_slots() == self.removed_slots(),
    {
        AxHashMap(self.0.clone_table())
    }
}

impl PartialEq for AxHashMap {
    /// Two maps are equal when they hold the same entries.
    fn eq(&self, other: &Self) -> (r: bool) {
        self.0.eq_table(&other.0)
    }
}

impl PartialEqSpecImpl for AxHashMap {
    open spec fn obeys_eq_spec() -> bool {
        true
    }

    open spec fn eq_spec(&self, other: &AxHashMap) -> bool {
        self@ == other@
    }
}

impl Eq for AxHashMap {}

impl From<RawHashMap> for AxHashMap {
    /// Wraps a table.
    fn from(inner: RawHashMap) -> (r: Self)
        ensures
            r@ == raw_map_contents(inner),
            r.room() == raw_map_capacity(inner),
            r.hasher() == raw_map_hasher(inner),
            r.removed_slots() == raw_map_removed(inner),
    {
        AxHashMap(inner)
    }
}

impl FromSpecImpl<RawHashMap> for AxHashMap {
    open spec fn obeys_from_spec() -> bool {
        true
    }

    closed spec fn from_spec(v: RawHashMap) -> AxHashMap {
        AxHashMap(v)
    }
}

impl From<AxHashMap> for RawHashMap {
    /// Unwraps the table of a map.
    fn from(wrapper: AxHashMap) -> (r: Self)
        ensures
            raw_map_contents(r) == wrapper@,
            raw_map_capacity(r) == wrapper.room(),
            raw_map_hasher(r) == wrapper.hasher(),
            raw_map_removed(r) == wrapper.removed_slots(),
    {
        wrapper.0
    }
}

impl FromSpecImpl<AxHashMap> for RawHashMap {
    open spec fn obeys_from_spec() -> bool {
        true
    }

    closed spec fn from_spec(v: AxHashMap) -> RawHashMap {
        v.0
    }
}

} // verus!
