//! The `hashbrown` tables that the collections hold, and the trusted
//! wrappers through which verified code reaches them.
//!
//! Nothing in this file is proved: each wrapper's contract restates what the
//! `hashbrown` (or `axhash_core`) source shows of the function it calls.

use axhash_core::AxBuildHasher;
use vstd::prelude::*;

verus! {

/// The largest capacity that hashbrown can lay a map table of `(u64, u64)`
/// entries out for. A table takes 17 bytes per bucket (the entry and its
/// control byte), its bucket count is a power of two, and the whole must fit
/// in `isize::MAX` bytes; so it has at most `2^(w - 6)` buckets on a `w`-bit
/// target, of which hashbrown fills at most 7/8. A larger capacity makes
/// hashbrown panic with "capacity overflow" (about 58.7 million on 32-bit
/// targets).
pub const MAX_MAP_CAPACITY: usize = (usize::MAX / 512 + 1) * 7;

/// The largest capacity that hashbrown can lay a set table of `u64` items
/// out for: 9 bytes per bucket, so at most `2^(w - 5)` buckets on a `w`-bit
/// target, filled to at most 7/8. A larger capacity makes hashbrown panic
/// with "capacity overflow" (about 117 million on 32-bit targets).
pub const MAX_SET_CAPACITY: usize = (usize::MAX / 256 + 1) * 7;

/// The capacity of the table that hashbrown lays out, or rebuilds, for `n`
/// entries (items): that of the fewest buckets, a power of two, whose
/// usable slots (7/8 of them, or all but one in the smallest tables) hold
/// `n`. It is the same for the map and the set tables here: both take the
/// path of entries wider than 3 bytes. (hashbrown's `capacity_to_buckets`
/// and `bucket_mask_to_capacity`.)
pub uninterp spec fn table_room_for(n: nat) -> nat;

/// The capacity that hashbrown's `reserve_rehash` leaves a table with, when
/// `needed` entries must fit and the table has `full` usable slots: it
/// rehashes in place (the capacity becomes `full`) when `needed` is at most
/// half of `full`, and otherwise lays out a table for `needed`, or for one
/// more than `full`, whichever is larger.
pub open spec fn rebuilt_room(needed: nat, full: nat) -> nat {
    if needed <= full / 2 {
        full
    } else if needed >= full + 1 {
        table_room_for(needed)
    } else {
        table_room_for(full + 1)
    }
}

#[verifier::external_type_specification]
#[verifier::external_body]
pub struct ExAxBuildHasher(AxBuildHasher);

/// `axhash_core::AxBuildHasher::new` builds the hasher with the default
/// seed, the one that `BuildHasherDefault<AxHasher>` uses too. Nothing is
/// stated of the value: the contents of a table never depend on it.
pub assume_specification[ AxBuildHasher::new ]() -> AxBuildHasher;

// ---------------------------------------------------------------------------
// The map table
// ---------------------------------------------------------------------------

/// A `hashbrown` map from `u64` keys to `u64` values that hashes with an
/// [`AxBuildHasher`]. The field is public so that callers can hand a table to
/// other code that speaks `hashbrown`, and take one back.
#[verifier::external_body]
#[derive(Debug)]
pub struct RawHashMap(pub hashbrown::HashMap<u64, u64, AxBuildHasher>);

/// The key/value pairs that a map table holds.
pub uninterp spec fn raw_map_contents(m: RawHashMap) -> Map<u64, u64>;

/// What `capacity` reports of a map table: how many entries it can hold without
/// reallocating. hashbrown counts it from the table itself (its entries plus its
/// free slots), not from what the allocator handed back.
pub uninterp spec fn raw_map_capacity(m: RawHashMap) -> nat;

/// The hasher that a map table was made with and hashes its keys with
/// (hashbrown keeps the `hash_builder` it is given).
pub uninterp spec fn raw_map_hasher(m: RawHashMap) -> AxBuildHasher;

/// How many slots of a map table are marked as left by a removal. hashbrown
/// keeps such a mark where clearing the slot would break a probe sequence;
/// each one counts against the capacity until the table is rebuilt (grown,
/// rehashed, cleared or shrunk), so the capacity plus these marks stays
/// fixed while the table keeps its buckets.
pub uninterp spec fn raw_map_removed(m: RawHashMap) -> nat;

/// The result of inserting `pairs` into `m` one after the other, in order.
pub open spec fn insert_all(m: Map<u64, u64>, pairs: Seq<(u64, u64)>) -> Map<u64, u64>
    decreases pairs.len(),
{
    if pairs.len() == 0 {
        m
    } else {
        insert_all(m, pairs.drop_last()).insert(pairs.last().0, pairs.last().1)
    }
}

/// `m` holds finitely many entries, `n` of them.
pub open spec fn map_has_len(m: Map<u64, u64>, n: nat) -> bool {
    m.dom().finite() && m.len() == n
}

/// `v` lists the entries of `m`: each key once, each with its value in `m`.
pub open spec fn lists_entries(v: Seq<(u64, u64)>, m: Map<u64, u64>) -> bool {
    &&& v.len() == m.len()
    &&& forall|i: int| 0 <= i < v.len() ==> #[trigger] m.contains_key(v[i].0) && m[v[i].0] == v[i].1
    &&& forall|i: int, j: int| 0 <= i < j < v.len() ==> #[trigger] v[i].0 != #[trigger] v[j].0
    &&& forall|k: u64| #[trigger] m.contains_key(k) ==> exists|i: int| 0 <= i < v.len() && #[trigger] v[i].0 == k
}

impl RawHashMap {
    /// `hashbrown::HashMap::with_hasher`: an empty table that allocates nothing.
    #[verifier::external_body]
    pub(crate) fn with_hasher(hasher: AxBuildHasher) -> (r: RawHashMap)
        ensures
            (raw_map_contents(r) == Map::<u64, u64>::empty()),
            raw_map_capacity(r) == 0,
            raw_map_removed(r) == 0,
            raw_map_hasher(r) == hasher,
    {
        RawHashMap(hashbrown::HashMap::with_hasher(hasher))
    }

    /// `hashbrown::HashMap::with_capacity_and_hasher`: an empty table with
    /// room for at least `capacity` entries. `hashbrown` panics on a capacity
    /// whose table cannot be laid out, that is, one above `MAX_MAP_CAPACITY`.
    /// An allocation failure (the allocator's, not the table's) is left
    /// unsaid.
    #[verifier::external_body]
    pub(crate) fn with_capacity_and_hasher(capacity: usize, hasher: AxBuildHasher) -> (r: RawHashMap)
        requires
            capacity <= MAX_MAP_CAPACITY,
        ensures
            (raw_map_contents(r) == Map::<u64, u64>::empty()),
            raw_map_capacity(r) >= capacity,
            raw_map_capacity(r) == table_room_for(capacity as nat),
            raw_map_removed(r) == 0,
            raw_map_hasher(r) == hasher,
    {
        RawHashMap(hashbrown::HashMap::with_capacity_and_hasher(capacity, hasher))
    }

    /// `hashbrown::HashMap::len`: the number of entries, which are finitely many.
    #[verifier::external_body]
    pub(crate) fn len(&self) -> (r: usize)
        ensures
            map_has_len(raw_map_contents(*self), r as nat),
            r <= MAX_MAP_CAPACITY,
    {
        self.0.len()
    }

    /// `hashbrown::HashMap::is_empty`: whether there is no entry.
    #[verifier::external_body]
    pub(crate) fn is_empty(&self) -> (r: bool)
        ensures
            r == (raw_map_contents(*self) == Map::<u64, u64>::empty()),
    {
        self.0.is_empty()
    }

    /// `hashbrown::HashMap::capacity`: the entries held plus the free slots,
    /// so never fewer than the entries held.
    #[verifier::external_body]
    pub(crate) fn capacity(&self) -> (r: usize)
        ensures
            r == raw_map_capacity(*self),
            r >= raw_map_contents(*self).len(),
            r <= MAX_MAP_CAPACITY,
    {
        self.0.capacity()
    }

    /// `hashbrown::HashMap::get`: the value stored under `key`, if any.
    #[verifier::external_body]
    pub(crate) fn get(&self, key: &u64) -> (r: Option<&u64>)
        ensures
            r == (if raw_map_contents(*self).contains_key(*key) {
                Some(&raw_map_contents(*self)[*key])
            } else {
                None
            }),
    {
        self.0.get(key)
    }

    /// `hashbrown::HashMap::contains_key`: whether `key` has an entry.
    #[verifier::external_body]
    pub(crate) fn contains_key(&self, key: &u64) -> (r: bool)
        ensures
            r == raw_map_contents(*self).contains_key(*key),
    {
        self.0.contains_key(key)
    }

    /// `hashbrown::HashMap::insert`: stores `value` under `key` and hands back
    /// the value that was there. It first makes sure of one free slot: while
    /// the table has one (fewer entries than its capacity) it does not grow,
    /// and the capacity stays, or rises by one where the new entry reuses the
    /// slot of a removed one; otherwise the table grows, and its capacity
    /// never falls. Growing, which only a table close to the address-space
    /// limit can fail to do, is left unsaid. The hasher stays.
    #[verifier::external_body]
    pub(crate) fn insert(&mut self, key: u64, value: u64) -> (r: Option<u64>)
        ensures
            raw_map_contents(*final(self)) == raw_map_contents(*old(self)).insert(key, value),
            raw_map_capacity(*final(self)) >= raw_map_capacity(*old(self)),
            raw_map_removed(*final(self)) <= raw_map_removed(*old(self)),
            raw_map_contents(*old(self)).len() == raw_map_capacity(*old(self)) ==> raw_map_removed(*final(self)) == 0,
            raw_map_contents(*old(self)).len() == raw_map_capacity(*old(self)) ==> raw_map_capacity(*final(self)) == rebuilt_room(raw_map_contents(*old(self)).len() + 1, raw_map_capacity(*old(self)) + raw_map_removed(*old(self))),
            raw_map_contents(*old(self)).len() < raw_map_capacity(*old(self)) ==> raw_map_capacity(*final(self)) + raw_map_removed(*final(self)) == raw_map_capacity(*old(self)) + raw_map_removed(*old(self)),
            raw_map_contents(*old(self)).len() < raw_map_capacity(*old(self)) ==> raw_map_removed(*final(self)) + 1 >= raw_map_removed(*old(self)),
            raw_map_contents(*old(self)).len() < raw_map_capacity(*old(self)) ==> (raw_map_contents(*old(self)).contains_key(key) ==> raw_map_capacity(*final(self)) == raw_map_capacity(*old(self))),
            raw_map_contents(*old(self)).len() < raw_map_capacity(*old(self)) ==> (raw_map_contents(*old(self)).contains_key(key) ==> raw_map_removed(*final(self)) == raw_map_removed(*old(self))),
            raw_map_hasher(*final(self)) == raw_map_hasher(*old(self)),
            r == (if raw_map_contents(*old(self)).contains_key(key) {
                Some(raw_map_contents(*old(self))[key])
            } else {
                None
            }),
    {
        self.0.insert(key, value)
    }

    /// `hashbrown::HashMap::remove`: drops the entry of `key` and hands back
    /// its value. The table keeps its buckets; where the freed slot has to
    /// stay marked as deleted, the capacity falls by one. A missing key
    /// changes nothing. The hasher stays.
    #[verifier::external_body]
    pub(crate) fn remove(&mut self, key: &u64) -> (r: Option<u64>)
        ensures
            raw_map_contents(*final(self)) == raw_map_contents(*old(self)).remove(*key),
            raw_map_capacity(*final(self)) + raw_map_removed(*final(self)) == raw_map_capacity(*old(self)) + raw_map_removed(*old(self)),
            raw_map_removed(*final(self)) >= raw_map_removed(*old(self)),
            raw_map_removed(*final(self)) <= raw_map_removed(*old(self)) + 1,
            !raw_map_contents(*old(self)).contains_key(*key) ==> raw_map_capacity(*final(self)) == raw_map_capacity(*old(self)),
            !raw_map_contents(*old(self)).contains_key(*key) ==> raw_map_removed(*final(self)) == raw_map_removed(*old(self)),
            raw_map_hasher(*final(self)) == raw_map_hasher(*old(self)),
            r == (if raw_map_contents(*old(self)).contains_key(*key) {
                Some(raw_map_contents(*old(self))[*key])
            } else {
                None
            }),
    {
        self.0.remove(key)
    }

    /// `Extend::extend` of `hashbrown::HashMap`: reserves room for the pairs,
    /// then inserts them one after the other, in order. The bound keeps the
    /// reservation clear of hashbrown's capacity-overflow panic; growing a
    /// table that was already close to the address-space limit is left
    /// unsaid. Neither step lowers the capacity; the hasher stays. Where the
    /// pairs fit in the free slots, nothing is rebuilt: each new entry takes
    /// a free slot or one left by a removal.
    #[verifier::external_body]
    pub(crate) fn extend(&mut self, pairs: Vec<(u64, u64)>)
        requires
            raw_map_contents(*old(self)).len() + pairs@.len() <= MAX_MAP_CAPACITY,
        ensures
            raw_map_contents(*final(self)) == insert_all(raw_map_contents(*old(self)), pairs@),
            raw_map_capacity(*final(self)) >= raw_map_capacity(*old(self)),
            raw_map_removed(*final(self)) <= raw_map_removed(*old(self)),
            raw_map_contents(*old(self)).len() + pairs@.len() <= raw_map_capacity(*old(self)) ==> raw_map_capacity(*final(self)) + raw_map_removed(*final(self)) == raw_map_capacity(*old(self)) + raw_map_removed(*old(self)),
            raw_map_contents(*old(self)).len() + pairs@.len() <= raw_map_capacity(*old(self)) ==> (raw_map_removed(*old(self)) == 0 ==> raw_map_capacity(*final(self)) == raw_map_capacity(*old(self))),
            raw_map_hasher(*final(self)) == raw_map_hasher(*old(self)),
    {
        self.0.extend(pairs)
    }

    /// `hashbrown::HashMap::clear`: drops every entry but keeps the buckets, all
    /// of them free again (a table that is already empty is left as it is).
    #[verifier::external_body]
    pub(crate) fn clear(&mut self)
        ensures
            (raw_map_contents(*final(self)) == Map::<u64, u64>::empty()),
            (raw_map_contents(*old(self)) == Map::<u64, u64>::empty()) ==> raw_map_capacity(*final(self)) == raw_map_capacity(*old(self)),
            (raw_map_contents(*old(self)) == Map::<u64, u64>::empty()) ==> raw_map_removed(*final(self)) == raw_map_removed(*old(self)),
            (raw_map_contents(*old(self)) != Map::<u64, u64>::empty()) ==> raw_map_capacity(*final(self)) == raw_map_capacity(*old(self)) + raw_map_removed(*old(self)),
            (raw_map_contents(*old(self)) != Map::<u64, u64>::empty()) ==> raw_map_removed(*final(self)) == 0,
            raw_map_hasher(*final(self)) == raw_map_hasher(*old(self)),
    {
        self.0.clear()
    }

    /// `hashbrown::HashMap::reserve`: makes room for at least `additional`
    /// more entries, rebuilding the table where its free slots fall short; the
    /// contents stay. hashbrown panics when the room asked for passes what a
    /// table can be laid out for; the bound keeps clear of that, except for a
    /// table already at the largest layout whose marks of removed slots force
    /// a rebuild, which is left unsaid.
    #[verifier::external_body]
    pub(crate) fn reserve(&mut self, additional: usize)
        requires
            raw_map_contents(*old(self)).len() + additional <= MAX_MAP_CAPACITY,
        ensures
            raw_map_contents(*final(self)) == raw_map_contents(*old(self)),
            raw_map_capacity(*final(self)) >= raw_map_contents(*old(self)).len() + additional,
            raw_map_capacity(*final(self)) >= raw_map_capacity(*old(self)),
            raw_map_removed(*final(self)) <= raw_map_removed(*old(self)),
            raw_map_contents(*old(self)).len() + additional <= raw_map_capacity(*old(self)) ==> raw_map_capacity(*final(self)) == raw_map_capacity(*old(self)),
            raw_map_contents(*old(self)).len() + additional <= raw_map_capacity(*old(self)) ==> raw_map_removed(*final(self)) == raw_map_removed(*old(self)),
            raw_map_contents(*old(self)).len() + additional > raw_map_capacity(*old(self)) ==> raw_map_removed(*final(self)) == 0,
            raw_map_contents(*old(self)).len() + additional > raw_map_capacity(*old(self)) ==> raw_map_capacity(*final(self)) == rebuilt_room(raw_map_contents(*old(self)).len() + additional as nat, raw_map_capacity(*old(self)) + raw_map_removed(*old(self))),
            raw_map_hasher(*final(self)) == raw_map_hasher(*old(self)),
    {
        self.0.reserve(additional)
    }

    /// `hashbrown::HashMap::shrink_to_fit` (`RawTable::shrink_to(0)`): where
    /// the table has more usable slots than the table laid out for its
    /// entries, it is rebuilt as that table (an empty one gives up its
    /// buckets); otherwise it stays as it is. The contents stay.
    #[verifier::external_body]
    pub(crate) fn shrink_to_fit(&mut self)
        ensures
            raw_map_contents(*final(self)) == raw_map_contents(*old(self)),
            raw_map_capacity(*final(self)) >= raw_map_contents(*final(self)).len(),
            (raw_map_contents(*old(self)) == Map::<u64, u64>::empty()) ==> raw_map_capacity(*final(self)) == 0,
            (raw_map_contents(*old(self)) == Map::<u64, u64>::empty()) ==> raw_map_removed(*final(self)) == 0,
            raw_map_capacity(*old(self)) + raw_map_removed(*old(self)) > table_room_for(raw_map_contents(*old(self)).len()) ==> raw_map_capacity(*final(self)) == table_room_for(raw_map_contents(*old(self)).len()),
            raw_map_capacity(*old(self)) + raw_map_removed(*old(self)) > table_room_for(raw_map_contents(*old(self)).len()) ==> raw_map_removed(*final(self)) == 0,
            raw_map_capacity(*old(self)) + raw_map_removed(*old(self)) <= table_room_for(raw_map_contents(*old(self)).len()) ==> raw_map_capacity(*final(self)) == raw_map_capacity(*old(self)),
            raw_map_capacity(*old(self)) + raw_map_removed(*old(self)) <= table_room_for(raw_map_contents(*old(self)).len()) ==> raw_map_removed(*final(self)) == raw_map_removed(*old(self)),
            raw_map_hasher(*final(self)) == raw_map_hasher(*old(self)),
    {
        self.0.shrink_to_fit()
    }

    /// `Clone::clone` of `hashbrown::HashMap`: a table with the same entries,
    /// the same buckets and free slots (so the same capacity), and a copy of
    /// the hasher.
    #[verifier::external_body]
    pub(crate) fn clone_table(&self) -> (r: RawHashMap)
        ensures
            raw_map_contents(r) == raw_map_contents(*self),
            raw_map_capacity(r) == raw_map_capacity(*self),
            raw_map_removed(r) == raw_map_removed(*self),
            raw_map_hasher(r) == raw_map_hasher(*self),
    {
        RawHashMap(self.0.clone())
    }

    /// `PartialEq::eq` of `hashbrown::HashMap`: equal lengths, and every entry
    /// of `self` found with an equal value in `other`.
    #[verifier::external_body]
    pub(crate) fn eq_table(&self, other: &RawHashMap) -> (r: bool)
        ensures
            r == (raw_map_contents(*self) == raw_map_contents(*other)),
    {
        self.0 == other.0
    }

    /// `hashbrown::HashMap::iter`, each entry copied out. The order is the
    /// table's and is not stated.
    #[verifier::external_body]
    pub(crate) fn entries(&self) -> (r: Vec<(u64, u64)>)
        ensures
            lists_entries(r@, raw_map_contents(*self)),
    {
        self.0.iter().map(|(k, v)| (*k, *v)).collect()
    }

    /// `IntoIterator::into_iter` of `hashbrown::HashMap`: the entries, moved
    /// out. The order is the table's and is not stated.
    #[verifier::external_body]
    pub(crate) fn into_entries(self) -> (r: Vec<(u64, u64)>)
        ensures
            lists_entries(r@, raw_map_contents(self)),
    {
        self.0.into_iter().collect()
    }
}

// ---------------------------------------------------------------------------
// The set table
// ---------------------------------------------------------------------------

/// A `hashbrown` set of `u64` items that hashes with an [`AxBuildHasher`].
/// The field is public so that callers can hand a table to other code that
/// speaks `hashbrown`, and take one back.
#[verifier::external_body]
#[derive(Debug)]
pub struct RawHashSet(pub hashbrown::HashSet<u64, AxBuildHasher>);

/// The items that a set table holds.
pub uninterp spec fn raw_set_contents(s: RawHashSet) -> Set<u64>;

/// What `capacity` reports of a set table: how many items it can hold without
/// reallocating. hashbrown counts it from the table itself (its items plus its
/// free slots), not from what the allocator handed back.
pub uninterp spec fn raw_set_capacity(s: RawHashSet) -> nat;

/// The hasher that a set table was made with and hashes its items with
/// (hashbrown keeps the `hash_builder` it is given).
pub uninterp spec fn raw_set_hasher(s: RawHashSet) -> AxBuildHasher;

/// How many slots of a set table are marked as left by a removal. hashbrown
/// keeps such a mark where clearing the slot would break a probe sequence;
/// each one counts against the capacity until the table is rebuilt (grown,
/// rehashed, cleared or shrunk), so the capacity plus these marks stays
/// fixed while the table keeps its buckets.
pub uninterp spec fn raw_set_removed(s: RawHashSet) -> nat;

/// `s` holds finitely many items, `n` of them.
pub open spec fn set_has_len(s: Set<u64>, n: nat) -> bool {
    s.finite() && s.len() == n
}

/// `v` lists the items of `s`, each once.
pub open spec fn lists_items(v: Seq<u64>, s: Set<u64>) -> bool {
    &&& v.len() == s.len()
    &&& v.no_duplicates()
    &&& v.to_set() == s
}

impl RawHashSet {
    /// `hashbrown::HashSet::with_hasher`: an empty table that allocates nothing.
    #[verifier::external_body]
    pub(crate) fn with_hasher(hasher: AxBuildHasher) -> (r: RawHashSet)
        ensures
            (raw_set_contents(r) == Set::<u64>::empty()),
            raw_set_capacity(r) == 0,
            raw_set_removed(r) == 0,
            raw_set_hasher(r) == hasher,
    {
        RawHashSet(hashbrown::HashSet::with_hasher(hasher))
    }

    /// `hashbrown::HashSet::with_capacity_and_hasher`: an empty table with
    /// room for at least `capacity` items. `hashbrown` panics on a capacity
    /// whose table cannot be laid out, that is, one above `MAX_SET_CAPACITY`.
    /// An allocation failure (the allocator's, not the table's) is left
    /// unsaid.
    #[verifier::external_body]
    pub(crate) fn with_capacity_and_hasher(capacity: usize, hasher: AxBuildHasher) -> (r: RawHashSet)
        requires
            capacity <= MAX_SET_CAPACITY,
        ensures
            (raw_set_contents(r) == Set::<u64>::empty()),
            raw_set_capacity(r) >= capacity,
            raw_set_capacity(r) == table_room_for(capacity as nat),
            raw_set_removed(r) == 0,
            raw_set_hasher(r) == hasher,
    {
        RawHashSet(hashbrown::HashSet::with_capacity_and_hasher(capacity, hasher))
    }

    /// `hashbrown::HashSet::len`: the number of items, which are finitely many.
    #[verifier::external_body]
    pub(crate) fn len(&self) -> (r: usize)
        ensures
            set_has_len(raw_set_contents(*self), r as nat),
            r <= MAX_SET_CAPACITY,
    {
        self.0.len()
    }

    /// `hashbrown::HashSet::is_empty`: whether there is no item.
    #[verifier::external_body]
    pub(crate) fn is_empty(&self) -> (r: bool)
        ensures
            r == (raw_set_contents(*self) == Set::<u64>::empty()),
    {
        self.0.is_empty()
    }

    /// `hashbrown::HashSet::capacity`: the items held plus the free slots,
    /// so never fewer than the items held.
    #[verifier::external_body]
    pub(crate) fn capacity(&self) -> (r: usize)
        ensures
            r == raw_set_capacity(*self),
            r >= raw_set_contents(*self).len(),
            r <= MAX_SET_CAPACITY,
    {
        self.0.capacity()
    }

    /// `hashbrown::HashSet::contains`: whether `item` is held.
    #[verifier::external_body]
    pub(crate) fn contains(&self, item: &u64) -> (r: bool)
        ensures
            r == raw_set_contents(*self).contains(*item),
    {
        self.0.contains(item)
    }

    /// `hashbrown::HashSet::insert`: adds `item`; true when it was not held.
    /// It first makes sure of one free slot: while the table has one (fewer
    /// items than its capacity) it does not grow, and the capacity stays, or
    /// rises by one where the new item reuses the slot of a removed one;
    /// otherwise the table grows, and its capacity never falls. Growing,
    /// which only a table close to the address-space limit can fail to do, is
    /// left unsaid. The hasher stays.
    #[verifier::external_body]
    pub(crate) fn insert(&mut self, item: u64) -> (r: bool)
        ensures
            raw_set_contents(*final(self)) == raw_set_contents(*old(self)).insert(item),
            raw_set_capacity(*final(self)) >= raw_set_capacity(*old(self)),
            raw_set_removed(*final(self)) <= raw_set_removed(*old(self)),
            raw_set_contents(*old(self)).len() == raw_set_capacity(*old(self)) ==> raw_set_removed(*final(self)) == 0,
            raw_set_contents(*old(self)).len() == raw_set_capacity(*old(self)) ==> raw_set_capacity(*final(self)) == rebuilt_room(raw_set_contents(*old(self)).len() + 1, raw_set_capacity(*old(self)) + raw_set_removed(*old(self))),
            raw_set_contents(*old(self)).len() < raw_set_capacity(*old(self)) ==> raw_set_capacity(*final(self)) + raw_set_removed(*final(self)) == raw_set_capacity(*old(self)) + raw_set_removed(*old(self)),
            raw_set_contents(*old(self)).len() < raw_set_capacity(*old(self)) ==> raw_set_removed(*final(self)) + 1 >= raw_set_removed(*old(self)),
            raw_set_contents(*old(self)).len() < raw_set_capacity(*old(self)) ==> (raw_set_contents(*old(self)).contains(item) ==> raw_set_capacity(*final(self)) == raw_set_capacity(*old(self))),
            raw_set_contents(*old(self)).len() < raw_set_capacity(*old(self)) ==> (raw_set_contents(*old(self)).contains(item) ==> raw_set_removed(*final(self)) == raw_set_removed(*old(self))),
            raw_set_hasher(*final(self)) == raw_set_hasher(*old(self)),
            r == !raw_set_contents(*old(self)).contains(item),
    {
        self.0.insert(item)
    }

    /// `hashbrown::HashSet::remove`: drops `item`; true when it was held. The
    /// table keeps its buckets; where the freed slot has to stay marked as
    /// deleted, the capacity falls by one. A missing item changes nothing.
    /// The hasher stays.
    #[verifier::external_body]
    pub(crate) fn remove(&mut self, item: &u64) -> (r: bool)
        ensures
            raw_set_contents(*final(self)) == raw_set_contents(*old(self)).remove(*item),
            raw_set_capacity(*final(self)) + raw_set_removed(*final(self)) == raw_set_capacity(*old(self)) + raw_set_removed(*old(self)),
            raw_set_removed(*final(self)) >= raw_set_removed(*old(self)),
            raw_set_removed(*final(self)) <= raw_set_removed(*old(self)) + 1,
            !raw_set_contents(*old(self)).contains(*item) ==> raw_set_capacity(*final(self)) == raw_set_capacity(*old(self)),
            !raw_set_contents(*old(self)).contains(*item) ==> raw_set_removed(*final(self)) == raw_set_removed(*old(self)),
            raw_set_hasher(*final(self)) == raw_set_hasher(*old(self)),
            r == raw_set_contents(*old(self)).contains(*item),
    {
        self.0.remove(item)
    }

    /// `Extend::extend` of `hashbrown::HashSet`: reserves room, then inserts
    /// the items one after the other. The bound keeps the reservation clear
    /// of hashbrown's capacity-overflow panic; growing a table that was
    /// already close to the address-space limit is left unsaid. Neither step
    /// lowers the capacity; the hasher stays. Where the items fit in the free
    /// slots, nothing is rebuilt: each new item takes a free slot or one left
    /// by a removal.
    #[verifier::external_body]
    pub(crate) fn extend(&mut self, items: Vec<u64>)
        requires
            raw_set_contents(*old(self)).len() + items@.len() <= MAX_SET_CAPACITY,
        ensures
            raw_set_contents(*final(self)) == raw_set_contents(*old(self)).union(items@.to_set()),
            raw_set_capacity(*final(self)) >= raw_set_capacity(*old(self)),
            raw_set_removed(*final(self)) <= raw_set_removed(*old(self)),
            raw_set_contents(*old(self)).len() + items@.len() <= raw_set_capacity(*old(self)) ==> raw_set_capacity(*final(self)) + raw_set_removed(*final(self)) == raw_set_capacity(*old(self)) + raw_set_removed(*old(self)),
            raw_set_contents(*old(self)).len() + items@.len() <= raw_set_capacity(*old(self)) ==> (raw_set_removed(*old(self)) == 0 ==> raw_set_capacity(*final(self)) == raw_set_capacity(*old(self))),
            raw_set_hasher(*final(self)) == raw_set_hasher(*old(self)),
    {
        self.0.extend(items)
    }

    /// `hashbrown::HashSet::clear`: drops every item but keeps the buckets, all
    /// of them free again (a table that is already empty is left as it is).
    #[verifier::external_body]
    pub(crate) fn clear(&mut self)
        ensures
            (raw_set_contents(*final(self)) == Set::<u64>::empty()),
            (raw_set_contents(*old(self)) == Set::<u64>::empty()) ==> raw_set_capacity(*final(self)) == raw_set_capacity(*old(self)),
            (raw_set_contents(*old(self)) == Set::<u64>::empty()) ==> raw_set_removed(*final(self)) == raw_set_removed(*old(self)),
            (raw_set_contents(*old(self)) != Set::<u64>::empty()) ==> raw_set_capacity(*final(self)) == raw_set_capacity(*old(self)) + raw_set_removed(*old(self)),
            (raw_set_contents(*old(self)) != Set::<u64>::empty()) ==> raw_set_removed(*final(self)) == 0,
            raw_set_hasher(*final(self)) == raw_set_hasher(*old(self)),
    {
        self.0.clear()
    }

    /// `hashbrown::HashSet::reserve`: makes room for at least `additional`
    /// more items, rebuilding the table where its free slots fall short; the
    /// contents stay. hashbrown panics when the room asked for passes what a
    /// table can be laid out for; the bound keeps clear of that, except for a
    /// table already at the largest layout whose marks of removed slots force
    /// a rebuild, which is left unsaid.
    #[verifier::external_body]
    pub(crate) fn reserve(&mut self, additional: usize)
        requires
            raw_set_contents(*old(self)).len() + additional <= MAX_SET_CAPACITY,
        ensures
            raw_set_contents(*final(self)) == raw_set_contents(*old(self)),
            raw_set_capacity(*final(self)) >= raw_set_contents(*old(self)).len() + additional,
            raw_set_capacity(*final(self)) >= raw_set_capacity(*old(self)),
            raw_set_removed(*final(self)) <= raw_set_removed(*old(self)),
            raw_set_contents(*old(self)).len() + additional <= raw_set_capacity(*old(self)) ==> raw_set_capacity(*final(self)) == raw_set_capacity(*old(self)),
            raw_set_contents(*old(self)).len() + additional <= raw_set_capacity(*old(self)) ==> raw_set_removed(*final(self)) == raw_set_removed(*old(self)),
            raw_set_contents(*old(self)).len() + additional > raw_set_capacity(*old(self)) ==> raw_set_removed(*final(self)) == 0,
            raw_set_contents(*old(self)).len() + additional > raw_set_capacity(*old(self)) ==> raw_set_capacity(*final(self)) == rebuilt_room(raw_set_contents(*old(self)).len() + additional as nat, raw_set_capacity(*old(self)) + raw_set_removed(*old(self))),
            raw_set_hasher(*final(self)) == raw_set_hasher(*old(self)),
    {
        self.0.reserve(additional)
    }

    /// `hashbrown::HashSet::shrink_to_fit` (`RawTable::shrink_to(0)`): where
    /// the table has more usable slots than the table laid out for its
    /// items, it is rebuilt as that table (an empty one gives up its
    /// buckets); otherwise it stays as it is. The contents stay.
    #[verifier::external_body]
    pub(crate) fn shrink_to_fit(&mut self)
        ensures
            raw_set_contents(*final(self)) == raw_set_contents(*old(self)),
            raw_set_capacity(*final(self)) >= raw_set_contents(*final(self)).len(),
            (raw_set_contents(*old(self)) == Set::<u64>::empty()) ==> raw_set_capacity(*final(self)) == 0,
            (raw_set_contents(*old(self)) == Set::<u64>::empty()) ==> raw_set_removed(*final(self)) == 0,
            raw_set_capacity(*old(self)) + raw_set_removed(*old(self)) > table_room_for(raw_set_contents(*old(self)).len()) ==> raw_set_capacity(*final(self)) == table_room_for(raw_set_contents(*old(self)).len()),
            raw_set_capacity(*old(self)) + raw_set_removed(*old(self)) > table_room_for(raw_set_contents(*old(self)).len()) ==> raw_set_removed(*final(self)) == 0,
            raw_set_capacity(*old(self)) + raw_set_removed(*old(self)) <= table_room_for(raw_set_contents(*old(self)).len()) ==> raw_set_capacity(*final(self)) == raw_set_capacity(*old(self)),
            raw_set_capacity(*old(self)) + raw_set_removed(*old(self)) <= table_room_for(raw_set_contents(*old(self)).len()) ==> raw_set_removed(*final(self)) == raw_set_removed(*old(self)),
            raw_set_hasher(*final(self)) == raw_set_hasher(*old(self)),
    {
        self.0.shrink_to_fit()
    }

    /// `Clone::clone` of `hashbrown::HashSet`: a table with the same items,
    /// the same buckets and free slots (so the same capacity), and a copy of
    /// the hasher.
    #[verifier::external_body]
    pub(crate) fn clone_table(&self) -> (r: RawHashSet)
        ensures
            raw_set_contents(r) == raw_set_contents(*self),
            raw_set_capacity(r) == raw_set_capacity(*self),
            raw_set_removed(r) == raw_set_removed(*self),
            raw_set_hasher(r) == raw_set_hasher(*self),
    {
        RawHashSet(self.0.clone())
    }

    /// `PartialEq::eq` of `hashbrown::HashSet`: equal lengths, and every item
    /// of `self` held by `other`.
    #[verifier::external_body]
    pub(crate) fn eq_table(&self, other: &RawHashSet) -> (r: bool)
        ensures
            r == (raw_set_contents(*self) == raw_set_contents(*other)),
    {
        self.0 == other.0
    }

    /// `hashbrown::HashSet::union`, its items copied and collected into a new
    /// table (hashbrown's `FromIterator`, with the default hasher): a fresh
    /// table filled by inserts only. hashbrown panics exactly when the union
    /// holds more items than a table can be laid out for.
    #[verifier::external_body]
    pub(crate) fn union_table(&self, other: &RawHashSet) -> (r: RawHashSet)
        requires
            raw_set_contents(*self).union(raw_set_contents(*other)).len() <= MAX_SET_CAPACITY,
        ensures
            raw_set_contents(r) == raw_set_contents(*self).union(raw_set_contents(*other)),
            raw_set_removed(r) == 0,
    {
        RawHashSet(self.0.union(&other.0).copied().collect())
    }

    /// `hashbrown::HashSet::intersection`, its items copied and collected into
    /// a new table (hashbrown's `FromIterator`, with the default hasher).
    #[verifier::external_body]
    pub(crate) fn intersection_table(&self, other: &RawHashSet) -> (r: RawHashSet)
        ensures
            raw_set_contents(r) == raw_set_contents(*self).intersect(raw_set_contents(*other)),
            raw_set_removed(r) == 0,
    {
        RawHashSet(self.0.intersection(&other.0).copied().collect())
    }

    /// `hashbrown::HashSet::iter`, each item copied out. The order is the
    /// table's and is not stated.
    #[verifier::external_body]
    pub(crate) fn items(&self) -> (r: Vec<u64>)
        ensures
            lists_items(r@, raw_set_contents(*self)),
    {
        self.0.iter().copied().collect()
    }

    /// `IntoIterator::into_iter` of `hashbrown::HashSet`: the items, moved
    /// out. The order is the table's and is not stated.
    #[verifier::external_body]
    pub(crate) fn into_items(self) -> (r: Vec<u64>)
        ensures
            lists_items(r@, raw_set_contents(self)),
    {
        self.0.into_iter().collect()
    }
}

} // verus!
