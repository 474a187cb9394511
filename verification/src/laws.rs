//! The laws that the operations of [`AxHashMap`](crate::AxHashMap) and
//! [`AxHashSet`](crate::AxHashSet) obey together, stated over the models
//! that their contracts use.

use crate::map::{lookup, AxHashMap};
use crate::raw::{insert_all, lists_entries, lists_items};
use crate::set::AxHashSet;
use vstd::std_specs::cmp::PartialEqSpec;
use vstd::prelude::*;

verus! {

// ---------------------------------------------------------------------------
// Maps
// ---------------------------------------------------------------------------

/// What `insert` and `remove` report for a key: the value stored under it,
/// whatever that value and whatever the key, and nothing exactly when the
/// key has no entry; the same for maps of every size.
pub proof fn lemma_reported_value(m: Map<u64, u64>, key: u64)
    ensures
        m.contains_key(key) ==> lookup(m, key) == Some(m[key]),
        !m.contains_key(key) ==> lookup(m, key) == None::<u64>,
        lookup(m, key) is Some <==> m.contains_key(key),
{
}

/// Inserting under a key and then again under the same key reports, the
/// second time, the value the first insert stored; removing it then reports
/// the second value.
pub proof fn lemma_insert_reports_previous_insert(m: Map<u64, u64>, key: u64, v1: u64, v2: u64)
    ensures
        lookup(m.insert(key, v1), key) == Some(v1),
        lookup(m.insert(key, v1).insert(key, v2), key) == Some(v2),
        lookup(m.insert(key, v1).insert(key, v2).remove(key), key) == None::<u64>,
{
}

/// `==` on maps is equality of their entries: the same keys, each with the
/// same value. So it is reflexive and symmetric, and maps that differ in a
/// single key or value are unequal.
pub proof fn lemma_map_eq_is_same_entries(a: AxHashMap, b: AxHashMap)
    ensures
        <AxHashMap as PartialEqSpec>::obeys_eq_spec(),
        a.eq_spec(&b) <==> a@ == b@,
        a.eq_spec(&b) <==> (forall|k: u64| #[trigger] a@.contains_key(k) == b@.contains_key(k))
            && (forall|k: u64| #[trigger] a@.contains_key(k) ==> a@[k] == b@[k]),
        a.eq_spec(&b) == b.eq_spec(&a),
        a.eq_spec(&a),
{
    if (forall|k: u64| #[trigger] a@.contains_key(k) == b@.contains_key(k))
        && (forall|k: u64| #[trigger] a@.contains_key(k) ==> a@[k] == b@[k]) {
        assert(a@ =~= b@);
    }
}

/// `==` on sets is equality of their items. So it is reflexive and
/// symmetric, and sets that differ in a single item are unequal.
pub proof fn lemma_set_eq_is_same_items(a: AxHashSet, b: AxHashSet)
    ensures
        <AxHashSet as PartialEqSpec>::obeys_eq_spec(),
        a.eq_spec(&b) <==> a@ == b@,
        a.eq_spec(&b) <==> (forall|x: u64| #[trigger] a@.contains(x) == b@.contains(x)),
        a.eq_spec(&b) == b.eq_spec(&a),
        a.eq_spec(&a),
{
    if forall|x: u64| #[trigger] a@.contains(x) == b@.contains(x) {
        assert(a@ =~= b@);
    }
}

/// Looking a key up right after inserting it gives the inserted value, and
/// every other key keeps what it had (its entry and value, or having none).
pub proof fn lemma_get_after_insert(m: Map<u64, u64>, key: u64, value: u64, other: u64)
    ensures
        m.insert(key, value).contains_key(key),
        m.insert(key, value)[key] == value,
        other != key ==> (m.insert(key, value).contains_key(other) == m.contains_key(other)),
        other != key && m.contains_key(other) ==> m.insert(key, value)[other] == m[other],
{
}

/// Inserting under a key that has no entry, then removing that key, gives
/// back the entries there were.
pub proof fn lemma_remove_undoes_fresh_insert(m: Map<u64, u64>, key: u64, value: u64)
    requires
        !m.contains_key(key),
    ensures
        m.insert(key, value).remove(key) == m,
{
    assert(m.insert(key, value).remove(key) =~= m);
}

/// Inserting adds one entry when the key is new and none when it replaces a
/// value; removing takes one away exactly when the key had an entry.
pub proof fn lemma_insert_remove_len(m: Map<u64, u64>, key: u64, value: u64)
    requires
        m.dom().finite(),
    ensures
        m.insert(key, value).dom().finite(),
        m.insert(key, value).len() == if m.contains_key(key) { m.len() } else { m.len() + 1 },
        m.remove(key).dom().finite(),
        m.remove(key).len() == if m.contains_key(key) { (m.len() - 1) as nat } else { m.len() },
{
}

/// A map is empty exactly when it has no entry to count.
pub proof fn lemma_map_empty_iff_len_zero(m: Map<u64, u64>)
    requires
        m.dom().finite(),
    ensures
        (m == Map::<u64, u64>::empty()) <==> m.len() == 0,
{
    if m.len() == 0 {
        m.dom().lemma_len0_is_empty();
        assert(m =~= Map::<u64, u64>::empty());
    }
}

/// Extending with `a` and then with `b` is extending once with `a`
/// followed by `b`.
pub proof fn lemma_extend_twice(m: Map<u64, u64>, a: Seq<(u64, u64)>, b: Seq<(u64, u64)>)
    ensures
        insert_all(insert_all(m, a), b) == insert_all(m, a + b),
    decreases b.len(),
{
    if b.len() == 0 {
        assert(a + b =~= a);
    } else {
        lemma_extend_twice(m, a, b.drop_last());
        assert((a + b).drop_last() =~= a + b.drop_last());
        assert((a + b).last() == b.last());
    }
}

/// After extending with `pairs`, a key holds the value of the last pair that
/// names it; a key that no pair names keeps what it had.
pub proof fn lemma_extend_last_pair_wins(m: Map<u64, u64>, pairs: Seq<(u64, u64)>, key: u64)
    ensures
        (forall|i: int| 0 <= i < pairs.len() ==> #[trigger] pairs[i].0 != key) ==> {
            &&& insert_all(m, pairs).contains_key(key) == m.contains_key(key)
            &&& m.contains_key(key) ==> insert_all(m, pairs)[key] == m[key]
        },
        forall|i: int|
            0 <= i < pairs.len() && #[trigger] pairs[i].0 == key
                && (forall|j: int| i < j < pairs.len() ==> #[trigger] pairs[j].0 != key)
                ==> insert_all(m, pairs).contains_key(key) && insert_all(m, pairs)[key] == pairs[i].1,
    decreases pairs.len(),
{
    if pairs.len() > 0 {
        let rest = pairs.drop_last();
        lemma_extend_last_pair_wins(m, rest, key);
        let n = pairs.len() - 1;
        assert forall|i: int|
            0 <= i < pairs.len() && #[trigger] pairs[i].0 == key
                && (forall|j: int| i < j < pairs.len() ==> #[trigger] pairs[j].0 != key)
            implies insert_all(m, pairs).contains_key(key) && insert_all(m, pairs)[key] == pairs[i].1 by {
            if i < n {
                assert(pairs[n].0 != key);
                assert(rest[i] == pairs[i]);
                assert forall|j: int| i < j < rest.len() implies #[trigger] rest[j].0 != key by {
                    assert(rest[j] == pairs[j]);
                }
            }
        }
        if forall|i: int| 0 <= i < pairs.len() ==> #[trigger] pairs[i].0 != key {
            assert(pairs[n].0 != key);
            assert forall|i: int| 0 <= i < rest.len() implies #[trigger] rest[i].0 != key by {
                assert(rest[i] == pairs[i]);
            }
        }
    }
}

/// Extending with `pairs` leaves the keys that were there and adds the keys
/// that the pairs name, and nothing else; so it adds at most one entry per
/// pair.
pub proof fn lemma_extend_keys(m: Map<u64, u64>, pairs: Seq<(u64, u64)>)
    requires
        m.dom().finite(),
    ensures
        insert_all(m, pairs).dom() == m.dom().union(pairs.map_values(|p: (u64, u64)| p.0).to_set()),
        insert_all(m, pairs).dom().finite(),
        insert_all(m, pairs).len() <= m.len() + pairs.len(),
    decreases pairs.len(),
{
    let keys = pairs.map_values(|p: (u64, u64)| p.0).to_set();
    if pairs.len() == 0 {
        assert(keys =~= Set::<u64>::empty());
        assert(m.dom().union(keys) =~= m.dom());
    } else {
        let rest = pairs.drop_last();
        lemma_extend_keys(m, rest);
        let rest_keys = rest.map_values(|p: (u64, u64)| p.0).to_set();
        assert(pairs.map_values(|p: (u64, u64)| p.0) =~= rest.map_values(
            |p: (u64, u64)| p.0,
        ).push(pairs.last().0));
        assert(keys =~= rest_keys.insert(pairs.last().0)) by {
            rest.map_values(|p: (u64, u64)| p.0).lemma_push_to_set_commute(pairs.last().0);
        }
        assert(insert_all(m, pairs).dom() =~= m.dom().union(keys));
    }
}

/// Inserting pairs that agree with `m` into a map that agrees with `m` gives
/// a map that still agrees with `m` and holds every key the pairs name.
pub proof fn lemma_extend_within(base: Map<u64, u64>, pairs: Seq<(u64, u64)>, m: Map<u64, u64>)
    requires
        forall|k: u64| #[trigger] base.contains_key(k) ==> m.contains_key(k) && base[k] == m[k],
        forall|i: int|
            0 <= i < pairs.len() ==> m.contains_key(#[trigger] pairs[i].0) && m[pairs[i].0] == pairs[i].1,
    ensures
        forall|k: u64| #[trigger]
            insert_all(base, pairs).contains_key(k) ==> m.contains_key(k) && insert_all(base, pairs)[k] == m[k],
        forall|i: int| 0 <= i < pairs.len() ==> insert_all(base, pairs).contains_key(#[trigger] pairs[i].0),
    decreases pairs.len(),
{
    if pairs.len() > 0 {
        let rest = pairs.drop_last();
        assert forall|i: int| 0 <= i < rest.len() implies m.contains_key(#[trigger] rest[i].0)
            && m[rest[i].0] == rest[i].1 by {
            assert(rest[i] == pairs[i]);
        }
        lemma_extend_within(base, rest, m);
        let n = pairs.len() - 1;
        assert(m.contains_key(pairs[n].0) && m[pairs[n].0] == pairs[n].1);
        assert forall|k: u64| #[trigger] insert_all(base, pairs).contains_key(k) implies m.contains_key(k)
            && insert_all(base, pairs)[k] == m[k] by {
            if k != pairs[n].0 {
                assert(insert_all(base, rest).contains_key(k));
            }
        }
        assert forall|i: int| 0 <= i < pairs.len() implies insert_all(base, pairs).contains_key(
            #[trigger] pairs[i].0,
        ) by {
            if i < n {
                assert(rest[i] == pairs[i]);
            }
        }
    }
}

/// Building a map from the entries that `iter` or `into_iter` lists gives
/// back the same map.
pub proof fn lemma_from_listed_entries(m: Map<u64, u64>, entries: Seq<(u64, u64)>)
    requires
        lists_entries(entries, m),
    ensures
        insert_all(Map::empty(), entries) == m,
{
    lemma_extend_within(Map::empty(), entries, m);
    let r = insert_all(Map::empty(), entries);
    assert forall|k: u64| #[trigger] m.contains_key(k) implies r.contains_key(k) by {
        let i = choose|i: int| 0 <= i < entries.len() && #[trigger] entries[i].0 == k;
        assert(r.contains_key(entries[i].0));
    }
    assert(r =~= m);
}

/// Extending a map with its own entries leaves it as it was.
pub proof fn lemma_extend_by_own_entries(m: Map<u64, u64>, entries: Seq<(u64, u64)>)
    requires
        lists_entries(entries, m),
    ensures
        insert_all(m, entries) == m,
{
    lemma_extend_within(m, entries, m);
    let r = insert_all(m, entries);
    lemma_extend_keys_kept(m, entries);
    assert(r =~= m);
}

/// Extending never drops a key.
pub proof fn lemma_extend_keys_kept(m: Map<u64, u64>, pairs: Seq<(u64, u64)>)
    ensures
        forall|k: u64| #[trigger] m.contains_key(k) ==> insert_all(m, pairs).contains_key(k),
    decreases pairs.len(),
{
    if pairs.len() > 0 {
        lemma_extend_keys_kept(m, pairs.drop_last());
    }
}

// ---------------------------------------------------------------------------
// Sets
// ---------------------------------------------------------------------------

/// Inserting an item that the set already holds leaves the set as it was.
pub proof fn lemma_insert_duplicate_ignored(s: Set<u64>, item: u64)
    requires
        s.contains(item),
    ensures
        s.insert(item) == s,
{
    assert(s.insert(item) =~= s);
}

/// Inserting an item adds one to the count exactly when the item is new;
/// removing takes one away exactly when it was there.
pub proof fn lemma_set_insert_remove_len(s: Set<u64>, item: u64)
    requires
        s.finite(),
    ensures
        s.insert(item).finite(),
        s.insert(item).len() == if s.contains(item) { s.len() } else { s.len() + 1 },
        s.remove(item).finite(),
        s.remove(item).len() == if s.contains(item) { (s.len() - 1) as nat } else { s.len() },
{
}

/// A set is empty exactly when it has no item to count.
pub proof fn lemma_set_empty_iff_len_zero(s: Set<u64>)
    requires
        s.finite(),
    ensures
        (s == Set::<u64>::empty()) <==> s.len() == 0,
{
    if s.len() == 0 {
        s.lemma_len0_is_empty();
    }
}

/// A set built from a list of items holds each distinct item once: no more
/// items than the list has, and exactly as many when no item repeats.
pub proof fn lemma_from_items_len(items: Seq<u64>)
    ensures
        items.to_set().finite(),
        items.to_set().len() <= items.len(),
        items.to_set().len() == items.len() <==> items.no_duplicates(),
{
    vstd::seq_lib::seq_to_set_is_finite(items);
    items.lemma_cardinality_of_set();
    if items.no_duplicates() {
        items.unique_seq_to_set();
    }
    if items.to_set().len() == items.len() {
        items.lemma_no_dup_set_cardinality();
    }
}

/// The union and the intersection of two sets together count each item of
/// the two sets once: `|a ∪ b| + |a ∩ b| == |a| + |b|`.
pub proof fn lemma_union_intersection_len(a: Set<u64>, b: Set<u64>)
    requires
        a.finite(),
        b.finite(),
    ensures
        a.union(b).finite(),
        a.intersect(b).finite(),
        a.union(b).len() + a.intersect(b).len() == a.len() + b.len(),
{
    vstd::set_lib::lemma_set_intersect_union_lens(a, b);
    vstd::set_lib::lemma_len_intersect(a, b);
}

/// Building a set from the items that `iter` or `into_iter` lists gives back
/// the same set, and adding them to it leaves it as it was.
pub proof fn lemma_from_listed_items(s: Set<u64>, items: Seq<u64>)
    requires
        lists_items(items, s),
    ensures
        items.to_set() == s,
        s.union(items.to_set()) == s,
{
    assert(s.union(items.to_set()) =~= s);
}

} // verus!
