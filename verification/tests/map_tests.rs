use axhash_map::{AxBuildHasher, AxHashMap, RawHashMap};

#[test]
fn map_basic_operations() {
    let mut map = AxHashMap::new();
    assert!(map.is_empty());

    map.insert(1, 1);
    map.insert(2, 2);
    map.insert(3, 3);

    assert_eq!(map.len(), 3);
    assert_eq!(*map.index(&1), 1);
    assert_eq!(map.get(&2), Some(&2));
    assert_eq!(map.get(&99), None);

    map.remove(&2);
    assert_eq!(map.len(), 2);
}

#[test]
fn map_with_capacity() {
    let map = AxHashMap::with_capacity(128);
    assert!(map.capacity() >= 128);
}

#[test]
fn map_default() {
    let map = AxHashMap::default();
    assert!(map.is_empty());
}

#[test]
fn map_from_iterator() {
    let pairs = vec![(1u64, 1u64), (2, 2), (3, 3)];
    let map = AxHashMap::from_iter(pairs);
    assert_eq!(map.len(), 3);
    assert_eq!(*map.index(&2), 2);
}

#[test]
fn map_extend() {
    let mut map = AxHashMap::new();
    map.extend(vec![(1, 10), (2, 20)]);
    map.extend(vec![(3, 30)]);
    assert_eq!(map.len(), 3);
    assert_eq!(*map.index(&2), 20);
}

#[test]
fn map_iter() {
    let map = AxHashMap::from_iter(vec![(1, 10), (2, 20)]);
    let mut sum = 0u64;
    for (_, v) in map.iter() {
        sum += v;
    }
    assert_eq!(sum, 30);
}

#[test]
fn map_into_inner_roundtrip() {
    let mut map = AxHashMap::new();
    map.insert(7, 99);
    let raw: RawHashMap = map.into_inner();
    assert_eq!(raw.0[&7], 99);
    let wrapped: AxHashMap = raw.into();
    assert_eq!(*wrapped.index(&7), 99);
}

#[test]
fn map_seeded_hasher() {
    let hasher = AxBuildHasher::with_seed(0x1234_5678_9abc_def0);
    let mut map = AxHashMap::with_hasher(hasher);
    map.insert(5, 7);
    assert_eq!(*map.index(&5), 7);
}

// ── further cases ───────────────────────────────────────────────────────────

#[test]
fn map_insert_returns_previous_value() {
    let mut map = AxHashMap::new();
    assert_eq!(map.insert(4, 40), None);
    assert_eq!(map.insert(4, 41), Some(40));
    assert_eq!(map.len(), 1);
    assert_eq!(map.get(&4), Some(&41));
}

#[test]
fn map_get_after_insert_keeps_other_keys() {
    let mut map = AxHashMap::from_iter(vec![(1, 100), (2, 200)]);
    map.insert(3, 300);
    assert_eq!(map.get(&3), Some(&300));
    assert_eq!(map.get(&1), Some(&100));
    assert_eq!(map.get(&2), Some(&200));
}

#[test]
fn map_remove_returns_value_and_missing_is_none() {
    let mut map = AxHashMap::from_iter(vec![(1, 100), (2, 200)]);
    assert_eq!(map.remove(&1), Some(100));
    assert_eq!(map.remove(&1), None);
    assert_eq!(map.remove(&42), None);
    assert!(!map.contains_key(&1));
    assert!(map.contains_key(&2));
    assert_eq!(map.len(), 1);
}

#[test]
fn map_remove_undoes_fresh_insert() {
    let mut map = AxHashMap::from_iter(vec![(1, 100), (2, 200)]);
    let before = map.clone();
    map.insert(9, 900);
    assert!(map != before);
    map.remove(&9);
    assert!(map == before);
}

#[test]
fn map_extend_last_pair_wins() {
    let mut map = AxHashMap::from_iter(vec![(1, 1), (2, 2)]);
    map.extend(vec![(2, 20), (3, 30), (2, 21), (3, 31), (3, 32)]);
    assert_eq!(map.len(), 3);
    assert_eq!(map.get(&1), Some(&1));
    assert_eq!(map.get(&2), Some(&21));
    assert_eq!(map.get(&3), Some(&32));
}

#[test]
fn map_extend_twice_equals_extend_once() {
    let mut twice = AxHashMap::new();
    twice.extend(vec![(1, 10), (2, 20)]);
    twice.extend(vec![(2, 22), (3, 30)]);
    let mut once = AxHashMap::new();
    once.extend(vec![(1, 10), (2, 20), (2, 22), (3, 30)]);
    assert!(twice == once);
    assert_eq!(twice.get(&2), Some(&22));
}

#[test]
fn map_from_iterator_with_repeated_keys() {
    let map = AxHashMap::from_iter(vec![(5, 1), (6, 2), (5, 3)]);
    assert_eq!(map.len(), 2);
    assert_eq!(map.get(&5), Some(&3));
    assert!(map.capacity() >= 3);
}

#[test]
fn map_from_empty_iterator() {
    let map = AxHashMap::from_iter(Vec::new());
    assert!(map.is_empty());
    assert_eq!(map.len(), 0);
}

#[test]
fn map_iter_lists_each_entry_once() {
    let map = AxHashMap::from_iter(vec![(3, 30), (1, 10), (2, 20), (1, 11)]);
    let mut entries = map.iter();
    entries.sort();
    assert_eq!(entries, vec![(1, 11), (2, 20), (3, 30)]);
    let mut moved = map.into_iter();
    moved.sort();
    assert_eq!(moved, vec![(1, 11), (2, 20), (3, 30)]);
}

#[test]
fn map_clone_and_eq() {
    let map = AxHashMap::from_iter(vec![(1, 10), (2, 20)]);
    let copy = map.clone();
    assert!(copy == map);
    let other = AxHashMap::from_iter(vec![(1, 10), (2, 21)]);
    assert!(other != map);
    let shorter = AxHashMap::from_iter(vec![(1, 10)]);
    assert!(shorter != map);
}

#[test]
fn map_eq_ignores_hasher_and_order() {
    let mut a = AxHashMap::with_hasher(AxBuildHasher::with_seed(1));
    a.insert(1, 10);
    a.insert(2, 20);
    let mut b = AxHashMap::with_hasher(AxBuildHasher::with_seed(2));
    b.insert(2, 20);
    b.insert(1, 10);
    assert!(a == b);
}

#[test]
fn map_default_equals_new() {
    assert!(AxHashMap::default() == AxHashMap::new());
}

#[test]
fn map_with_capacity_and_hasher() {
    let mut map = AxHashMap::with_capacity_and_hasher(1000, AxBuildHasher::with_seed(3));
    assert!(map.is_empty());
    assert!(map.capacity() >= 1000);
    map.insert(1, 2);
    assert!(map.capacity() >= 1000);
    assert_eq!(map.get(&1), Some(&2));
}

#[test]
fn map_capacity_covers_len() {
    let mut map = AxHashMap::new();
    for i in 0..100u64 {
        map.insert(i, i * 2);
    }
    assert_eq!(map.len(), 100);
    assert!(map.capacity() >= 100);
    assert_eq!(map.get(&57), Some(&114));
}

#[test]
fn map_from_raw_and_back() {
    let mut inner = hashbrown::HashMap::with_hasher(AxBuildHasher::new());
    inner.insert(11u64, 110u64);
    let map = AxHashMap::from(RawHashMap(inner));
    assert_eq!(map.get(&11), Some(&110));
    let raw = RawHashMap::from(map);
    assert_eq!(raw.0.get(&11), Some(&110));
    assert_eq!(raw.0.len(), 1);
}

#[test]
fn map_capacity_of_fresh_maps_is_zero() {
    assert_eq!(AxHashMap::new().capacity(), 0);
    assert_eq!(AxHashMap::default().capacity(), 0);
    assert_eq!(AxHashMap::with_hasher(AxBuildHasher::with_seed(5)).capacity(), 0);
}

#[test]
fn map_capacity_carried_by_clone_and_into_inner() {
    let mut map = AxHashMap::with_capacity(40);
    map.insert(1, 1);
    let cap = map.capacity();
    assert_eq!(map.clone().capacity(), cap);
    let raw = map.into_inner();
    assert_eq!(raw.0.capacity(), cap);
    let back = AxHashMap::from(raw);
    assert_eq!(back.capacity(), cap);
}

#[test]
fn map_capacity_while_filling_and_removing() {
    let mut map = AxHashMap::with_capacity(50);
    let cap = map.capacity();
    assert!(cap >= 50);
    for i in 0..50u64 {
        map.insert(i, i);
        assert_eq!(map.capacity(), cap);
    }
    assert_eq!(map.remove(&1000), None);
    assert_eq!(map.capacity(), cap);
    let before = map.capacity();
    map.remove(&3);
    assert!(map.capacity() <= before && map.capacity() + 1 >= before);
}

#[test]
fn map_extend_from_slice() {
    let mut map = AxHashMap::from_iter(vec![(1, 1)]);
    let pairs = [(2u64, 20u64), (1, 10), (2, 21)];
    map.extend_from_slice(&pairs);
    assert_eq!(map.len(), 2);
    assert_eq!(map.get(&1), Some(&10));
    assert_eq!(map.get(&2), Some(&21));
}

#[test]
fn map_clear_keeps_room() {
    let mut map = AxHashMap::with_capacity(20);
    for i in 0..10u64 {
        map.insert(i, i);
    }
    let cap = map.capacity();
    map.clear();
    assert!(map.is_empty());
    assert!(map.capacity() >= cap);
    assert_eq!(map.get(&3), None);
}

#[test]
fn map_reserve_and_shrink() {
    let mut map = AxHashMap::from_iter(vec![(1, 10), (2, 20)]);
    map.reserve(100);
    assert!(map.capacity() >= 102);
    assert_eq!(map.get(&2), Some(&20));
    map.shrink_to_fit();
    assert!(map.capacity() >= 2);
    assert!(map.capacity() < 102);
    assert_eq!(map.len(), 2);
    assert_eq!(map.get(&1), Some(&10));
    let mut empty = AxHashMap::with_capacity(50);
    empty.shrink_to_fit();
    assert_eq!(empty.capacity(), 0);
}

#[test]
fn map_reserve_within_room_changes_nothing() {
    let mut map = AxHashMap::with_capacity(64);
    let cap = map.capacity();
    map.insert(1, 1);
    map.reserve(10);
    assert_eq!(map.capacity(), cap);
}

#[test]
fn map_deref_reaches_the_table() {
    let mut map = AxHashMap::from_iter(vec![(1, 10), (2, 20)]);
    assert_eq!((*map).0.len(), 2);
    *(*map).0.entry(1).or_insert(0) += 5;
    (*map).0.entry(3).or_insert(30);
    (*map).0.retain(|_, v| *v != 20);
    assert_eq!(map.get(&1), Some(&15));
    assert_eq!(map.get(&3), Some(&30));
    assert_eq!(map.get(&2), None);
    assert_eq!(map.len(), 2);
}

#[test]
fn map_shrink_to_fit_rebuilds_to_smallest_table() {
    let mut map = AxHashMap::with_capacity(1000);
    map.insert(1, 1);
    map.insert(2, 2);
    map.shrink_to_fit();
    let small = AxHashMap::with_capacity(2);
    assert_eq!(map.capacity(), small.capacity());
    let cap = map.capacity();
    map.shrink_to_fit();
    assert_eq!(map.capacity(), cap);
}
