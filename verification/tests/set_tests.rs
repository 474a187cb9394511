use axhash_map::{AxBuildHasher, AxHashSet, RawHashSet};

#[test]
fn set_basic_operations() {
    let mut set = AxHashSet::new();
    assert!(set.is_empty());

    set.insert(1);
    set.insert(2);
    set.insert(2); // duplicate
    set.insert(3);

    assert_eq!(set.len(), 3);
    assert!(set.contains(&1));
    assert!(!set.contains(&99));

    set.remove(&2);
    assert_eq!(set.len(), 2);
}

#[test]
fn set_with_capacity() {
    let set = AxHashSet::with_capacity(64);
    assert!(set.capacity() >= 64);
}

#[test]
fn set_default() {
    let set = AxHashSet::default();
    assert!(set.is_empty());
}

#[test]
fn set_from_iterator() {
    let set = AxHashSet::from_iter(vec![1u64, 2, 3, 2, 1]);
    assert_eq!(set.len(), 3);
}

#[test]
fn set_extend() {
    let mut set = AxHashSet::new();
    set.extend(vec![1u64, 2, 3]);
    set.extend(vec![3u64, 4, 5]);
    assert_eq!(set.len(), 5);
}

#[test]
fn set_set_operations() {
    let a = AxHashSet::from_iter(vec![1, 2, 3]);
    let b = AxHashSet::from_iter(vec![2, 3, 4]);

    let union = a.union(&b);
    assert_eq!(union.len(), 4);

    let inter = a.intersection(&b);
    assert_eq!(inter.len(), 2);
}

#[test]
fn set_into_inner_roundtrip() {
    let mut set = AxHashSet::new();
    set.insert(42);
    let raw: RawHashSet = set.into_inner();
    assert!(raw.0.contains(&42));
    let wrapped: AxHashSet = raw.into();
    assert!(wrapped.contains(&42));
}

// ── further cases ───────────────────────────────────────────────────────────

#[test]
fn set_insert_reports_new_items() {
    let mut set = AxHashSet::new();
    assert!(set.insert(7));
    assert!(!set.insert(7));
    assert_eq!(set.len(), 1);
}

#[test]
fn set_duplicate_insert_leaves_set_unchanged() {
    let mut set = AxHashSet::from_iter(vec![1, 2, 3]);
    let before = set.clone();
    set.insert(2);
    assert!(set == before);
}

#[test]
fn set_remove_reports_presence() {
    let mut set = AxHashSet::from_iter(vec![1, 2]);
    assert!(set.remove(&1));
    assert!(!set.remove(&1));
    assert!(!set.remove(&5));
    assert_eq!(set.len(), 1);
}

#[test]
fn set_operations_contents() {
    let a = AxHashSet::from_iter(vec![1, 2, 3]);
    let b = AxHashSet::from_iter(vec![2, 3, 4]);
    let mut union = a.union(&b).into_iter();
    union.sort();
    assert_eq!(union, vec![1, 2, 3, 4]);
    let mut inter = a.intersection(&b).into_iter();
    inter.sort();
    assert_eq!(inter, vec![2, 3]);
    assert_eq!(a.union(&b).len() + a.intersection(&b).len(), a.len() + b.len());
}

#[test]
fn set_operations_with_empty() {
    let a = AxHashSet::from_iter(vec![1, 2, 3]);
    let e = AxHashSet::new();
    assert!(a.union(&e) == a);
    assert!(a.intersection(&e).is_empty());
    let disjoint = AxHashSet::from_iter(vec![8, 9]);
    assert!(a.intersection(&disjoint).is_empty());
    assert_eq!(a.union(&disjoint).len(), 5);
}

#[test]
fn set_from_iterator_without_repeats_keeps_count() {
    let set = AxHashSet::from_iter(vec![10, 20, 30, 40]);
    assert_eq!(set.len(), 4);
    assert!(set.capacity() >= 4);
}

#[test]
fn set_iter_lists_each_item_once() {
    let set = AxHashSet::from_iter(vec![5, 3, 5, 1, 3]);
    let mut items = set.iter();
    items.sort();
    assert_eq!(items, vec![1, 3, 5]);
}

#[test]
fn set_clone_eq_and_hasher() {
    let mut a = AxHashSet::with_hasher(AxBuildHasher::with_seed(9));
    a.extend(vec![1, 2, 3]);
    let b = AxHashSet::from_iter(vec![3, 2, 1]);
    assert!(a == b);
    assert!(a.clone() == a);
    let c = AxHashSet::from_iter(vec![1, 2]);
    assert!(c != a);
}

#[test]
fn set_with_capacity_and_hasher() {
    let mut set = AxHashSet::with_capacity_and_hasher(500, AxBuildHasher::with_seed(4));
    assert!(set.is_empty());
    assert!(set.capacity() >= 500);
    set.insert(1);
    assert!(set.capacity() >= 500);
}

#[test]
fn set_default_equals_new() {
    assert!(AxHashSet::default() == AxHashSet::new());
}

#[test]
fn set_from_raw_and_back() {
    let mut inner = hashbrown::HashSet::with_hasher(AxBuildHasher::new());
    inner.insert(77u64);
    let set = AxHashSet::from(RawHashSet(inner));
    assert!(set.contains(&77));
    let raw = RawHashSet::from(set);
    assert!(raw.0.contains(&77));
}

#[test]
fn set_capacity_of_fresh_sets_is_zero() {
    assert_eq!(AxHashSet::new().capacity(), 0);
    assert_eq!(AxHashSet::default().capacity(), 0);
    assert_eq!(AxHashSet::with_hasher(AxBuildHasher::with_seed(5)).capacity(), 0);
}

#[test]
fn set_capacity_carried_by_clone_and_into_inner() {
    let mut set = AxHashSet::with_capacity(40);
    set.insert(1);
    let cap = set.capacity();
    assert_eq!(set.clone().capacity(), cap);
    let raw = set.into_inner();
    assert_eq!(raw.0.capacity(), cap);
    assert_eq!(AxHashSet::from(raw).capacity(), cap);
}

#[test]
fn set_capacity_while_filling() {
    let mut set = AxHashSet::with_capacity(30);
    let cap = set.capacity();
    assert!(cap >= 30);
    for i in 0..30u64 {
        set.insert(i);
        assert_eq!(set.capacity(), cap);
    }
    assert!(!set.remove(&1000));
    assert_eq!(set.capacity(), cap);
}

#[test]
fn set_extend_from_slice() {
    let mut set = AxHashSet::from_iter(vec![1]);
    set.extend_from_slice(&[1u64, 2, 3, 2]);
    assert_eq!(set.len(), 3);
    assert!(set.contains(&3));
}

#[test]
fn set_clear_reserve_shrink() {
    let mut set = AxHashSet::from_iter(vec![1, 2, 3]);
    let cap = set.capacity();
    set.clear();
    assert!(set.is_empty());
    assert!(set.capacity() >= cap);
    set.reserve(200);
    assert!(set.capacity() >= 200);
    set.shrink_to_fit();
    assert_eq!(set.capacity(), 0);
    set.insert(9);
    set.reserve(5);
    assert!(set.capacity() >= 6);
    assert!(set.contains(&9));
}

#[test]
fn set_deref_reaches_the_table() {
    let mut set = AxHashSet::from_iter(vec![1, 2, 3, 4]);
    (*set).0.retain(|x| x % 2 == 0);
    assert_eq!(set.len(), 2);
    assert!(set.contains(&4));
    assert!(!set.contains(&3));
    assert_eq!((*set).0.len(), 2);
}

#[test]
fn set_shrink_to_fit_rebuilds_to_smallest_table() {
    let mut set = AxHashSet::with_capacity(500);
    set.insert(7);
    set.shrink_to_fit();
    assert_eq!(set.capacity(), AxHashSet::with_capacity(1).capacity());
    assert!(set.contains(&7));
}
