# axhash-map (verified)

`AxHashMap` (u64 keys to u64 values) and `AxHashSet` (u64 items): hash
collections that keep a `hashbrown` table hashing with `axhash_core`'s
`AxBuildHasher`, written in Verus.

- `src/raw.rs`: the `hashbrown` tables and the trusted wrappers that call
  into `hashbrown` and `axhash_core`; each contract restates the outside
  source.
- `src/map.rs`, `src/set.rs`: the collections, each operation verified
  against a `Map` / `Set` model of the contents.
- `src/laws.rs`: laws that the operations obey together.
- `tests/`: scenarios run against the compiled crate.

## What it offers, and what it does not

- Keys, values and items are `u64`, and every table hashes with
  `axhash_core::AxBuildHasher` (the default one, or one made with
  `AxBuildHasher::with_seed`). Other key, value or hasher types, and the
  `HashMap<K, V>` / `HashSet<T>` type aliases over
  `BuildHasherDefault<AxHasher>`, are not provided: the model of a table's
  contents is named over concrete types.
- The table itself is reachable as `RawHashMap.0` / `RawHashSet.0` (through
  `into_inner` and `From`), so code that speaks `hashbrown` can take it.
- Offered on the collections: `new`, `with_capacity`, `with_hasher`,
  `with_capacity_and_hasher`, `len`, `is_empty`, `capacity`, `get`,
  `contains_key` / `contains`, `index`, `insert`, `remove`, `extend`,
  `extend_from_slice`, `from_iter`, `clear`, `reserve`, `shrink_to_fit`,
  `iter`, `into_iter`, set `union` and `intersection`, `Clone`, `Default`,
  `PartialEq`, `Debug`, `From` both ways, and `Deref` / `DerefMut` to the
  table (`RawHashMap` / `RawHashSet`), whose field `.0` opens the rest of
  hashbrown's API (`entry`, `retain`, `drain`, `get_mut`, ...), e.g.
  `(*map).0.entry(k).or_insert(v)`. What is done there is unverified; the
  contracts pick the table up again as it is left.
- `iter` and `into_iter` return a `Vec` of the entries (items), in the
  table's order.
- `Debug` shows the wrapper around the table, as in
  `AxHashMap(RawHashMap({1: 10}))`.
- `with_capacity` and `reserve` take at most `MAX_MAP_CAPACITY` /
  `MAX_SET_CAPACITY` entries, the largest capacity hashbrown can lay a table
  out for; past it hashbrown panics.
