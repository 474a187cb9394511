//! Hash maps and hash sets backed by `hashbrown` tables that hash with
//! `axhash`.
//!
//! [`AxHashMap`] maps `u64` keys to `u64` values and [`AxHashSet`] holds
//! `u64` items. Both carry a `hashbrown` table inside and hash with an
//! [`AxBuildHasher`]; every operation is stated over a mathematical model of
//! the contents (a `Map` for the map, a `Set` for the set).

pub use axhash_core::{AxBuildHasher, AxHasher};

pub mod raw;
pub mod map;
pub mod set;
pub mod laws;

pub use map::AxHashMap;
pub use raw::{RawHashMap, RawHashSet, MAX_MAP_CAPACITY, MAX_SET_CAPACITY};
pub use set::AxHashSet;
