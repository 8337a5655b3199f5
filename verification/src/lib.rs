//! A loot-box draw engine and its catalog model.
//!
//! The catalog (`lootbox`) describes one box: slots, weighted reward pools,
//! an optional filler and an optional pity threshold, with probabilities as
//! fixed-point fractions of one.  The engine (`rand`) opens the box: one
//! weighted draw per slot, a guaranteed draw whenever the pity counter
//! reaches the threshold, and a uniqueness rule that never hands out an
//! owned reward again.  Every outcome is pinned to the catalog, the session
//! and the caller's seed, so runs are reproducible.  The remaining modules
//! carry the catalog's published shapes (`fetch`), display data
//! (`currencies`, `item`, `process`) and the service's wire types
//! (`service`, `onebot11`).

pub mod currencies;
pub mod fetch;
pub mod item;
pub mod lootbox;
pub mod onebot11;
pub mod process;
pub mod rand;
pub mod rng;
pub mod service;
pub mod text;
