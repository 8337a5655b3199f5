//! The published list of loot boxes, one line per box.

use vstd::prelude::*;

verus! {

/// One line of the loot box list.
#[derive(Debug, Clone)]
pub struct LootboxListItem {
    pub id: u64,
    pub is_premium: bool,
    pub name: String,
    pub title: String,
    pub short_title: String,
}

} // verus!
