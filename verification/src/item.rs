//! Display data of glossary items and collectible albums.

use vstd::prelude::*;

verus! {

/// One glossary item's display data.
#[derive(Debug, Clone)]
pub struct ItemData {
    pub name: String,
    pub short_name: String,
    pub id: u64,
    pub icon: String,
}

/// One collectible album's display data.
#[derive(Debug, Clone)]
pub struct AlbumData {
    pub name: String,
    pub id: u64,
    pub icon: String,
}

impl AlbumData {
    /// An album shown as a plain item, with no short name.
    pub fn into_item(self) -> (r: ItemData)
        ensures
            r.name@ == self.name@,
            r.short_name@ == Seq::<char>::empty(),
            r.id == self.id,
            r.icon@ == self.icon@,
    {
        ItemData { name: self.name, short_name: String::new(), id: self.id, icon: self.icon }
    }
}

} // verus!
