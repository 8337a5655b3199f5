//! Collectible albums as the API hands them out.

use vstd::prelude::*;

use crate::fetch::item::{spec_icon_default, ItemIcon};

verus! {

/// One collectible album as the API hands it out.
#[derive(Debug, Clone)]
pub struct AlbumData {
    pub id: u64,
    pub icons: ItemIcon,
    pub title: String,
    pub description: String,
}

impl AlbumData {
    /// The standard display record of this album.
    pub fn into_standard(self) -> (r: crate::item::AlbumData)
        ensures
            r.id == self.id,
            r.name@ == self.title@,
            r.icon@ == spec_icon_default(self.icons),
    {
        crate::item::AlbumData {
            id: self.id,
            name: self.title,
            icon: self.icons.into_default(),
        }
    }
}

} // verus!
