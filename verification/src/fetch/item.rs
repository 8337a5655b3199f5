//! Glossary items as the API hands them out.

use vstd::prelude::*;
use vstd::string::StringExecFns;

use crate::text::{spec_starts_with, str_starts_with};

verus! {

/// The icon urls of one glossary entry, possibly scheme-less or bare.
#[derive(Debug, Clone)]
pub struct ItemIcon {
    pub small: Option<String>,
    pub large: Option<String>,
    pub default: String,
}

/// A bare icon path completed to a full url: an address is kept, a
/// scheme-less one gets the scheme, anything else is looked up on the icon
/// host.
pub open spec fn spec_process(s: Seq<char>) -> Seq<char> {
    if spec_starts_with(s, "https"@) {
        s
    } else if spec_starts_with(s, "//"@) {
        "https:"@ + s
    } else {
        "https://wows-gloss-icons.wgcdn.co/icons/"@ + s
    }
}

/// The completed default icon url of an icon set.
pub open spec fn spec_icon_default(icons: ItemIcon) -> Seq<char> {
    spec_process(icons.default@)
}

impl ItemIcon {
    /// The default icon, as a full url.
    pub fn into_default(self) -> (r: String)
        ensures
            r@ == spec_process(self.default@),
    {
        Self::process(self.default)
    }

    /// The small icon, as a full url, if the entry has one.
    pub fn into_small(self) -> (r: Option<String>)
        ensures
            match (r, self.small) {
                (Option::Some(u), Option::Some(s)) => u@ == spec_process(s@),
                (Option::None, Option::None) => true,
                _ => false,
            },
    {
        match self.small {
            Some(s) => Some(Self::process(s)),
            None => None,
        }
    }

    /// The large icon, as a full url, if the entry has one.
    pub fn into_large(self) -> (r: Option<String>)
        ensures
            match (r, self.large) {
                (Option::Some(u), Option::Some(s)) => u@ == spec_process(s@),
                (Option::None, Option::None) => true,
                _ => false,
            },
    {
        match self.large {
            Some(s) => Some(Self::process(s)),
            None => None,
        }
    }

    /// Completes one icon path to a full url.
    fn process(item: String) -> (r: String)
        ensures
            r@ == spec_process(item@),
    {
        if str_starts_with(item.as_str(), "https") {
            item
        } else if str_starts_with(item.as_str(), "//") {
            let mut r = String::new();
            r.append("https:");
            r.append(item.as_str());
            r
        } else {
            let mut r = String::new();
            r.append("https://wows-gloss-icons.wgcdn.co/icons/");
            r.append(item.as_str());
            r
        }
    }
}

/// One glossary item as the API hands it out.
#[derive(Debug, Clone)]
pub struct ItemData {
    pub title: String,
    pub description: String,
    pub id: u64,
    pub title_short: String,
    pub kind_name: String,
    pub icons: ItemIcon,
    pub item_type: ItemType,
}

/// The kind tag of a glossary item.
#[derive(Debug, Clone)]
pub struct ItemType {
    pub name: String,
    pub title: String,
}

impl ItemData {
    /// The standard display record of this item.
    pub fn into_standard(self) -> (r: crate::item::ItemData)
        ensures
            r.name@ == self.title@,
            r.short_name@ == self.title_short@,
            r.id == self.id,
            r.icon@ == spec_icon_default(self.icons),
    {
        crate::item::ItemData {
            name: self.title,
            short_name: self.title_short,
            id: self.id,
            icon: self.icons.into_default(),
        }
    }
}

} // verus!
