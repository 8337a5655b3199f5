//! Currencies as the glossary API hands them out.

use vstd::prelude::*;
use vstd::string::StringExecFns;

use crate::currencies::{spec_icon_name, spec_name_string};
use crate::fetch::item::{spec_process, ItemIcon};

verus! {

/// A currency name as the API spells it; anything unknown is kept verbatim
/// and dropped on conversion.
#[derive(Debug, Clone, Copy, PartialEq, Eq, Hash, Structural)]
pub enum CurrencyType {
    Credits,
    Gold,
    FreeXp,
    EliteXp,
    ParagonXp,
    Steel,
    Coal,
    Molybdenum,
    Brass,
    Saltpeter,
    RecruitmentPoints,
    Eventum3,
    Eventum4,
    Eventum5,
    Eventum6,
    Eventum7,
    Eventum8,
    Eventum9,
    Eventum10,
    EventumCn,
    Santium,
    Dockyardum1,
    Dockyardum2,
    Eventum11,
    Eventum12,
    Eventum13,
    Eventum14,
    Eventum1,
    Eventum2,
    Clientum1,
    Clientum2,
    ClanResource,
    WowsPremium,
    Slots,
    Verbatim,
}

/// The standard currency an API name stands for, none for an unknown name.
pub open spec fn spec_currency_standard(c: CurrencyType) -> Option<
    crate::currencies::CurrencyType,
> {
    match c {
        CurrencyType::Credits => Option::Some(crate::currencies::CurrencyType::Credits),
        CurrencyType::Gold => Option::Some(crate::currencies::CurrencyType::Gold),
        CurrencyType::FreeXp => Option::Some(crate::currencies::CurrencyType::FreeXp),
        CurrencyType::EliteXp => Option::Some(crate::currencies::CurrencyType::EliteXp),
        CurrencyType::ParagonXp => Option::Some(crate::currencies::CurrencyType::ParagonXp),
        CurrencyType::Steel => Option::Some(crate::currencies::CurrencyType::Steel),
        CurrencyType::Coal => Option::Some(crate::currencies::CurrencyType::Coal),
        CurrencyType::Molybdenum => Option::Some(crate::currencies::CurrencyType::Molybdenum),
        CurrencyType::Brass => Option::Some(crate::currencies::CurrencyType::Brass),
        CurrencyType::Saltpeter => Option::Some(crate::currencies::CurrencyType::Saltpeter),
        CurrencyType::RecruitmentPoints => Option::Some(crate::currencies::CurrencyType::RecruitmentPoints),
        CurrencyType::Eventum3 => Option::Some(crate::currencies::CurrencyType::Eventum3),
        CurrencyType::Eventum4 => Option::Some(crate::currencies::CurrencyType::Eventum4),
        CurrencyType::Eventum5 => Option::Some(crate::currencies::CurrencyType::Eventum5),
        CurrencyType::Eventum6 => Option::Some(crate::currencies::CurrencyType::Eventum6),
        CurrencyType::Eventum7 => Option::Some(crate::currencies::CurrencyType::Eventum7),
        CurrencyType::Eventum8 => Option::Some(crate::currencies::CurrencyType::Eventum8),
        CurrencyType::Eventum9 => Option::Some(crate::currencies::CurrencyType::Eventum9),
        CurrencyType::Eventum10 => Option::Some(crate::currencies::CurrencyType::Eventum10),
        CurrencyType::EventumCn => Option::Some(crate::currencies::CurrencyType::EventumCn),
        CurrencyType::Santium => Option::Some(crate::currencies::CurrencyType::Santium),
        CurrencyType::Dockyardum1 => Option::Some(crate::currencies::CurrencyType::Dockyardum1),
        CurrencyType::Dockyardum2 => Option::Some(crate::currencies::CurrencyType::Dockyardum2),
        CurrencyType::Eventum11 => Option::Some(crate::currencies::CurrencyType::Eventum11),
        CurrencyType::Eventum12 => Option::Some(crate::currencies::CurrencyType::Eventum12),
        CurrencyType::Eventum13 => Option::Some(crate::currencies::CurrencyType::Eventum13),
        CurrencyType::Eventum14 => Option::Some(crate::currencies::CurrencyType::Eventum14),
        CurrencyType::Eventum1 => Option::Some(crate::currencies::CurrencyType::Eventum1),
        CurrencyType::Eventum2 => Option::Some(crate::currencies::CurrencyType::Eventum2),
        CurrencyType::Clientum1 => Option::Some(crate::currencies::CurrencyType::Clientum1),
        CurrencyType::Clientum2 => Option::Some(crate::currencies::CurrencyType::Clientum2),
        CurrencyType::ClanResource => Option::Some(crate::currencies::CurrencyType::ClanResource),
        CurrencyType::WowsPremium => Option::Some(crate::currencies::CurrencyType::WowsPremium),
        CurrencyType::Slots => Option::Some(crate::currencies::CurrencyType::Slots),
        CurrencyType::Verbatim => Option::None,
    }
}

impl CurrencyType {
    /// The standard currency this API name stands for.
    pub fn into_standard(self) -> (r: Option<crate::currencies::CurrencyType>)
        ensures
            r == spec_currency_standard(self),
    {
        match self {
            CurrencyType::Credits => Some(crate::currencies::CurrencyType::Credits),
            CurrencyType::Gold => Some(crate::currencies::CurrencyType::Gold),
            CurrencyType::FreeXp => Some(crate::currencies::CurrencyType::FreeXp),
            CurrencyType::EliteXp => Some(crate::currencies::CurrencyType::EliteXp),
            CurrencyType::ParagonXp => Some(crate::currencies::CurrencyType::ParagonXp),
            CurrencyType::Steel => Some(crate::currencies::CurrencyType::Steel),
            CurrencyType::Coal => Some(crate::currencies::CurrencyType::Coal),
            CurrencyType::Molybdenum => Some(crate::currencies::CurrencyType::Molybdenum),
            CurrencyType::Brass => Some(crate::currencies::CurrencyType::Brass),
            CurrencyType::Saltpeter => Some(crate::currencies::CurrencyType::Saltpeter),
            CurrencyType::RecruitmentPoints => Some(crate::currencies::CurrencyType::RecruitmentPoints),
            CurrencyType::Eventum3 => Some(crate::currencies::CurrencyType::Eventum3),
            CurrencyType::Eventum4 => Some(crate::currencies::CurrencyType::Eventum4),
            CurrencyType::Eventum5 => Some(crate::currencies::CurrencyType::Eventum5),
            CurrencyType::Eventum6 => Some(crate::currencies::CurrencyType::Eventum6),
            CurrencyType::Eventum7 => Some(crate::currencies::CurrencyType::Eventum7),
            CurrencyType::Eventum8 => Some(crate::currencies::CurrencyType::Eventum8),
            CurrencyType::Eventum9 => Some(crate::currencies::CurrencyType::Eventum9),
            CurrencyType::Eventum10 => Some(crate::currencies::CurrencyType::Eventum10),
            CurrencyType::EventumCn => Some(crate::currencies::CurrencyType::EventumCn),
            CurrencyType::Santium => Some(crate::currencies::CurrencyType::Santium),
            CurrencyType::Dockyardum1 => Some(crate::currencies::CurrencyType::Dockyardum1),
            CurrencyType::Dockyardum2 => Some(crate::currencies::CurrencyType::Dockyardum2),
            CurrencyType::Eventum11 => Some(crate::currencies::CurrencyType::Eventum11),
            CurrencyType::Eventum12 => Some(crate::currencies::CurrencyType::Eventum12),
            CurrencyType::Eventum13 => Some(crate::currencies::CurrencyType::Eventum13),
            CurrencyType::Eventum14 => Some(crate::currencies::CurrencyType::Eventum14),
            CurrencyType::Eventum1 => Some(crate::currencies::CurrencyType::Eventum1),
            CurrencyType::Eventum2 => Some(crate::currencies::CurrencyType::Eventum2),
            CurrencyType::Clientum1 => Some(crate::currencies::CurrencyType::Clientum1),
            CurrencyType::Clientum2 => Some(crate::currencies::CurrencyType::Clientum2),
            CurrencyType::ClanResource => Some(crate::currencies::CurrencyType::ClanResource),
            CurrencyType::WowsPremium => Some(crate::currencies::CurrencyType::WowsPremium),
            CurrencyType::Slots => Some(crate::currencies::CurrencyType::Slots),
            CurrencyType::Verbatim => None,
        }
    }
}

/// One currency as the API hands it out.
#[derive(Debug, Clone)]
pub struct CurrencyData {
    pub name: CurrencyType,
    pub title: String,
    pub icons: ItemIcon,
}

/// The icon a currency record resolves to: the large icon when there is
/// one, else the default.
pub open spec fn spec_currency_icon(icons: ItemIcon) -> Seq<char> {
    match icons.large {
        Option::Some(l) => spec_process(l@),
        Option::None => spec_process(icons.default@),
    }
}

impl CurrencyData {
    /// The standard display record of this currency, named in the given
    /// language; an unknown currency converts to nothing.
    pub fn into_standard(self, lang: &str) -> (r: Option<crate::currencies::CurrencyData>)
        ensures
            match (r, spec_currency_standard(self.name)) {
                (Option::Some(d), Option::Some(c)) => d.currency == c && d.name@
                    == spec_name_string(c, lang@) && d.icon@ == spec_currency_icon(self.icons),
                (Option::None, Option::None) => true,
                _ => false,
            },
    {
        let ItemIcon { small: _, large, default } = self.icons;
        let icon = match large {
            Some(l) => ItemIcon { small: None, large: None, default: l }.into_default(),
            None => ItemIcon { small: None, large: None, default }.into_default(),
        };
        match self.name.into_standard() {
            Some(c) => {
                let name = c.as_name_string(lang).to_owned();
                Some(crate::currencies::CurrencyData { currency: c, name, icon })
            },
            None => None,
        }
    }
}

/// The address of a currency's image on the static web host, for a given
/// web version.
pub fn fetch_currency_image(
    currency: crate::currencies::CurrencyType,
    version_id: &str,
) -> (r: String)
    ensures
        r@ == "https://wows-web-static.wgcdn.co/wowsp/"@ + version_id@ + "/browserAssets/img/"@
            + spec_icon_name(currency) + ".png"@,
{
    let mut r = String::new();
    r.append("https://wows-web-static.wgcdn.co/wowsp/");
    r.append(version_id);
    r.append("/browserAssets/img/");
    r.append(currency.as_icon_name());
    r.append(".png");
    r
}

} // verus!
