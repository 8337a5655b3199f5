//! The currencies a loot box can pay out, and their display data.

use vstd::prelude::*;

use crate::text::str_eq;

verus! {

/// A currency, or another payload-free reward kind the glossary lists.
#[derive(Debug, Clone, Copy, PartialEq, Eq, Hash, Structural)]
pub enum CurrencyType {
    Credits,
    Gold,
    FreeXp,
    EliteXp,
    ParagonXp,
    Steel,
    Coal,
    Molybdenum,
    Brass,
    Saltpeter,
    RecruitmentPoints,
    Eventum3,
    Eventum4,
    Eventum5,
    Eventum6,
    Eventum7,
    Eventum8,
    Eventum9,
    Eventum10,
    EventumCn,
    Santium,
    Dockyardum1,
    Dockyardum2,
    Eventum11,
    Eventum12,
    Eventum13,
    Eventum14,
    Eventum1,
    Eventum2,
    Clientum1,
    Clientum2,
    ClanResource,
    WowsPremium,
    Slots,
}

/// The icon name the glossary files a currency under.
pub open spec fn spec_icon_name(c: CurrencyType) -> Seq<char> {
    match c {
        CurrencyType::Credits => "credits"@,
        CurrencyType::Gold => "gold"@,
        CurrencyType::FreeXp => "free-xp"@,
        CurrencyType::EliteXp => "elite-xp"@,
        CurrencyType::ParagonXp => "paragon-xp"@,
        CurrencyType::Steel => "steel"@,
        CurrencyType::Coal => "coal"@,
        CurrencyType::Molybdenum => "molybdenum"@,
        CurrencyType::Brass => "brass"@,
        CurrencyType::Saltpeter => "saltpeter"@,
        CurrencyType::RecruitmentPoints => "recruitment-points"@,
        CurrencyType::Eventum3 => "eventum-3"@,
        CurrencyType::Eventum4 => "eventum-4"@,
        CurrencyType::Eventum5 => "eventum-5"@,
        CurrencyType::Eventum6 => "eventum-6"@,
        CurrencyType::Eventum7 => "eventum-7"@,
        CurrencyType::Eventum8 => "eventum-8"@,
        CurrencyType::Eventum9 => "eventum-9"@,
        CurrencyType::Eventum10 => "eventum-10"@,
        CurrencyType::EventumCn => "eventum-cn"@,
        CurrencyType::Santium => "santium"@,
        CurrencyType::Dockyardum1 => "dockyardum-1"@,
        CurrencyType::Dockyardum2 => "dockyardum-2"@,
        CurrencyType::Eventum11 => "eventum-11"@,
        CurrencyType::Eventum12 => "eventum-12"@,
        CurrencyType::Eventum13 => "eventum-13"@,
        CurrencyType::Eventum14 => "eventum-14"@,
        CurrencyType::Eventum1 => "eventum-1"@,
        CurrencyType::Eventum2 => "eventum-2"@,
        CurrencyType::Clientum1 => "clientum-1"@,
        CurrencyType::Clientum2 => "clientum-2"@,
        CurrencyType::ClanResource => "clan-resource"@,
        CurrencyType::WowsPremium => "wows-premium"@,
        CurrencyType::Slots => "slots"@,
    }
}

/// The display name of a currency in one language.
pub open spec fn spec_name_string(c: CurrencyType, lang: Seq<char>) -> Seq<char> {
    if lang == "zh-sg"@ {
        match c {
            CurrencyType::Credits => "银币"@,
            CurrencyType::Gold => "达布隆"@,
            CurrencyType::FreeXp => "全局经验"@,
            CurrencyType::EliteXp => "精英指挥官经验"@,
            CurrencyType::ParagonXp => "研究点"@,
            CurrencyType::Steel => "钢铁"@,
            CurrencyType::Coal => "煤炭"@,
            CurrencyType::Molybdenum => "军团代币"@,
            CurrencyType::Brass => " "@,
            CurrencyType::Saltpeter => "网站筹码"@,
            CurrencyType::RecruitmentPoints => "社区代币"@,
            CurrencyType::Eventum3 => "联邦代币"@,
            CurrencyType::Eventum4 => "雄鹰代币"@,
            CurrencyType::Eventum5 => "不列颠尼亚代币"@,
            CurrencyType::Eventum6 => "缤纷代币"@,
            CurrencyType::Eventum7 => "足球代币"@,
            CurrencyType::Eventum8 => "夏季代币"@,
            CurrencyType::Eventum9 => "航海家代币"@,
            CurrencyType::Eventum10 => "新年证书"@,
            CurrencyType::EventumCn => "补给券"@,
            CurrencyType::Santium => "志愿者代币"@,
            CurrencyType::Dockyardum1 => "造船阶段"@,
            CurrencyType::Dockyardum2 => "造船阶段"@,
            CurrencyType::Eventum11 => "蔚蓝档案代币"@,
            CurrencyType::Eventum12 => "企业代币"@,
            CurrencyType::Eventum13 => "节庆证书"@,
            CurrencyType::Eventum14 => "圣诞代币"@,
            CurrencyType::Eventum1 => "法国代币"@,
            CurrencyType::Eventum2 => "金色代币"@,
            CurrencyType::Clientum1 => "战斗代币"@,
            CurrencyType::Clientum2 => " "@,
            CurrencyType::ClanResource => "石油"@,
            CurrencyType::WowsPremium => "高级账号"@,
            CurrencyType::Slots => "船坞"@,
        }
    } else if lang == "en"@ {
        match c {
            CurrencyType::Credits => "Credits"@,
            CurrencyType::Gold => "Doubloons"@,
            CurrencyType::FreeXp => "Free XP"@,
            CurrencyType::EliteXp => "Elite Commander XP"@,
            CurrencyType::ParagonXp => "Research Points"@,
            CurrencyType::Steel => "Steel"@,
            CurrencyType::Coal => "Coal"@,
            CurrencyType::Molybdenum => "Clan Tokens"@,
            CurrencyType::Brass => " "@,
            CurrencyType::Saltpeter => "Portal Chips"@,
            CurrencyType::RecruitmentPoints => "Community Tokens"@,
            CurrencyType::Eventum3 => "Commonwealth Tokens"@,
            CurrencyType::Eventum4 => "Independence Tokens"@,
            CurrencyType::Eventum5 => "Britannia Tokens"@,
            CurrencyType::Eventum6 => "Colorful Tokens"@,
            CurrencyType::Eventum7 => "Football Tokens"@,
            CurrencyType::Eventum8 => "Summer Tokens"@,
            CurrencyType::Eventum9 => "Navigator Tokens"@,
            CurrencyType::Eventum10 => "New Year Certificates"@,
            CurrencyType::EventumCn => "Supply Vouchers"@,
            CurrencyType::Santium => "Volunteer Tokens"@,
            CurrencyType::Dockyardum1 => "Shipbuilding phases"@,
            CurrencyType::Dockyardum2 => "Shipbuilding phases"@,
            CurrencyType::Eventum11 => "Blue Archive Tokens"@,
            CurrencyType::Eventum12 => "Enterprise Tokens"@,
            CurrencyType::Eventum13 => "Festive Certificates"@,
            CurrencyType::Eventum14 => "Christmas Tokens"@,
            CurrencyType::Eventum1 => "French Tokens"@,
            CurrencyType::Eventum2 => "Golden Tokens"@,
            CurrencyType::Clientum1 => "Battle Tokens"@,
            CurrencyType::Clientum2 => " "@,
            CurrencyType::ClanResource => "Oil"@,
            CurrencyType::WowsPremium => "Premium Account"@,
            CurrencyType::Slots => "Ship Slot"@,
        }
    } else {
        "Unknown"@
    }
}

impl CurrencyType {
    /// The icon name this currency is filed under.
    pub fn as_icon_name(&self) -> (r: &'static str)
        ensures
            r@ == spec_icon_name(*self),
    {
        match self {
            CurrencyType::Credits => "credits",
            CurrencyType::Gold => "gold",
            CurrencyType::FreeXp => "free-xp",
            CurrencyType::EliteXp => "elite-xp",
            CurrencyType::ParagonXp => "paragon-xp",
            CurrencyType::Steel => "steel",
            CurrencyType::Coal => "coal",
            CurrencyType::Molybdenum => "molybdenum",
            CurrencyType::Brass => "brass",
            CurrencyType::Saltpeter => "saltpeter",
            CurrencyType::RecruitmentPoints => "recruitment-points",
            CurrencyType::Eventum3 => "eventum-3",
            CurrencyType::Eventum4 => "eventum-4",
            CurrencyType::Eventum5 => "eventum-5",
            CurrencyType::Eventum6 => "eventum-6",
            CurrencyType::Eventum7 => "eventum-7",
            CurrencyType::Eventum8 => "eventum-8",
            CurrencyType::Eventum9 => "eventum-9",
            CurrencyType::Eventum10 => "eventum-10",
            CurrencyType::EventumCn => "eventum-cn",
            CurrencyType::Santium => "santium",
            CurrencyType::Dockyardum1 => "dockyardum-1",
            CurrencyType::Dockyardum2 => "dockyardum-2",
            CurrencyType::Eventum11 => "eventum-11",
            CurrencyType::Eventum12 => "eventum-12",
            CurrencyType::Eventum13 => "eventum-13",
            CurrencyType::Eventum14 => "eventum-14",
            CurrencyType::Eventum1 => "eventum-1",
            CurrencyType::Eventum2 => "eventum-2",
            CurrencyType::Clientum1 => "clientum-1",
            CurrencyType::Clientum2 => "clientum-2",
            CurrencyType::ClanResource => "clan-resource",
            CurrencyType::WowsPremium => "wows-premium",
            CurrencyType::Slots => "slots",
        }
    }

    /// The display name of this currency in the given language.
    pub fn as_name_string(&self, lang: &str) -> (r: &'static str)
        ensures
            r@ == spec_name_string(*self, lang@),
    {
        if str_eq(lang, "zh-sg") {
            match self {
                CurrencyType::Credits => "银币",
                CurrencyType::Gold => "达布隆",
                CurrencyType::FreeXp => "全局经验",
                CurrencyType::EliteXp => "精英指挥官经验",
                CurrencyType::ParagonXp => "研究点",
                CurrencyType::Steel => "钢铁",
                CurrencyType::Coal => "煤炭",
                CurrencyType::Molybdenum => "军团代币",
                CurrencyType::Brass => " ",
                CurrencyType::Saltpeter => "网站筹码",
                CurrencyType::RecruitmentPoints => "社区代币",
                CurrencyType::Eventum3 => "联邦代币",
                CurrencyType::Eventum4 => "雄鹰代币",
                CurrencyType::Eventum5 => "不列颠尼亚代币",
                CurrencyType::Eventum6 => "缤纷代币",
                CurrencyType::Eventum7 => "足球代币",
                CurrencyType::Eventum8 => "夏季代币",
                CurrencyType::Eventum9 => "航海家代币",
                CurrencyType::Eventum10 => "新年证书",
                CurrencyType::EventumCn => "补给券",
                CurrencyType::Santium => "志愿者代币",
                CurrencyType::Dockyardum1 => "造船阶段",
                CurrencyType::Dockyardum2 => "造船阶段",
                CurrencyType::Eventum11 => "蔚蓝档案代币",
                CurrencyType::Eventum12 => "企业代币",
                CurrencyType::Eventum13 => "节庆证书",
                CurrencyType::Eventum14 => "圣诞代币",
                CurrencyType::Eventum1 => "法国代币",
                CurrencyType::Eventum2 => "金色代币",
                CurrencyType::Clientum1 => "战斗代币",
                CurrencyType::Clientum2 => " ",
                CurrencyType::ClanResource => "石油",
                CurrencyType::WowsPremium => "高级账号",
                CurrencyType::Slots => "船坞",
            }
        } else if str_eq(lang, "en") {
            match self {
                CurrencyType::Credits => "Credits",
                CurrencyType::Gold => "Doubloons",
                CurrencyType::FreeXp => "Free XP",
                CurrencyType::EliteXp => "Elite Commander XP",
                CurrencyType::ParagonXp => "Research Points",
                CurrencyType::Steel => "Steel",
                CurrencyType::Coal => "Coal",
                CurrencyType::Molybdenum => "Clan Tokens",
                CurrencyType::Brass => " ",
                CurrencyType::Saltpeter => "Portal Chips",
                CurrencyType::RecruitmentPoints => "Community Tokens",
                CurrencyType::Eventum3 => "Commonwealth Tokens",
                CurrencyType::Eventum4 => "Independence Tokens",
                CurrencyType::Eventum5 => "Britannia Tokens",
                CurrencyType::Eventum6 => "Colorful Tokens",
                CurrencyType::Eventum7 => "Football Tokens",
                CurrencyType::Eventum8 => "Summer Tokens",
                CurrencyType::Eventum9 => "Navigator Tokens",
                CurrencyType::Eventum10 => "New Year Certificates",
                CurrencyType::EventumCn => "Supply Vouchers",
                CurrencyType::Santium => "Volunteer Tokens",
                CurrencyType::Dockyardum1 => "Shipbuilding phases",
                CurrencyType::Dockyardum2 => "Shipbuilding phases",
                CurrencyType::Eventum11 => "Blue Archive Tokens",
                CurrencyType::Eventum12 => "Enterprise Tokens",
                CurrencyType::Eventum13 => "Festive Certificates",
                CurrencyType::Eventum14 => "Christmas Tokens",
                CurrencyType::Eventum1 => "French Tokens",
                CurrencyType::Eventum2 => "Golden Tokens",
                CurrencyType::Clientum1 => "Battle Tokens",
                CurrencyType::Clientum2 => " ",
                CurrencyType::ClanResource => "Oil",
                CurrencyType::WowsPremium => "Premium Account",
                CurrencyType::Slots => "Ship Slot",
            }
        } else {
            "Unknown"
        }
    }
}

/// One currency's resolved display data.
#[derive(Debug, Clone)]
pub struct CurrencyData {
    pub currency: CurrencyType,
    pub name: String,
    pub icon: String,
}

} // verus!
