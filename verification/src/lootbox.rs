//! The reward catalog: one loot box, its slots, reward pools and rewards.
//!
//! Probabilities are fixed-point fractions of one: a probability `p` stands
//! for `p / PROB_SCALE`, so `PROB_SCALE` is certainty.  Catalog validation
//! checks the two probability budgets (each pool against its declared
//! probability, each slot against one) within `PROB_TOLERANCE`, and that a
//! unique-flagged pool can always hand something out.

use vstd::prelude::*;

verus! {

/// The fixed-point value that stands for probability one.
pub const PROB_SCALE: u64 = 1000000;

/// Allowed drift between a declared probability and the sum of its parts
/// (one hundredth of one).
pub const PROB_TOLERANCE: u64 = 10000;

/// Base data of the ship a skin or permanent camouflage belongs to.
#[derive(Debug)]
pub struct SkinShipBaseData {
    pub id: u64,
    pub name: String,
    pub ship_level: u8,
    pub is_premium: bool,
    pub is_special: bool,
    pub icon: String,
}

/// Which ships a multiboost package may be mounted on.
#[derive(Debug)]
pub struct MultiboostRestriction {
    pub levels: Vec<u8>,
}

/// One reward a loot box can hand out: currencies carry no payload, complex
/// rewards carry a numeric id and display data.
#[derive(Debug)]
pub enum LootBoxRewardType {
    Credits,
    Gold,
    FreeXp,
    EliteXp,
    ParagonXp,
    Steel,
    Coal,
    Molybdenum,
    Brass,
    Saltpeter,
    RecruitmentPoints,
    Eventum3,
    Eventum4,
    Eventum5,
    Eventum6,
    Eventum7,
    Eventum8,
    Eventum9,
    Eventum10,
    EventumCn,
    Santium,
    Dockyardum1,
    Dockyardum2,
    Eventum11,
    Eventum12,
    Eventum13,
    Eventum14,
    Eventum1,
    Eventum2,
    Clientum1,
    Clientum2,
    ClanResource,
    Slots,
    WowsPremium,
    CamoBoost { id: u64 },
    CollectionAlbum { id: u64 },
    Signal { id: u64, name: String },
    Ship {
        crew_level: Option<u8>,
        ship_level: u8,
        id: u64,
        name: String,
        is_premium: bool,
        is_special: bool,
        icon: String,
    },
    Skin {
        id: u64,
        ship_id: u64,
        only_silver: bool,
        icon: String,
        name: String,
        ship: SkinShipBaseData,
    },
    Camouflage { id: u64, name: String, icon: String },
    Permoflage {
        id: u64,
        name: String,
        icon: String,
        is_native: bool,
        ship_id: u64,
        only_silver: bool,
        ship: SkinShipBaseData,
    },
    Mskin {
        id: u64,
        name: String,
        icon: String,
        ship_id: u64,
        only_silver: bool,
        ship: SkinShipBaseData,
    },
    Style { id: u64 },
    Crew {
        id: u64,
        ship_id: u64,
        crew_level: u8,
        name: String,
        icon: String,
    },
    Multiboost {
        id: u64,
        name: String,
        icon: String,
        restrictions: MultiboostRestriction,
    },
    Ensign { id: u64, name: String, icon: String },
    Lootbox { id: u64, name: String, icon: String },
}

/// Mathematical image of `SkinShipBaseData`.
pub struct SkinShipView {
    pub id: u64,
    pub name: Seq<char>,
    pub ship_level: u8,
    pub is_premium: bool,
    pub is_special: bool,
    pub icon: Seq<char>,
}

/// Mathematical image of `MultiboostRestriction`.
pub struct RestrictionView {
    pub levels: Seq<u8>,
}

/// Mathematical image of `LootBoxRewardType`: the same shape with strings as
/// character sequences, so that contracts compare rewards by value.
pub enum RewardTypeView {
    Credits,
    Gold,
    FreeXp,
    EliteXp,
    ParagonXp,
    Steel,
    Coal,
    Molybdenum,
    Brass,
    Saltpeter,
    RecruitmentPoints,
    Eventum3,
    Eventum4,
    Eventum5,
    Eventum6,
    Eventum7,
    Eventum8,
    Eventum9,
    Eventum10,
    EventumCn,
    Santium,
    Dockyardum1,
    Dockyardum2,
    Eventum11,
    Eventum12,
    Eventum13,
    Eventum14,
    Eventum1,
    Eventum2,
    Clientum1,
    Clientum2,
    ClanResource,
    Slots,
    WowsPremium,
    CamoBoost { id: u64 },
    CollectionAlbum { id: u64 },
    Signal { id: u64, name: Seq<char> },
    Ship {
        crew_level: Option<u8>,
        ship_level: u8,
        id: u64,
        name: Seq<char>,
        is_premium: bool,
        is_special: bool,
        icon: Seq<char>,
    },
    Skin {
        id: u64,
        ship_id: u64,
        only_silver: bool,
        icon: Seq<char>,
        name: Seq<char>,
        ship: SkinShipView,
    },
    Camouflage { id: u64, name: Seq<char>, icon: Seq<char> },
    Permoflage {
        id: u64,
        name: Seq<char>,
        icon: Seq<char>,
        is_native: bool,
        ship_id: u64,
        only_silver: bool,
        ship: SkinShipView,
    },
    Mskin {
        id: u64,
        name: Seq<char>,
        icon: Seq<char>,
        ship_id: u64,
        only_silver: bool,
        ship: SkinShipView,
    },
    Style { id: u64 },
    Crew {
        id: u64,
        ship_id: u64,
        crew_level: u8,
        name: Seq<char>,
        icon: Seq<char>,
    },
    Multiboost {
        id: u64,
        name: Seq<char>,
        icon: Seq<char>,
        restrictions: RestrictionView,
    },
    Ensign { id: u64, name: Seq<char>, icon: Seq<char> },
    Lootbox { id: u64, name: Seq<char>, icon: Seq<char> },
}

impl View for SkinShipBaseData {
    type V = SkinShipView;

    open spec fn view(&self) -> SkinShipView {
        SkinShipView {
            id: self.id,
            name: self.name@,
            ship_level: self.ship_level,
            is_premium: self.is_premium,
            is_special: self.is_special,
            icon: self.icon@,
        }
    }
}

impl View for MultiboostRestriction {
    type V = RestrictionView;

    open spec fn view(&self) -> RestrictionView {
        RestrictionView { levels: self.levels@ }
    }
}

impl View for LootBoxRewardType {
    type V = RewardTypeView;

    open spec fn view(&self) -> RewardTypeView {
        match self {
            LootBoxRewardType::Credits => RewardTypeView::Credits,
            LootBoxRewardType::Gold => RewardTypeView::Gold,
            LootBoxRewardType::FreeXp => RewardTypeView::FreeXp,
            LootBoxRewardType::EliteXp => RewardTypeView::EliteXp,
            LootBoxRewardType::ParagonXp => RewardTypeView::ParagonXp,
            LootBoxRewardType::Steel => RewardTypeView::Steel,
            LootBoxRewardType::Coal => RewardTypeView::Coal,
            LootBoxRewardType::Molybdenum => RewardTypeView::Molybdenum,
            LootBoxRewardType::Brass => RewardTypeView::Brass,
            LootBoxRewardType::Saltpeter => RewardTypeView::Saltpeter,
            LootBoxRewardType::RecruitmentPoints => RewardTypeView::RecruitmentPoints,
            LootBoxRewardType::Eventum3 => RewardTypeView::Eventum3,
            LootBoxRewardType::Eventum4 => RewardTypeView::Eventum4,
            LootBoxRewardType::Eventum5 => RewardTypeView::Eventum5,
            LootBoxRewardType::Eventum6 => RewardTypeView::Eventum6,
            LootBoxRewardType::Eventum7 => RewardTypeView::Eventum7,
            LootBoxRewardType::Eventum8 => RewardTypeView::Eventum8,
            LootBoxRewardType::Eventum9 => RewardTypeView::Eventum9,
            LootBoxRewardType::Eventum10 => RewardTypeView::Eventum10,
            LootBoxRewardType::EventumCn => RewardTypeView::EventumCn,
            LootBoxRewardType::Santium => RewardTypeView::Santium,
            LootBoxRewardType::Dockyardum1 => RewardTypeView::Dockyardum1,
            LootBoxRewardType::Dockyardum2 => RewardTypeView::Dockyardum2,
            LootBoxRewardType::Eventum11 => RewardTypeView::Eventum11,
            LootBoxRewardType::Eventum12 => RewardTypeView::Eventum12,
            LootBoxRewardType::Eventum13 => RewardTypeView::Eventum13,
            LootBoxRewardType::Eventum14 => RewardTypeView::Eventum14,
            LootBoxRewardType::Eventum1 => RewardTypeView::Eventum1,
            LootBoxRewardType::Eventum2 => RewardTypeView::Eventum2,
            LootBoxRewardType::Clientum1 => RewardTypeView::Clientum1,
            LootBoxRewardType::Clientum2 => RewardTypeView::Clientum2,
            LootBoxRewardType::ClanResource => RewardTypeView::ClanResource,
            LootBoxRewardType::Slots => RewardTypeView::Slots,
            LootBoxRewardType::WowsPremium => RewardTypeView::WowsPremium,
            LootBoxRewardType::CamoBoost { id } => RewardTypeView::CamoBoost { id: *id },
            LootBoxRewardType::CollectionAlbum { id } => RewardTypeView::CollectionAlbum {
                id: *id,
            },
            LootBoxRewardType::Signal { id, name } => RewardTypeView::Signal {
                id: *id,
                name: name@,
            },
            LootBoxRewardType::Ship {
                crew_level,
                ship_level,
                id,
                name,
                is_premium,
                is_special,
                icon,
            } => RewardTypeView::Ship {
                crew_level: *crew_level,
                ship_level: *ship_level,
                id: *id,
                name: name@,
                is_premium: *is_premium,
                is_special: *is_special,
                icon: icon@,
            },
            LootBoxRewardType::Skin { id, ship_id, only_silver, icon, name, ship } => {
                RewardTypeView::Skin {
                    id: *id,
                    ship_id: *ship_id,
                    only_silver: *only_silver,
                    icon: icon@,
                    name: name@,
                    ship: ship@,
                }
            },
            LootBoxRewardType::Camouflage { id, name, icon } => RewardTypeView::Camouflage {
                id: *id,
                name: name@,
                icon: icon@,
            },
            LootBoxRewardType::Permoflage {
                id,
                name,
                icon,
                is_native,
                ship_id,
                only_silver,
                ship,
            } => RewardTypeView::Permoflage {
                id: *id,
                name: name@,
                icon: icon@,
                is_native: *is_native,
                ship_id: *ship_id,
                only_silver: *only_silver,
                ship: ship@,
            },
            LootBoxRewardType::Mskin { id, name, icon, ship_id, only_silver, ship } => {
                RewardTypeView::Mskin {
                    id: *id,
                    name: name@,
                    icon: icon@,
                    ship_id: *ship_id,
                    only_silver: *only_silver,
                    ship: ship@,
                }
            },
            LootBoxRewardType::Style { id } => RewardTypeView::Style { id: *id },
            LootBoxRewardType::Crew { id, ship_id, crew_level, name, icon } => {
                RewardTypeView::Crew {
                    id: *id,
                    ship_id: *ship_id,
                    crew_level: *crew_level,
                    name: name@,
                    icon: icon@,
                }
            },
            LootBoxRewardType::Multiboost { id, name, icon, restrictions } => {
                RewardTypeView::Multiboost {
                    id: *id,
                    name: name@,
                    icon: icon@,
                    restrictions: restrictions@,
                }
            },
            LootBoxRewardType::Ensign { id, name, icon } => RewardTypeView::Ensign {
                id: *id,
                name: name@,
                icon: icon@,
            },
            LootBoxRewardType::Lootbox { id, name, icon } => RewardTypeView::Lootbox {
                id: *id,
                name: name@,
                icon: icon@,
            },
        }
    }
}

impl Clone for SkinShipBaseData {
    /// An exact copy: the copy has the same view.
    fn clone(&self) -> (res: Self)
        ensures
            res@ == self@,
    {
        SkinShipBaseData {
            id: self.id,
            name: self.name.clone(),
            ship_level: self.ship_level,
            is_premium: self.is_premium,
            is_special: self.is_special,
            icon: self.icon.clone(),
        }
    }
}

impl Clone for MultiboostRestriction {
    /// An exact copy: the copy has the same view.
    fn clone(&self) -> (res: Self)
        ensures
            res@ == self@,
    {
        let levels = self.levels.clone();
        assert(levels@ =~= self.levels@);
        MultiboostRestriction { levels }
    }
}

impl Clone for LootBoxRewardType {
    /// An exact copy: the copy has the same view.
    fn clone(&self) -> (res: Self)
        ensures
            res@ == self@,
    {
        match self {
            LootBoxRewardType::Credits => LootBoxRewardType::Credits,
            LootBoxRewardType::Gold => LootBoxRewardType::Gold,
            LootBoxRewardType::FreeXp => LootBoxRewardType::FreeXp,
            LootBoxRewardType::EliteXp => LootBoxRewardType::EliteXp,
            LootBoxRewardType::ParagonXp => LootBoxRewardType::ParagonXp,
            LootBoxRewardType::Steel => LootBoxRewardType::Steel,
            LootBoxRewardType::Coal => LootBoxRewardType::Coal,
            LootBoxRewardType::Molybdenum => LootBoxRewardType::Molybdenum,
            LootBoxRewardType::Brass => LootBoxRewardType::Brass,
            LootBoxRewardType::Saltpeter => LootBoxRewardType::Saltpeter,
            LootBoxRewardType::RecruitmentPoints => LootBoxRewardType::RecruitmentPoints,
            LootBoxRewardType::Eventum3 => LootBoxRewardType::Eventum3,
            LootBoxRewardType::Eventum4 => LootBoxRewardType::Eventum4,
            LootBoxRewardType::Eventum5 => LootBoxRewardType::Eventum5,
            LootBoxRewardType::Eventum6 => LootBoxRewardType::Eventum6,
            LootBoxRewardType::Eventum7 => LootBoxRewardType::Eventum7,
            LootBoxRewardType::Eventum8 => LootBoxRewardType::Eventum8,
            LootBoxRewardType::Eventum9 => LootBoxRewardType::Eventum9,
            LootBoxRewardType::Eventum10 => LootBoxRewardType::Eventum10,
            LootBoxRewardType::EventumCn => LootBoxRewardType::EventumCn,
            LootBoxRewardType::Santium => LootBoxRewardType::Santium,
            LootBoxRewardType::Dockyardum1 => LootBoxRewardType::Dockyardum1,
            LootBoxRewardType::Dockyardum2 => LootBoxRewardType::Dockyardum2,
            LootBoxRewardType::Eventum11 => LootBoxRewardType::Eventum11,
            LootBoxRewardType::Eventum12 => LootBoxRewardType::Eventum12,
            LootBoxRewardType::Eventum13 => LootBoxRewardType::Eventum13,
            LootBoxRewardType::Eventum14 => LootBoxRewardType::Eventum14,
            LootBoxRewardType::Eventum1 => LootBoxRewardType::Eventum1,
            LootBoxRewardType::Eventum2 => LootBoxRewardType::Eventum2,
            LootBoxRewardType::Clientum1 => LootBoxRewardType::Clientum1,
            LootBoxRewardType::Clientum2 => LootBoxRewardType::Clientum2,
            LootBoxRewardType::ClanResource => LootBoxRewardType::ClanResource,
            LootBoxRewardType::Slots => LootBoxRewardType::Slots,
            LootBoxRewardType::WowsPremium => LootBoxRewardType::WowsPremium,
            LootBoxRewardType::CamoBoost { id } => LootBoxRewardType::CamoBoost { id: *id },
            LootBoxRewardType::CollectionAlbum { id } => LootBoxRewardType::CollectionAlbum {
                id: *id,
            },
            LootBoxRewardType::Signal { id, name } => LootBoxRewardType::Signal {
                id: *id,
                name: name.clone(),
            },
            LootBoxRewardType::Ship {
                crew_level,
                ship_level,
                id,
                name,
                is_premium,
                is_special,
                icon,
            } => LootBoxRewardType::Ship {
                crew_level: *crew_level,
                ship_level: *ship_level,
                id: *id,
                name: name.clone(),
                is_premium: *is_premium,
                is_special: *is_special,
                icon: icon.clone(),
            },
            LootBoxRewardType::Skin { id, ship_id, only_silver, icon, name, ship } => {
                LootBoxRewardType::Skin {
                    id: *id,
                    ship_id: *ship_id,
                    only_silver: *only_silver,
                    icon: icon.clone(),
                    name: name.clone(),
                    ship: ship.clone(),
                }
            },
            LootBoxRewardType::Camouflage { id, name, icon } => LootBoxRewardType::Camouflage {
                id: *id,
                name: name.clone(),
                icon: icon.clone(),
            },
            LootBoxRewardType::Permoflage {
                id,
                name,
                icon,
                is_native,
                ship_id,
                only_silver,
                ship,
            } => LootBoxRewardType::Permoflage {
                id: *id,
                name: name.clone(),
                icon: icon.clone(),
                is_native: *is_native,
                ship_id: *ship_id,
                only_silver: *only_silver,
                ship: ship.clone(),
            },
            LootBoxRewardType::Mskin { id, name, icon, ship_id, only_silver, ship } => {
                LootBoxRewardType::Mskin {
                    id: *id,
                    name: name.clone(),
                    icon: icon.clone(),
                    ship_id: *ship_id,
                    only_silver: *only_silver,
                    ship: ship.clone(),
                }
            },
            LootBoxRewardType::Style { id } => LootBoxRewardType::Style { id: *id },
            LootBoxRewardType::Crew { id, ship_id, crew_level, name, icon } => {
                LootBoxRewardType::Crew {
                    id: *id,
                    ship_id: *ship_id,
                    crew_level: *crew_level,
                    name: name.clone(),
                    icon: icon.clone(),
                }
            },
            LootBoxRewardType::Multiboost { id, name, icon, restrictions } => {
                LootBoxRewardType::Multiboost {
                    id: *id,
                    name: name.clone(),
                    icon: icon.clone(),
                    restrictions: restrictions.clone(),
                }
            },
            LootBoxRewardType::Ensign { id, name, icon } => LootBoxRewardType::Ensign {
                id: *id,
                name: name.clone(),
                icon: icon.clone(),
            },
            LootBoxRewardType::Lootbox { id, name, icon } => LootBoxRewardType::Lootbox {
                id: *id,
                name: name.clone(),
                icon: icon.clone(),
            },
        }
    }
}

/// The unique id of a reward, if it has one: currencies have none, complex
/// rewards carry theirs.
pub open spec fn spec_get_id(rt: RewardTypeView) -> Option<u64> {
    match rt {
        RewardTypeView::CamoBoost { id } => Some(id),
        RewardTypeView::CollectionAlbum { id } => Some(id),
        RewardTypeView::Signal { id, .. } => Some(id),
        RewardTypeView::Ship { id, .. } => Some(id),
        RewardTypeView::Skin { id, .. } => Some(id),
        RewardTypeView::Camouflage { id, .. } => Some(id),
        RewardTypeView::Permoflage { id, .. } => Some(id),
        RewardTypeView::Mskin { id, .. } => Some(id),
        RewardTypeView::Style { id, .. } => Some(id),
        RewardTypeView::Crew { id, .. } => Some(id),
        RewardTypeView::Multiboost { id, .. } => Some(id),
        RewardTypeView::Ensign { id, .. } => Some(id),
        RewardTypeView::Lootbox { id, .. } => Some(id),
        _ => None,
    }
}

impl LootBoxRewardType {
    /// The unique id of this reward, if it has one.
    pub fn get_id(&self) -> (r: Option<u64>)
        ensures
            r == spec_get_id(self@),
    {
        match self {
            LootBoxRewardType::Credits
            | LootBoxRewardType::Gold
            | LootBoxRewardType::FreeXp
            | LootBoxRewardType::EliteXp
            | LootBoxRewardType::ParagonXp
            | LootBoxRewardType::Steel
            | LootBoxRewardType::Coal
            | LootBoxRewardType::Molybdenum
            | LootBoxRewardType::Brass
            | LootBoxRewardType::Saltpeter
            | LootBoxRewardType::RecruitmentPoints
            | LootBoxRewardType::Eventum3
            | LootBoxRewardType::Eventum4
            | LootBoxRewardType::Eventum5
            | LootBoxRewardType::Eventum6
            | LootBoxRewardType::Eventum7
            | LootBoxRewardType::Eventum8
            | LootBoxRewardType::Eventum9
            | LootBoxRewardType::Eventum10
            | LootBoxRewardType::EventumCn
            | LootBoxRewardType::Santium
            | LootBoxRewardType::Dockyardum1
            | LootBoxRewardType::Dockyardum2
            | LootBoxRewardType::Eventum11
            | LootBoxRewardType::Eventum12
            | LootBoxRewardType::Eventum13
            | LootBoxRewardType::Eventum14
            | LootBoxRewardType::Eventum1
            | LootBoxRewardType::Eventum2
            | LootBoxRewardType::Clientum1
            | LootBoxRewardType::Clientum2
            | LootBoxRewardType::ClanResource
            | LootBoxRewardType::Slots
            | LootBoxRewardType::WowsPremium => None,
            LootBoxRewardType::CamoBoost { id }
            | LootBoxRewardType::CollectionAlbum { id }
            | LootBoxRewardType::Signal { id, .. }
            | LootBoxRewardType::Ship { id, .. }
            | LootBoxRewardType::Skin { id, .. }
            | LootBoxRewardType::Camouflage { id, .. }
            | LootBoxRewardType::Permoflage { id, .. }
            | LootBoxRewardType::Mskin { id, .. }
            | LootBoxRewardType::Style { id, .. }
            | LootBoxRewardType::Crew { id, .. }
            | LootBoxRewardType::Multiboost { id, .. }
            | LootBoxRewardType::Ensign { id, .. }
            | LootBoxRewardType::Lootbox { id, .. } => Some(*id),
        }
    }
}

/// One reward inside a pool, with its in-pool probability and amount.
#[derive(Debug)]
pub struct LootBoxReward {
    pub probability: u64,
    pub amount: u32,
    pub reward: LootBoxRewardType,
}

/// A weighted pool of rewards ("list"), drawn from as one alternative of a
/// slot.
#[derive(Debug)]
pub struct LootBoxRewardList {
    pub name: String,
    pub short_name: String,
    pub probability: u64,
    pub rewards: Vec<LootBoxReward>,
    pub has_unique_rewards: bool,
}

/// One slot of the box; every opening draws exactly one reward from it.
#[derive(Debug)]
pub struct LootBoxSlot {
    pub common: Vec<LootBoxRewardList>,
    pub valuable: Vec<LootBoxRewardList>,
    pub name: String,
    pub continuous_rewards: bool,
}

/// The fallback reward handed out when a unique pool has nothing left.
#[derive(Debug)]
pub struct LootBoxFiller {
    pub filler: LootBoxRewardType,
    pub amount: u32,
}

/// One loot box: its display data, slots, optional filler and optional pity
/// threshold (`save_point`).
#[derive(Debug)]
pub struct LootBox {
    pub name: String,
    pub short_name: String,
    pub wows_name_id: String,
    pub id: u64,
    pub is_premium: bool,
    pub icon: String,
    pub slots: Vec<LootBoxSlot>,
    pub filler: Option<LootBoxFiller>,
    pub save_point: Option<u32>,
}

/// Mathematical image of `LootBoxReward`.
pub struct RewardView {
    pub probability: u64,
    pub amount: u32,
    pub reward: RewardTypeView,
}

/// Mathematical image of `LootBoxRewardList`.
pub struct PoolView {
    pub name: Seq<char>,
    pub short_name: Seq<char>,
    pub probability: u64,
    pub rewards: Seq<RewardView>,
    pub has_unique_rewards: bool,
}

/// Mathematical image of `LootBoxSlot`.
pub struct SlotView {
    pub common: Seq<PoolView>,
    pub valuable: Seq<PoolView>,
    pub name: Seq<char>,
    pub continuous_rewards: bool,
}

/// Mathematical image of `LootBoxFiller`.
pub struct FillerView {
    pub filler: RewardTypeView,
    pub amount: u32,
}

/// Mathematical image of `LootBox`.
pub struct BoxView {
    pub name: Seq<char>,
    pub short_name: Seq<char>,
    pub wows_name_id: Seq<char>,
    pub id: u64,
    pub is_premium: bool,
    pub icon: Seq<char>,
    pub slots: Seq<SlotView>,
    pub filler: Option<FillerView>,
    pub save_point: Option<u32>,
}

/// The views of a sequence of pools.
pub open spec fn pools_view(v: Seq<LootBoxRewardList>) -> Seq<PoolView> {
    v.map_values(|p: LootBoxRewardList| p@)
}

impl View for LootBoxReward {
    type V = RewardView;

    open spec fn view(&self) -> RewardView {
        RewardView { probability: self.probability, amount: self.amount, reward: self.reward@ }
    }
}

impl View for LootBoxRewardList {
    type V = PoolView;

    open spec fn view(&self) -> PoolView {
        PoolView {
            name: self.name@,
            short_name: self.short_name@,
            probability: self.probability,
            rewards: self.rewards@.map_values(|r: LootBoxReward| r@),
            has_unique_rewards: self.has_unique_rewards,
        }
    }
}

impl View for LootBoxSlot {
    type V = SlotView;

    open spec fn view(&self) -> SlotView {
        SlotView {
            common: pools_view(self.common@),
            valuable: pools_view(self.valuable@),
            name: self.name@,
            continuous_rewards: self.continuous_rewards,
        }
    }
}

impl View for LootBoxFiller {
    type V = FillerView;

    open spec fn view(&self) -> FillerView {
        FillerView { filler: self.filler@, amount: self.amount }
    }
}

impl View for LootBox {
    type V = BoxView;

    open spec fn view(&self) -> BoxView {
        BoxView {
            name: self.name@,
            short_name: self.short_name@,
            wows_name_id: self.wows_name_id@,
            id: self.id,
            is_premium: self.is_premium,
            icon: self.icon@,
            slots: self.slots@.map_values(|s: LootBoxSlot| s@),
            filler: match self.filler {
                Option::Some(ref f) => Option::Some(f@),
                Option::None => Option::None,
            },
            save_point: self.save_point,
        }
    }
}

/// Why a catalog is rejected, or why a simulation call fails.
#[derive(Debug, Clone, Copy, PartialEq, Eq, Structural)]
pub enum ConfigError {
    /// A pool's reward probabilities do not sum to its declared probability,
    /// or a slot's pool probabilities do not sum to one, within tolerance.
    ProbabilityMismatch,
    /// A unique-flagged pool has no reward candidates and no filler is
    /// configured to cover exhaustion.
    UnsatisfiableUniquePool,
    /// A draw reached a state no validated catalog should produce, such as a
    /// unique pool exhausted mid-run with no filler configured.
    RuntimeInvariantViolation,
}

/// Sum of the probabilities of a pool's rewards.
pub open spec fn sum_reward_probs(rs: Seq<RewardView>) -> int
    decreases rs.len(),
{
    if rs.len() == 0 {
        0
    } else {
        sum_reward_probs(rs.drop_last()) + rs.last().probability
    }
}

/// Sum of the declared probabilities of a sequence of pools.
pub open spec fn sum_pool_probs(ps: Seq<PoolView>) -> int
    decreases ps.len(),
{
    if ps.len() == 0 {
        0
    } else {
        sum_pool_probs(ps.drop_last()) + ps.last().probability
    }
}

pub proof fn lemma_sum_pool_probs_nonneg(ps: Seq<PoolView>)
    ensures
        sum_pool_probs(ps) >= 0,
    decreases ps.len(),
{
    if ps.len() > 0 {
        lemma_sum_pool_probs_nonneg(ps.drop_last());
    }
}

pub proof fn lemma_sum_pool_probs_append(a: Seq<PoolView>, b: Seq<PoolView>)
    ensures
        sum_pool_probs(a + b) == sum_pool_probs(a) + sum_pool_probs(b),
    decreases b.len(),
{
    if b.len() == 0 {
        assert(a + b =~= a);
    } else {
        assert((a + b).drop_last() =~= a + b.drop_last());
        lemma_sum_pool_probs_append(a, b.drop_last());
    }
}

/// A pool is well-formed: every probability is a fraction of one, and the
/// rewards' probabilities sum to the pool's declared probability within
/// tolerance.
pub open spec fn pool_valid(p: PoolView) -> bool {
    &&& p.probability <= PROB_SCALE
    &&& forall|i: int|
        0 <= i < p.rewards.len() ==> (#[trigger] p.rewards[i]).probability <= PROB_SCALE
    &&& p.probability - PROB_TOLERANCE <= sum_reward_probs(p.rewards) <= p.probability
        + PROB_TOLERANCE
}

/// All pools of a slot, common first, then valuable: the order an ordinary
/// draw walks them in.
pub open spec fn slot_pools(s: SlotView) -> Seq<PoolView> {
    s.common + s.valuable
}

/// A slot is well-formed: its pools are, and their declared probabilities
/// sum to one within tolerance (the budget of one ordinary draw).
pub open spec fn slot_valid(s: SlotView) -> bool {
    &&& forall|i: int| 0 <= i < slot_pools(s).len() ==> pool_valid(#[trigger] slot_pools(s)[i])
    &&& PROB_SCALE - PROB_TOLERANCE <= sum_pool_probs(slot_pools(s)) <= PROB_SCALE
        + PROB_TOLERANCE
}

/// Both probability budgets hold everywhere in the catalog.
pub open spec fn probabilities_valid(b: BoxView) -> bool {
    forall|i: int| 0 <= i < b.slots.len() ==> slot_valid(#[trigger] b.slots[i])
}

/// Every unique-flagged pool has at least one candidate, or the catalog has
/// a filler to fall back on.
pub open spec fn unique_pools_satisfiable(b: BoxView) -> bool {
    forall|i: int, j: int|
        0 <= i < b.slots.len() && 0 <= j < slot_pools(b.slots[i]).len() && (#[trigger] slot_pools(
            b.slots[i],
        )[j]).has_unique_rewards ==> slot_pools(b.slots[i])[j].rewards.len() > 0 || b.filler
            is Some
}

/// A catalog fit for simulation.
pub open spec fn box_valid(b: BoxView) -> bool {
    probabilities_valid(b) && unique_pools_satisfiable(b)
}

/// What validation answers for a catalog: probability budgets are checked
/// first, then unique-pool satisfiability.
pub open spec fn spec_validate(b: BoxView) -> Result<(), ConfigError> {
    if !probabilities_valid(b) {
        Err(ConfigError::ProbabilityMismatch)
    } else if !unique_pools_satisfiable(b) {
        Err(ConfigError::UnsatisfiableUniquePool)
    } else {
        Ok(())
    }
}

/// Checks one pool's probability budget.
fn pool_probs_ok(pool: &LootBoxRewardList) -> (b: bool)
    ensures
        b == pool_valid(pool@),
{
    if pool.probability > PROB_SCALE {
        return false;
    }
    let n = pool.rewards.len();
    let mut acc: u128 = 0;
    let mut i: usize = 0;
    while i < n
        invariant
            i <= n,
            n == pool.rewards.len(),
            forall|k: int| 0 <= k < i ==> (#[trigger] pool@.rewards[k]).probability <= PROB_SCALE,
            acc == sum_reward_probs(pool@.rewards.take(i as int)),
            acc <= i * (PROB_SCALE as int),
        decreases n - i,
    {
        let p = pool.rewards[i].probability;
        if p > PROB_SCALE {
            assert(pool@.rewards[i as int].probability > PROB_SCALE);
            return false;
        }
        proof {
            assert(pool@.rewards.take(i + 1).drop_last() =~= pool@.rewards.take(i as int));
            assert(pool@.rewards.take(i + 1).last() == pool@.rewards[i as int]);
        }
        acc = acc + (p as u128);
        i = i + 1;
    }
    proof {
        assert(pool@.rewards.take(n as int) =~= pool@.rewards);
    }
    let declared = pool.probability as u128;
    let tol = PROB_TOLERANCE as u128;
    if acc >= declared {
        acc - declared <= tol
    } else {
        declared - acc <= tol
    }
}

/// Checks one slot's probability budget and those of all its pools.
fn slot_probs_ok(slot: &LootBoxSlot) -> (b: bool)
    ensures
        b == slot_valid(slot@),
{
    let cn = slot.common.len();
    let vn = slot.valuable.len();
    let mut acc: u128 = 0;
    let mut i: usize = 0;
    while i < cn
        invariant
            i <= cn,
            cn == slot.common.len(),
            forall|k: int| 0 <= k < i ==> pool_valid(#[trigger] slot@.common[k]),
            acc == sum_pool_probs(slot@.common.take(i as int)),
            acc <= i * (PROB_SCALE as int),
        decreases cn - i,
    {
        if !pool_probs_ok(&slot.common[i]) {
            proof {
                assert(slot_pools(slot@)[i as int] == slot@.common[i as int]);
            }
            return false;
        }
        proof {
            assert(slot@.common.take(i + 1).drop_last() =~= slot@.common.take(i as int));
        }
        acc = acc + (slot.common[i].probability as u128);
        i = i + 1;
    }
    proof {
        assert(slot@.common.take(cn as int) =~= slot@.common);
    }
    let mut j: usize = 0;
    while j < vn
        invariant
            j <= vn,
            cn == slot.common.len(),
            vn == slot.valuable.len(),
            forall|k: int| 0 <= k < cn ==> pool_valid(#[trigger] slot@.common[k]),
            forall|k: int| 0 <= k < j ==> pool_valid(#[trigger] slot@.valuable[k]),
            acc == sum_pool_probs(slot@.common) + sum_pool_probs(slot@.valuable.take(j as int)),
            acc <= (cn + j) * (PROB_SCALE as int),
        decreases vn - j,
    {
        if !pool_probs_ok(&slot.valuable[j]) {
            proof {
                assert(slot_pools(slot@)[cn + j] == slot@.valuable[j as int]);
            }
            return false;
        }
        proof {
            assert(slot@.valuable.take(j + 1).drop_last() =~= slot@.valuable.take(j as int));
        }
        acc = acc + (slot.valuable[j].probability as u128);
        j = j + 1;
    }
    proof {
        assert(slot@.valuable.take(vn as int) =~= slot@.valuable);
        lemma_sum_pool_probs_append(slot@.common, slot@.valuable);
        assert forall|i2: int| 0 <= i2 < slot_pools(slot@).len() implies pool_valid(
            #[trigger] slot_pools(slot@)[i2],
        ) by {
            if i2 < cn {
                assert(slot_pools(slot@)[i2] == slot@.common[i2]);
            } else {
                assert(slot_pools(slot@)[i2] == slot@.valuable[i2 - cn]);
            }
        }
    }
    let low = (PROB_SCALE - PROB_TOLERANCE) as u128;
    let high = (PROB_SCALE + PROB_TOLERANCE) as u128;
    low <= acc && acc <= high
}

/// Rejects a catalog whose probability budgets are off, or that has a
/// unique-flagged pool with no candidates and no filler to cover it.
/// Validation looks only at the catalog, so the same catalog always gets the
/// same answer.
pub fn validate(data: &LootBox) -> (r: Result<(), ConfigError>)
    ensures
        r == spec_validate(data@),
        r is Ok <==> box_valid(data@),
{
    let sn = data.slots.len();
    let mut i: usize = 0;
    while i < sn
        invariant
            i <= sn,
            sn == data.slots.len(),
            forall|k: int| 0 <= k < i ==> slot_valid(#[trigger] data@.slots[k]),
        decreases sn - i,
    {
        if !slot_probs_ok(&data.slots[i]) {
            assert(!slot_valid(data@.slots[i as int]));
            return Err(ConfigError::ProbabilityMismatch);
        }
        i = i + 1;
    }
    assert(probabilities_valid(data@));
    let has_filler = data.filler.is_some();
    assert(has_filler == (data@.filler is Some));
    let mut s: usize = 0;
    while s < sn
        invariant
            s <= sn,
            sn == data.slots.len(),
            probabilities_valid(data@),
            has_filler == (data@.filler is Some),
            forall|k: int, j: int|
                0 <= k < s && 0 <= j < slot_pools(data@.slots[k]).len() && (#[trigger] slot_pools(
                    data@.slots[k],
                )[j]).has_unique_rewards ==> slot_pools(data@.slots[k])[j].rewards.len() > 0
                    || data@.filler is Some,
        decreases sn - s,
    {
        let slot = &data.slots[s];
        let cn = slot.common.len();
        let vn = slot.valuable.len();
        let mut j: usize = 0;
        while j < cn
            invariant
                j <= cn,
                cn == slot.common.len(),
                slot == &data.slots[s as int],
                s < sn == data.slots.len(),
                probabilities_valid(data@),
                has_filler == (data@.filler is Some),
                forall|k: int|
                    0 <= k < j && (#[trigger] slot@.common[k]).has_unique_rewards
                        ==> slot@.common[k].rewards.len() > 0 || data@.filler is Some,
            decreases cn - j,
        {
            if slot.common[j].has_unique_rewards && slot.common[j].rewards.len() == 0
                && !has_filler {
                proof {
                    assert(slot_pools(data@.slots[s as int])[j as int] == slot@.common[j as int]);
                    assert(!unique_pools_satisfiable(data@));
                }
                return Err(ConfigError::UnsatisfiableUniquePool);
            }
            j = j + 1;
        }
        let mut v: usize = 0;
        while v < vn
            invariant
                v <= vn,
                cn == slot.common.len(),
                vn == slot.valuable.len(),
                slot == &data.slots[s as int],
                s < sn == data.slots.len(),
                probabilities_valid(data@),
                has_filler == (data@.filler is Some),
                forall|k: int|
                    0 <= k < cn && (#[trigger] slot@.common[k]).has_unique_rewards
                        ==> slot@.common[k].rewards.len() > 0 || data@.filler is Some,
                forall|k: int|
                    0 <= k < v && (#[trigger] slot@.valuable[k]).has_unique_rewards
                        ==> slot@.valuable[k].rewards.len() > 0 || data@.filler is Some,
            decreases vn - v,
        {
            if slot.valuable[v].has_unique_rewards && slot.valuable[v].rewards.len() == 0
                && !has_filler {
                proof {
                    assert(slot_pools(data@.slots[s as int])[cn + v] == slot@.valuable[v as int]);
                    assert(!unique_pools_satisfiable(data@));
                }
                return Err(ConfigError::UnsatisfiableUniquePool);
            }
            v = v + 1;
        }
        proof {
            assert forall|j2: int|
                0 <= j2 < slot_pools(data@.slots[s as int]).len() && (#[trigger] slot_pools(
                    data@.slots[s as int],
                )[j2]).has_unique_rewards implies slot_pools(data@.slots[s as int])[j2].rewards.len()
                > 0 || data@.filler is Some by {
                if j2 < cn {
                    assert(slot_pools(data@.slots[s as int])[j2] == slot@.common[j2]);
                } else {
                    assert(slot_pools(data@.slots[s as int])[j2] == slot@.valuable[j2 - cn]);
                }
            }
        }
        s = s + 1;
    }
    assert(unique_pools_satisfiable(data@));
    Ok(())
}

/// Probability conservation: in a catalog that validation accepts, every
/// pool's reward probabilities sum to the pool's declared probability within
/// tolerance.
pub proof fn lemma_pool_probability_conserved(b: BoxView)
    requires
        box_valid(b),
    ensures
        forall|i: int, j: int|
            0 <= i < b.slots.len() && 0 <= j < slot_pools(b.slots[i]).len() ==> {
                let p = #[trigger] slot_pools(b.slots[i])[j];
                p.probability - PROB_TOLERANCE <= sum_reward_probs(p.rewards) <= p.probability
                    + PROB_TOLERANCE
            },
{
    assert forall|i: int, j: int|
        0 <= i < b.slots.len() && 0 <= j < slot_pools(b.slots[i]).len() implies {
        let p = #[trigger] slot_pools(b.slots[i])[j];
        p.probability - PROB_TOLERANCE <= sum_reward_probs(p.rewards) <= p.probability
            + PROB_TOLERANCE
    } by {
        assert(slot_valid(b.slots[i]));
        assert(pool_valid(slot_pools(b.slots[i])[j]));
    }
}

/// Budget conservation: in a catalog that validation accepts, the declared
/// probabilities of every slot's pools (common and valuable together) sum to
/// one within tolerance.
pub proof fn lemma_slot_budget_conserved(b: BoxView)
    requires
        box_valid(b),
    ensures
        forall|i: int|
            0 <= i < b.slots.len() ==> PROB_SCALE - PROB_TOLERANCE <= sum_pool_probs(
                slot_pools(#[trigger] b.slots[i]),
            ) <= PROB_SCALE + PROB_TOLERANCE,
{
    assert forall|i: int|
        0 <= i < b.slots.len() implies PROB_SCALE - PROB_TOLERANCE <= sum_pool_probs(
        slot_pools(#[trigger] b.slots[i]),
    ) <= PROB_SCALE + PROB_TOLERANCE by {
        assert(slot_valid(b.slots[i]));
    }
}

/// Idempotent validation: what validation answers is a function of the
/// catalog alone, so asking twice gives the same accept or reject answer.
pub proof fn lemma_validate_idempotent(
    b: BoxView,
    r1: Result<(), ConfigError>,
    r2: Result<(), ConfigError>,
)
    requires
        r1 == spec_validate(b),
        r2 == spec_validate(b),
    ensures
        r1 == r2,
{
}

/// The bit a "special" flag contributes to a tie-break key.
pub open spec fn special_bit(b: bool) -> int {
    if b {
        0x100000000000000
    } else {
        0
    }
}

/// The bit a "premium" flag contributes to a tie-break key.
pub open spec fn premium_bit(b: bool) -> int {
    if b {
        0x1000000000000
    } else {
        0
    }
}

/// The crew level carried by a ship reward, zero when absent.
pub open spec fn crew_val(c: Option<u8>) -> int {
    match c {
        Option::Some(l) => l as int,
        Option::None => 0,
    }
}

/// Tie-break key derived from a skin id and its ship's rarity flags and
/// level.
pub open spec fn spec_ship_seq(id: u64, ship: SkinShipView) -> int {
    (special_bit(ship.is_special) + premium_bit(ship.is_premium) + (ship.ship_level as int)
        * 0x10000000000 + (id as int % 0x10000000000) * 0x1000000) / 0x1000000
}

/// Whether the skin tie-break key fits the key's machine word.
pub open spec fn ship_seq_defined(id: u64, ship: SkinShipView) -> bool {
    special_bit(ship.is_special) + premium_bit(ship.is_premium) + (ship.ship_level as int)
        * 0x10000000000 + (id as int % 0x10000000000) * 0x1000000 <= u64::MAX
}

/// The largest level in a list, zero for an empty list.
pub open spec fn seq_u8_max(s: Seq<u8>) -> u8
    decreases s.len(),
{
    if s.len() == 0 {
        0u8
    } else {
        let m = seq_u8_max(s.drop_last());
        if s.last() > m {
            s.last()
        } else {
            m
        }
    }
}

/// Whether the precedence key of a reward fits its machine word.
pub open spec fn spec_precedence_defined(rt: RewardTypeView) -> bool {
    match rt {
        RewardTypeView::Skin { id, ship, .. } => ship_seq_defined(id, ship),
        RewardTypeView::Permoflage { id, ship, .. } => ship_seq_defined(id, ship),
        RewardTypeView::Mskin { id, ship, .. } => ship_seq_defined(id, ship),
        _ => true,
    }
}

/// The precedence key of a reward: a primary category rank and an optional
/// tie-break, used only to order reported results deterministically.
pub open spec fn spec_precedence(rt: RewardTypeView) -> (u32, Option<u64>) {
    match rt {
        RewardTypeView::Lootbox { id, .. } => (0u32, Option::Some(id)),
        RewardTypeView::Ship { crew_level, ship_level, id, is_premium, is_special, .. } => (
            1u32,
            Option::Some(
                (special_bit(is_special) + premium_bit(is_premium) + (ship_level as int)
                    * 0x10000000000 + crew_val(crew_level) * 0x100000000 + id as int
                    % 0x100000000) as u64,
            ),
        ),
        RewardTypeView::Ensign { id, .. } => (2u32, Option::Some(id)),
        RewardTypeView::Skin { id, ship, .. } => (
            3u32,
            Option::Some(spec_ship_seq(id, ship) as u64),
        ),
        RewardTypeView::Permoflage { id, ship, .. } => (
            4u32,
            Option::Some(spec_ship_seq(id, ship) as u64),
        ),
        RewardTypeView::Mskin { id, ship, .. } => (
            5u32,
            Option::Some(spec_ship_seq(id, ship) as u64),
        ),
        RewardTypeView::Crew { id, crew_level, .. } => (
            6u32,
            Option::Some(
                ((crew_level as int) * 0x100000000000000 + id as int % 0x100000000000000) as u64,
            ),
        ),
        RewardTypeView::Multiboost { id, restrictions, .. } => (
            7u32,
            Option::Some(
                ((seq_u8_max(restrictions.levels) as int) * 0x100000000000000 + id as int
                    % 0x100000000000000) as u64,
            ),
        ),
        RewardTypeView::Steel => (8u32, Option::None),
        RewardTypeView::Gold => (9u32, Option::None),
        RewardTypeView::ParagonXp => (10u32, Option::None),
        RewardTypeView::Coal => (12u32, Option::None),
        RewardTypeView::FreeXp => (13u32, Option::None),
        RewardTypeView::EliteXp => (14u32, Option::None),
        RewardTypeView::RecruitmentPoints => (15u32, Option::None),
        RewardTypeView::WowsPremium => (16u32, Option::None),
        RewardTypeView::Slots => (17u32, Option::None),
        RewardTypeView::Credits => (18u32, Option::None),
        RewardTypeView::CamoBoost { id } => (19u32, Option::Some(id)),
        RewardTypeView::CollectionAlbum { id } => (20u32, Option::Some(id)),
        RewardTypeView::Signal { id, .. } => (21u32, Option::Some(id)),
        RewardTypeView::Camouflage { id, .. } => (22u32, Option::Some(id)),
        RewardTypeView::Style { id } => (23u32, Option::Some(id)),
        _ => (11u32, Option::None),
    }
}

/// Tie-break key for a skin-like reward, from its id and its ship.
fn id_and_ship_seq(id: u64, ship: &SkinShipBaseData) -> (r: u64)
    requires
        ship_seq_defined(id, ship@),
    ensures
        r as int == spec_ship_seq(id, ship@),
{
    let special: u64 = if ship.is_special {
        0x100000000000000
    } else {
        0
    };
    let premium: u64 = if ship.is_premium {
        0x1000000000000
    } else {
        0
    };
    let level: u64 = (ship.ship_level as u64) * 0x10000000000;
    let idpart: u64 = (id % 0x10000000000) * 0x1000000;
    (special + premium + level + idpart) / 0x1000000
}

/// The largest level a multiboost restriction names.
fn max_level(levels: &Vec<u8>) -> (r: u8)
    ensures
        r == seq_u8_max(levels@),
{
    let n = levels.len();
    let mut m: u8 = 0;
    let mut i: usize = 0;
    while i < n
        invariant
            i <= n,
            n == levels.len(),
            m == seq_u8_max(levels@.take(i as int)),
        decreases n - i,
    {
        proof {
            assert(levels@.take(i + 1).drop_last() =~= levels@.take(i as int));
        }
        if levels[i] > m {
            m = levels[i];
        }
        i = i + 1;
    }
    proof {
        assert(levels@.take(n as int) =~= levels@);
    }
    m
}

impl LootBoxRewardType {
    /// The precedence key of this reward, used by reporting to order results
    /// deterministically.
    pub fn as_precedence(&self) -> (r: (u32, Option<u64>))
        requires
            spec_precedence_defined(self@),
        ensures
            r == spec_precedence(self@),
    {
        match self {
            LootBoxRewardType::Lootbox { id, .. } => (0, Some(*id)),
            LootBoxRewardType::Ship {
                crew_level,
                ship_level,
                is_premium,
                is_special,
                id,
                ..
            } => {
                let special: u64 = if *is_special {
                    0x100000000000000
                } else {
                    0
                };
                let premium: u64 = if *is_premium {
                    0x1000000000000
                } else {
                    0
                };
                let level: u64 = (*ship_level as u64) * 0x10000000000;
                let crew: u64 = match crew_level {
                    Some(c) => (*c as u64) * 0x100000000,
                    None => 0,
                };
                (1, Some(special + premium + level + crew + id % 0x100000000))
            },
            LootBoxRewardType::Ensign { id, .. } => (2, Some(*id)),
            LootBoxRewardType::Skin { id, ship, .. } => (3, Some(id_and_ship_seq(*id, ship))),
            LootBoxRewardType::Permoflage { id, ship, .. } => (
                4,
                Some(id_and_ship_seq(*id, ship)),
            ),
            LootBoxRewardType::Mskin { id, ship, .. } => (5, Some(id_and_ship_seq(*id, ship))),
            LootBoxRewardType::Crew { id, crew_level, .. } => (
                6,
                Some((*crew_level as u64) * 0x100000000000000 + id % 0x100000000000000),
            ),
            LootBoxRewardType::Multiboost { id, restrictions, .. } => (
                7,
                Some(
                    (max_level(&restrictions.levels) as u64) * 0x100000000000000 + id
                        % 0x100000000000000,
                ),
            ),
            LootBoxRewardType::Steel => (8, None),
            LootBoxRewardType::Gold => (9, None),
            LootBoxRewardType::ParagonXp => (10, None),
            LootBoxRewardType::Coal => (12, None),
            LootBoxRewardType::FreeXp => (13, None),
            LootBoxRewardType::EliteXp => (14, None),
            LootBoxRewardType::RecruitmentPoints => (15, None),
            LootBoxRewardType::WowsPremium => (16, None),
            LootBoxRewardType::Slots => (17, None),
            LootBoxRewardType::Credits => (18, None),
            LootBoxRewardType::CamoBoost { id } => (19, Some(*id)),
            LootBoxRewardType::CollectionAlbum { id } => (20, Some(*id)),
            LootBoxRewardType::Signal { id, .. } => (21, Some(*id)),
            LootBoxRewardType::Camouflage { id, .. } => (22, Some(*id)),
            LootBoxRewardType::Style { id } => (23, Some(*id)),
            _ => (11, None),
        }
    }
}

/// Compares two level lists by value.
fn eq_levels(a: &Vec<u8>, b: &Vec<u8>) -> (r: bool)
    ensures
        r == (a@ == b@),
{
    let n = a.len();
    if n != b.len() {
        return false;
    }
    let mut i: usize = 0;
    while i < n
        invariant
            i <= n,
            n == a.len() == b.len(),
            forall|k: int| 0 <= k < i ==> a@[k] == b@[k],
        decreases n - i,
    {
        if a[i] != b[i] {
            return false;
        }
        i = i + 1;
    }
    proof {
        assert(a@ =~= b@);
    }
    true
}

/// Compares two optional crew levels by value.
fn eq_opt_u8(a: &Option<u8>, b: &Option<u8>) -> (r: bool)
    ensures
        r == (a == b),
{
    match (a, b) {
        (Some(x), Some(y)) => *x == *y,
        (None, None) => true,
        _ => false,
    }
}

/// Compares two ship base records by value.
fn eq_ship(a: &SkinShipBaseData, b: &SkinShipBaseData) -> (r: bool)
    ensures
        r == (a@ == b@),
{
    a.id == b.id && a.name == b.name && a.ship_level == b.ship_level && a.is_premium
        == b.is_premium && a.is_special == b.is_special && a.icon == b.icon
}

/// Compares two multiboost restrictions by value.
fn eq_restriction(a: &MultiboostRestriction, b: &MultiboostRestriction) -> (r: bool)
    ensures
        r == (a@ == b@),
{
    eq_levels(&a.levels, &b.levels)
}

/// Compares two rewards by value, the equality the result totals are keyed
/// by.
pub fn eq_reward_type(a: &LootBoxRewardType, b: &LootBoxRewardType) -> (r: bool)
    ensures
        r == (a@ == b@),
{
    match (a, b) {
        (LootBoxRewardType::Credits, LootBoxRewardType::Credits) => true,
        (LootBoxRewardType::Gold, LootBoxRewardType::Gold) => true,
        (LootBoxRewardType::FreeXp, LootBoxRewardType::FreeXp) => true,
        (LootBoxRewardType::EliteXp, LootBoxRewardType::EliteXp) => true,
        (LootBoxRewardType::ParagonXp, LootBoxRewardType::ParagonXp) => true,
        (LootBoxRewardType::Steel, LootBoxRewardType::Steel) => true,
        (LootBoxRewardType::Coal, LootBoxRewardType::Coal) => true,
        (LootBoxRewardType::Molybdenum, LootBoxRewardType::Molybdenum) => true,
        (LootBoxRewardType::Brass, LootBoxRewardType::Brass) => true,
        (LootBoxRewardType::Saltpeter, LootBoxRewardType::Saltpeter) => true,
        (LootBoxRewardType::RecruitmentPoints, LootBoxRewardType::RecruitmentPoints) => true,
        (LootBoxRewardType::Eventum3, LootBoxRewardType::Eventum3) => true,
        (LootBoxRewardType::Eventum4, LootBoxRewardType::Eventum4) => true,
        (LootBoxRewardType::Eventum5, LootBoxRewardType::Eventum5) => true,
        (LootBoxRewardType::Eventum6, LootBoxRewardType::Eventum6) => true,
        (LootBoxRewardType::Eventum7, LootBoxRewardType::Eventum7) => true,
        (LootBoxRewardType::Eventum8, LootBoxRewardType::Eventum8) => true,
        (LootBoxRewardType::Eventum9, LootBoxRewardType::Eventum9) => true,
        (LootBoxRewardType::Eventum10, LootBoxRewardType::Eventum10) => true,
        (LootBoxRewardType::EventumCn, LootBoxRewardType::EventumCn) => true,
        (LootBoxRewardType::Santium, LootBoxRewardType::Santium) => true,
        (LootBoxRewardType::Dockyardum1, LootBoxRewardType::Dockyardum1) => true,
        (LootBoxRewardType::Dockyardum2, LootBoxRewardType::Dockyardum2) => true,
        (LootBoxRewardType::Eventum11, LootBoxRewardType::Eventum11) => true,
        (LootBoxRewardType::Eventum12, LootBoxRewardType::Eventum12) => true,
        (LootBoxRewardType::Eventum13, LootBoxRewardType::Eventum13) => true,
        (LootBoxRewardType::Eventum14, LootBoxRewardType::Eventum14) => true,
        (LootBoxRewardType::Eventum1, LootBoxRewardType::Eventum1) => true,
        (LootBoxRewardType::Eventum2, LootBoxRewardType::Eventum2) => true,
        (LootBoxRewardType::Clientum1, LootBoxRewardType::Clientum1) => true,
        (LootBoxRewardType::Clientum2, LootBoxRewardType::Clientum2) => true,
        (LootBoxRewardType::ClanResource, LootBoxRewardType::ClanResource) => true,
        (LootBoxRewardType::Slots, LootBoxRewardType::Slots) => true,
        (LootBoxRewardType::WowsPremium, LootBoxRewardType::WowsPremium) => true,
        (
            LootBoxRewardType::CamoBoost { id: ia },
            LootBoxRewardType::CamoBoost { id: ib },
        ) => *ia == *ib,
        (
            LootBoxRewardType::CollectionAlbum { id: ia },
            LootBoxRewardType::CollectionAlbum { id: ib },
        ) => *ia == *ib,
        (
            LootBoxRewardType::Signal { id: ia, name: na },
            LootBoxRewardType::Signal { id: ib, name: nb },
        ) => *ia == *ib && *na == *nb,
        (
            LootBoxRewardType::Ship {
                crew_level: ca,
                ship_level: la,
                id: ia,
                name: na,
                is_premium: pa,
                is_special: sa,
                icon: ka,
            },
            LootBoxRewardType::Ship {
                crew_level: cb,
                ship_level: lb,
                id: ib,
                name: nb,
                is_premium: pb,
                is_special: sb,
                icon: kb,
            },
        ) => eq_opt_u8(ca, cb) && *la == *lb && *ia == *ib && *na == *nb && *pa == *pb && *sa == *sb
            && *ka == *kb,
        (
            LootBoxRewardType::Skin {
                id: ia,
                ship_id: sia,
                only_silver: oa,
                icon: ka,
                name: na,
                ship: sha,
            },
            LootBoxRewardType::Skin {
                id: ib,
                ship_id: sib,
                only_silver: ob,
                icon: kb,
                name: nb,
                ship: shb,
            },
        ) => *ia == *ib && *sia == *sib && *oa == *ob && *ka == *kb && *na == *nb && eq_ship(sha, shb),
        (
            LootBoxRewardType::Camouflage { id: ia, name: na, icon: ka },
            LootBoxRewardType::Camouflage { id: ib, name: nb, icon: kb },
        ) => *ia == *ib && *na == *nb && *ka == *kb,
        (
            LootBoxRewardType::Permoflage {
                id: ia,
                name: na,
                icon: ka,
                is_native: va,
                ship_id: sia,
                only_silver: oa,
                ship: sha,
            },
            LootBoxRewardType::Permoflage {
                id: ib,
                name: nb,
                icon: kb,
                is_native: vb,
                ship_id: sib,
                only_silver: ob,
                ship: shb,
            },
        ) => *ia == *ib && *na == *nb && *ka == *kb && *va == *vb && *sia == *sib && *oa == *ob
            && eq_ship(sha, shb),
        (
            LootBoxRewardType::Mskin {
                id: ia,
                name: na,
                icon: ka,
                ship_id: sia,
                only_silver: oa,
                ship: sha,
            },
            LootBoxRewardType::Mskin {
                id: ib,
                name: nb,
                icon: kb,
                ship_id: sib,
                only_silver: ob,
                ship: shb,
            },
        ) => *ia == *ib && *na == *nb && *ka == *kb && *sia == *sib && *oa == *ob && eq_ship(sha, shb),
        (
            LootBoxRewardType::Style { id: ia },
            LootBoxRewardType::Style { id: ib },
        ) => *ia == *ib,
        (
            LootBoxRewardType::Crew { id: ia, ship_id: sia, crew_level: ca, name: na, icon: ka },
            LootBoxRewardType::Crew { id: ib, ship_id: sib, crew_level: cb, name: nb, icon: kb },
        ) => *ia == *ib && *sia == *sib && *ca == *cb && *na == *nb && *ka == *kb,
        (
            LootBoxRewardType::Multiboost { id: ia, name: na, icon: ka, restrictions: ra },
            LootBoxRewardType::Multiboost { id: ib, name: nb, icon: kb, restrictions: rb },
        ) => *ia == *ib && *na == *nb && *ka == *kb && eq_restriction(ra, rb),
        (
            LootBoxRewardType::Ensign { id: ia, name: na, icon: ka },
            LootBoxRewardType::Ensign { id: ib, name: nb, icon: kb },
        ) => *ia == *ib && *na == *nb && *ka == *kb,
        (
            LootBoxRewardType::Lootbox { id: ia, name: na, icon: ka },
            LootBoxRewardType::Lootbox { id: ib, name: nb, icon: kb },
        ) => *ia == *ib && *na == *nb && *ka == *kb,
        _ => false,
    }
}

} // verus!
