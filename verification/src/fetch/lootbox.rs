//! Loot boxes as the API hands them out, and their conversion into the
//! standard catalog model.
//!
//! Probabilities come in as fixed-point fractions of one (the same scale the
//! standard model uses); a reward list without a declared probability gets
//! the sum of its rewards' probabilities, and rewards without one share the
//! list's rate equally.

use vstd::prelude::*;

use crate::fetch::item::{spec_icon_default, ItemIcon};
use crate::lootbox::{spec_get_id, FillerView, PoolView, RewardTypeView, RewardView, SkinShipView, SlotView, BoxView};

verus! {

/// Display data of a signal reward.
#[derive(Debug, Clone)]
pub struct SignalData {
    pub title: String,
}

/// Display data of a ship reward.
#[derive(Debug, Clone)]
pub struct ShipData {
    pub title: String,
    pub level: u8,
    pub is_premium: bool,
    pub is_special: bool,
    pub icons: ItemIcon,
}

/// Display data of a skin reward.
#[derive(Debug, Clone)]
pub struct SkinData {
    pub title: String,
    pub icons: ItemIcon,
    pub ship: SkinShipBaseData,
}

/// Base data of the ship a skin belongs to, as the API hands it out.
#[derive(Debug, Clone)]
pub struct SkinShipBaseData {
    pub id: u64,
    pub title: String,
    pub level: u8,
    pub is_premium: bool,
    pub is_special: bool,
    pub icons: ItemIcon,
}

/// Display data of a camouflage reward.
#[derive(Debug, Clone)]
pub struct CamouflageData {
    pub title: String,
    pub icons: ItemIcon,
}

/// Display data of a permanent camouflage reward.
#[derive(Debug, Clone)]
pub struct PermoflageData {
    pub title: String,
    pub icons: ItemIcon,
    pub is_native: bool,
    pub ship: SkinShipBaseData,
}

/// Display data of an alternative skin reward.
#[derive(Debug, Clone)]
pub struct MskinData {
    pub title: String,
    pub icons: ItemIcon,
    pub ship: SkinShipBaseData,
}

/// Display data of a crew reward.
#[derive(Debug, Clone)]
pub struct CrewData {
    pub title: String,
    pub icons: ItemIcon,
    pub is_unique: bool,
}

/// Display data of a multiboost reward.
#[derive(Debug, Clone)]
pub struct MulitboostData {
    pub title: String,
    pub icons: ItemIcon,
    pub restrictions: MultiboostRestriction,
}

/// Which ships a multiboost may be mounted on, as the API hands it out.
#[derive(Debug, Clone)]
pub struct MultiboostRestriction {
    pub specific_ships: Vec<u64>,
    pub forbidden_ships: Vec<u64>,
    pub levels: Vec<u8>,
}

/// Display data of an ensign reward.
#[derive(Debug, Clone)]
pub struct EnsignData {
    pub title: String,
    pub icons: ItemIcon,
}

/// Display data of a nested loot box reward.
#[derive(Debug, Clone)]
pub struct LootboxData {
    pub title: String,
    pub icons: ItemIcon,
}

/// One reward as the API hands it out: a kind tag, ids, and nested display
/// data.
#[derive(Debug, Clone)]
pub enum LootBoxRewardType {
    Credits,
    Gold,
    FreeXp,
    EliteXp,
    ParagonXp,
    Steel,
    Coal,
    Molybdenum,
    Brass,
    Saltpeter,
    RecruitmentPoints,
    Eventum3,
    Eventum4,
    Eventum5,
    Eventum6,
    Eventum7,
    Eventum8,
    Eventum9,
    Eventum10,
    EventumCn,
    Santium,
    Dockyardum1,
    Dockyardum2,
    Eventum11,
    Eventum12,
    Eventum13,
    Eventum14,
    Eventum1,
    Eventum2,
    Clientum1,
    Clientum2,
    ClanResource,
    Slots,
    WowsPremium,
    CamoBoost { id: u64 },
    CollectionAlbum { id: u64 },
    Signal { id: u64, additional_data: SignalData },
    Ship { crew_level: Option<u8>, id: u64, additional_data: ShipData },
    Skin { id: u64, ship_id: u64, only_silver: bool, additional_data: SkinData },
    Camouflage { id: u64, additional_data: CamouflageData },
    Permoflage { id: u64, ship_id: u64, only_silver: bool, additional_data: PermoflageData },
    Mskin { id: u64, ship_id: u64, only_silver: bool, additional_data: MskinData },
    Style { id: u64 },
    Crew { id: u64, ship_id: u64, crew_level: u8, additional_data: CrewData },
    Mulitboost { id: u64, additional_data: MulitboostData },
    Ensign { id: u64, additional_data: EnsignData },
    Lootbox { id: u64, additional_data: LootboxData },
}

/// The standard image of an API ship base record.
pub open spec fn spec_ship_base_view(s: SkinShipBaseData) -> SkinShipView {
    SkinShipView {
        id: s.id,
        name: s.title@,
        ship_level: s.level,
        is_premium: s.is_premium,
        is_special: s.is_special,
        icon: spec_icon_default(s.icons),
    }
}

/// The standard reward an API reward converts to.
pub open spec fn spec_fetch_reward_view(t: LootBoxRewardType) -> RewardTypeView {
    match t {
        LootBoxRewardType::Credits => RewardTypeView::Credits,
        LootBoxRewardType::Gold => RewardTypeView::Gold,
        LootBoxRewardType::FreeXp => RewardTypeView::FreeXp,
        LootBoxRewardType::EliteXp => RewardTypeView::EliteXp,
        LootBoxRewardType::ParagonXp => RewardTypeView::ParagonXp,
        LootBoxRewardType::Steel => RewardTypeView::Steel,
        LootBoxRewardType::Coal => RewardTypeView::Coal,
        LootBoxRewardType::Molybdenum => RewardTypeView::Molybdenum,
        LootBoxRewardType::Brass => RewardTypeView::Brass,
        LootBoxRewardType::Saltpeter => RewardTypeView::Saltpeter,
        LootBoxRewardType::RecruitmentPoints => RewardTypeView::RecruitmentPoints,
        LootBoxRewardType::Eventum3 => RewardTypeView::Eventum3,
        LootBoxRewardType::Eventum4 => RewardTypeView::Eventum4,
        LootBoxRewardType::Eventum5 => RewardTypeView::Eventum5,
        LootBoxRewardType::Eventum6 => RewardTypeView::Eventum6,
        LootBoxRewardType::Eventum7 => RewardTypeView::Eventum7,
        LootBoxRewardType::Eventum8 => RewardTypeView::Eventum8,
        LootBoxRewardType::Eventum9 => RewardTypeView::Eventum9,
        LootBoxRewardType::Eventum10 => RewardTypeView::Eventum10,
        LootBoxRewardType::EventumCn => RewardTypeView::EventumCn,
        LootBoxRewardType::Santium => RewardTypeView::Santium,
        LootBoxRewardType::Dockyardum1 => RewardTypeView::Dockyardum1,
        LootBoxRewardType::Dockyardum2 => RewardTypeView::Dockyardum2,
        LootBoxRewardType::Eventum11 => RewardTypeView::Eventum11,
        LootBoxRewardType::Eventum12 => RewardTypeView::Eventum12,
        LootBoxRewardType::Eventum13 => RewardTypeView::Eventum13,
        LootBoxRewardType::Eventum14 => RewardTypeView::Eventum14,
        LootBoxRewardType::Eventum1 => RewardTypeView::Eventum1,
        LootBoxRewardType::Eventum2 => RewardTypeView::Eventum2,
        LootBoxRewardType::Clientum1 => RewardTypeView::Clientum1,
        LootBoxRewardType::Clientum2 => RewardTypeView::Clientum2,
        LootBoxRewardType::ClanResource => RewardTypeView::ClanResource,
        LootBoxRewardType::Slots => RewardTypeView::Slots,
        LootBoxRewardType::WowsPremium => RewardTypeView::WowsPremium,
        LootBoxRewardType::CamoBoost { id } => RewardTypeView::CamoBoost { id },
        LootBoxRewardType::CollectionAlbum { id } => RewardTypeView::CollectionAlbum { id },
        LootBoxRewardType::Signal { id, additional_data } => RewardTypeView::Signal {
            id,
            name: additional_data.title@,
        },
        LootBoxRewardType::Ship { crew_level, id, additional_data } => RewardTypeView::Ship {
            crew_level,
            ship_level: additional_data.level,
            id,
            name: additional_data.title@,
            is_premium: additional_data.is_premium,
            is_special: additional_data.is_special,
            icon: spec_icon_default(additional_data.icons),
        },
        LootBoxRewardType::Skin { id, ship_id, only_silver, additional_data } => {
            RewardTypeView::Skin {
                id,
                ship_id,
                only_silver,
                name: additional_data.title@,
                ship: spec_ship_base_view(additional_data.ship),
                icon: spec_icon_default(additional_data.icons),
            }
        },
        LootBoxRewardType::Camouflage { id, additional_data } => RewardTypeView::Camouflage {
            id,
            name: additional_data.title@,
            icon: spec_icon_default(additional_data.icons),
        },
        LootBoxRewardType::Permoflage { id, ship_id, only_silver, additional_data } => {
            RewardTypeView::Permoflage {
                id,
                name: additional_data.title@,
                icon: spec_icon_default(additional_data.icons),
                is_native: additional_data.is_native,
                ship_id,
                only_silver,
                ship: spec_ship_base_view(additional_data.ship),
            }
        },
        LootBoxRewardType::Mskin { id, ship_id, only_silver, additional_data } => {
            RewardTypeView::Mskin {
                id,
                name: additional_data.title@,
                icon: spec_icon_default(additional_data.icons),
                ship_id,
                only_silver,
                ship: spec_ship_base_view(additional_data.ship),
            }
        },
        LootBoxRewardType::Style { id } => RewardTypeView::Style { id },
        LootBoxRewardType::Crew { id, ship_id, crew_level, additional_data } => {
            RewardTypeView::Crew {
                id,
                ship_id,
                crew_level,
                name: additional_data.title@,
                icon: spec_icon_default(additional_data.icons),
            }
        },
        LootBoxRewardType::Mulitboost { id, additional_data } => RewardTypeView::Multiboost {
            id,
            name: additional_data.title@,
            icon: spec_icon_default(additional_data.icons),
            restrictions: crate::lootbox::RestrictionView {
                levels: additional_data.restrictions.levels@,
            },
        },
        LootBoxRewardType::Ensign { id, additional_data } => RewardTypeView::Ensign {
            id,
            name: additional_data.title@,
            icon: spec_icon_default(additional_data.icons),
        },
        LootBoxRewardType::Lootbox { id, additional_data } => RewardTypeView::Lootbox {
            id,
            name: additional_data.title@,
            icon: spec_icon_default(additional_data.icons),
        },
    }
}

impl SkinShipBaseData {
    /// The standard base record of this ship.
    pub fn into_standard(self) -> (r: crate::lootbox::SkinShipBaseData)
        ensures
            r@ == spec_ship_base_view(self),
    {
        crate::lootbox::SkinShipBaseData {
            id: self.id,
            name: self.title,
            ship_level: self.level,
            is_premium: self.is_premium,
            is_special: self.is_special,
            icon: self.icons.into_default(),
        }
    }
}

impl LootBoxRewardType {
    /// The unique id of this reward, if it has one.
    pub fn fetch_id(&self) -> (r: Option<u64>)
        ensures
            r == spec_get_id(spec_fetch_reward_view(*self)),
    {
        match self {
            LootBoxRewardType::Credits
            | LootBoxRewardType::Gold
            | LootBoxRewardType::FreeXp
            | LootBoxRewardType::EliteXp
            | LootBoxRewardType::ParagonXp
            | LootBoxRewardType::Steel
            | LootBoxRewardType::Coal
            | LootBoxRewardType::Molybdenum
            | LootBoxRewardType::Brass
            | LootBoxRewardType::Saltpeter
            | LootBoxRewardType::RecruitmentPoints
            | LootBoxRewardType::Eventum3
            | LootBoxRewardType::Eventum4
            | LootBoxRewardType::Eventum5
            | LootBoxRewardType::Eventum6
            | LootBoxRewardType::Eventum7
            | LootBoxRewardType::Eventum8
            | LootBoxRewardType::Eventum9
            | LootBoxRewardType::Eventum10
            | LootBoxRewardType::EventumCn
            | LootBoxRewardType::Santium
            | LootBoxRewardType::Dockyardum1
            | LootBoxRewardType::Dockyardum2
            | LootBoxRewardType::Eventum11
            | LootBoxRewardType::Eventum12
            | LootBoxRewardType::Eventum13
            | LootBoxRewardType::Eventum14
            | LootBoxRewardType::Eventum1
            | LootBoxRewardType::Eventum2
            | LootBoxRewardType::Clientum1
            | LootBoxRewardType::Clientum2
            | LootBoxRewardType::ClanResource
            | LootBoxRewardType::Slots
            | LootBoxRewardType::WowsPremium => None,
            LootBoxRewardType::CamoBoost { id }
            | LootBoxRewardType::CollectionAlbum { id }
            | LootBoxRewardType::Signal { id, .. }
            | LootBoxRewardType::Ship { id, .. }
            | LootBoxRewardType::Skin { id, .. }
            | LootBoxRewardType::Camouflage { id, .. }
            | LootBoxRewardType::Permoflage { id, .. }
            | LootBoxRewardType::Mskin { id, .. }
            | LootBoxRewardType::Style { id }
            | LootBoxRewardType::Crew { id, .. }
            | LootBoxRewardType::Mulitboost { id, .. }
            | LootBoxRewardType::Ensign { id, .. }
            | LootBoxRewardType::Lootbox { id, .. } => Some(*id),
        }
    }

    /// The standard reward this API reward converts to.
    pub fn into_standard(self) -> (r: crate::lootbox::LootBoxRewardType)
        ensures
            r@ == spec_fetch_reward_view(self),
    {
        match self {
            LootBoxRewardType::Credits => crate::lootbox::LootBoxRewardType::Credits,
            LootBoxRewardType::Gold => crate::lootbox::LootBoxRewardType::Gold,
            LootBoxRewardType::FreeXp => crate::lootbox::LootBoxRewardType::FreeXp,
            LootBoxRewardType::EliteXp => crate::lootbox::LootBoxRewardType::EliteXp,
            LootBoxRewardType::ParagonXp => crate::lootbox::LootBoxRewardType::ParagonXp,
            LootBoxRewardType::Steel => crate::lootbox::LootBoxRewardType::Steel,
            LootBoxRewardType::Coal => crate::lootbox::LootBoxRewardType::Coal,
            LootBoxRewardType::Molybdenum => crate::lootbox::LootBoxRewardType::Molybdenum,
            LootBoxRewardType::Brass => crate::lootbox::LootBoxRewardType::Brass,
            LootBoxRewardType::Saltpeter => crate::lootbox::LootBoxRewardType::Saltpeter,
            LootBoxRewardType::RecruitmentPoints => crate::lootbox::LootBoxRewardType::RecruitmentPoints,
            LootBoxRewardType::Eventum3 => crate::lootbox::LootBoxRewardType::Eventum3,
            LootBoxRewardType::Eventum4 => crate::lootbox::LootBoxRewardType::Eventum4,
            LootBoxRewardType::Eventum5 => crate::lootbox::LootBoxRewardType::Eventum5,
            LootBoxRewardType::Eventum6 => crate::lootbox::LootBoxRewardType::Eventum6,
            LootBoxRewardType::Eventum7 => crate::lootbox::LootBoxRewardType::Eventum7,
            LootBoxRewardType::Eventum8 => crate::lootbox::LootBoxRewardType::Eventum8,
            LootBoxRewardType::Eventum9 => crate::lootbox::LootBoxRewardType::Eventum9,
            LootBoxRewardType::Eventum10 => crate::lootbox::LootBoxRewardType::Eventum10,
            LootBoxRewardType::EventumCn => crate::lootbox::LootBoxRewardType::EventumCn,
            LootBoxRewardType::Santium => crate::lootbox::LootBoxRewardType::Santium,
            LootBoxRewardType::Dockyardum1 => crate::lootbox::LootBoxRewardType::Dockyardum1,
            LootBoxRewardType::Dockyardum2 => crate::lootbox::LootBoxRewardType::Dockyardum2,
            LootBoxRewardType::Eventum11 => crate::lootbox::LootBoxRewardType::Eventum11,
            LootBoxRewardType::Eventum12 => crate::lootbox::LootBoxRewardType::Eventum12,
            LootBoxRewardType::Eventum13 => crate::lootbox::LootBoxRewardType::Eventum13,
            LootBoxRewardType::Eventum14 => crate::lootbox::LootBoxRewardType::Eventum14,
            LootBoxRewardType::Eventum1 => crate::lootbox::LootBoxRewardType::Eventum1,
            LootBoxRewardType::Eventum2 => crate::lootbox::LootBoxRewardType::Eventum2,
            LootBoxRewardType::Clientum1 => crate::lootbox::LootBoxRewardType::Clientum1,
            LootBoxRewardType::Clientum2 => crate::lootbox::LootBoxRewardType::Clientum2,
            LootBoxRewardType::ClanResource => crate::lootbox::LootBoxRewardType::ClanResource,
            LootBoxRewardType::Slots => crate::lootbox::LootBoxRewardType::Slots,
            LootBoxRewardType::WowsPremium => crate::lootbox::LootBoxRewardType::WowsPremium,
            LootBoxRewardType::CamoBoost { id } => crate::lootbox::LootBoxRewardType::CamoBoost {
                id,
            },
            LootBoxRewardType::CollectionAlbum { id } => {
                crate::lootbox::LootBoxRewardType::CollectionAlbum { id }
            },
            LootBoxRewardType::Signal { id, additional_data } => {
                crate::lootbox::LootBoxRewardType::Signal { id, name: additional_data.title }
            },
            LootBoxRewardType::Ship { crew_level, id, additional_data } => {
                crate::lootbox::LootBoxRewardType::Ship {
                    crew_level,
                    ship_level: additional_data.level,
                    id,
                    name: additional_data.title,
                    is_premium: additional_data.is_premium,
                    is_special: additional_data.is_special,
                    icon: additional_data.icons.into_default(),
                }
            },
            LootBoxRewardType::Skin { id, ship_id, only_silver, additional_data } => {
                crate::lootbox::LootBoxRewardType::Skin {
                    id,
                    ship_id,
                    only_silver,
                    name: additional_data.title,
                    ship: additional_data.ship.into_standard(),
                    icon: additional_data.icons.into_default(),
                }
            },
            LootBoxRewardType::Camouflage { id, additional_data } => {
                crate::lootbox::LootBoxRewardType::Camouflage {
                    id,
                    name: additional_data.title,
                    icon: additional_data.icons.into_default(),
                }
            },
            LootBoxRewardType::Permoflage { id, ship_id, only_silver, additional_data } => {
                crate::lootbox::LootBoxRewardType::Permoflage {
                    id,
                    name: additional_data.title,
                    icon: additional_data.icons.into_default(),
                    is_native: additional_data.is_native,
                    ship_id,
                    only_silver,
                    ship: additional_data.ship.into_standard(),
                }
            },
            LootBoxRewardType::Mskin { id, ship_id, only_silver, additional_data } => {
                crate::lootbox::LootBoxRewardType::Mskin {
                    id,
                    name: additional_data.title,
                    icon: additional_data.icons.into_default(),
                    ship_id,
                    only_silver,
                    ship: additional_data.ship.into_standard(),
                }
            },
            LootBoxRewardType::Style { id } => crate::lootbox::LootBoxRewardType::Style { id },
            LootBoxRewardType::Crew { id, ship_id, crew_level, additional_data } => {
                crate::lootbox::LootBoxRewardType::Crew {
                    id,
                    ship_id,
                    crew_level,
                    name: additional_data.title,
                    icon: additional_data.icons.into_default(),
                }
            },
            LootBoxRewardType::Mulitboost { id, additional_data } => {
                crate::lootbox::LootBoxRewardType::Multiboost {
                    id,
                    name: additional_data.title,
                    icon: additional_data.icons.into_default(),
                    restrictions: crate::lootbox::MultiboostRestriction {
                        levels: additional_data.restrictions.levels,
                    },
                }
            },
            LootBoxRewardType::Ensign { id, additional_data } => {
                crate::lootbox::LootBoxRewardType::Ensign {
                    id,
                    name: additional_data.title,
                    icon: additional_data.icons.into_default(),
                }
            },
            LootBoxRewardType::Lootbox { id, additional_data } => {
                crate::lootbox::LootBoxRewardType::Lootbox {
                    id,
                    name: additional_data.title,
                    icon: additional_data.icons.into_default(),
                }
            },
        }
    }
}

/// The probability record of a list or reward, as fixed-point fractions of
/// one (the scale the standard model uses).
#[derive(Debug, Clone, Copy)]
pub struct RewardProbability {
    pub probability: u64,
    pub weight: u32,
    pub probability_displayed: u64,
}

/// One reward as the API hands it out.
#[derive(Debug, Clone)]
pub struct LootBoxReward {
    pub probability: Option<RewardProbability>,
    pub amount: u32,
    pub reward: LootBoxRewardType,
}

/// The standard reward record: a reward without a declared probability gets
/// `rate`.
pub open spec fn spec_reward_std(r: LootBoxReward, rate: u64) -> RewardView {
    RewardView {
        probability: match r.probability {
            Option::Some(p) => p.probability_displayed,
            Option::None => rate,
        },
        amount: r.amount,
        reward: spec_fetch_reward_view(r.reward),
    }
}

impl LootBoxReward {
    /// The standard reward record, with `rate` as the probability of a
    /// reward that declares none.
    pub fn into_standard(self, rate: u64) -> (r: crate::lootbox::LootBoxReward)
        ensures
            r@ == spec_reward_std(self, rate),
    {
        let probability = match &self.probability {
            Some(p) => p.probability_displayed,
            None => rate,
        };
        crate::lootbox::LootBoxReward {
            probability,
            amount: self.amount,
            reward: self.reward.into_standard(),
        }
    }
}

/// One reward list as the API hands it out.
#[derive(Debug, Clone)]
pub struct LootBoxRewardList {
    pub title: String,
    pub short_title: String,
    pub probability: Option<RewardProbability>,
    pub save_point: Option<u32>,
    pub has_unique_rewards: bool,
    pub rewards: Vec<LootBoxReward>,
}

/// Sum of the declared probabilities of a list's rewards.
pub open spec fn sum_displayed(rs: Seq<LootBoxReward>) -> int
    decreases rs.len(),
{
    if rs.len() == 0 {
        0
    } else {
        sum_displayed(rs.drop_last()) + match rs.last().probability {
            Option::Some(p) => p.probability_displayed as int,
            Option::None => 0,
        }
    }
}

/// How many rewards of a list declare no probability.
pub open spec fn count_no_rate(rs: Seq<LootBoxReward>) -> int
    decreases rs.len(),
{
    if rs.len() == 0 {
        0
    } else {
        count_no_rate(rs.drop_last()) + if rs.last().probability is None {
            1int
        } else {
            0int
        }
    }
}

/// The rate of a list: its declared probability, or the sum of its rewards'
/// probabilities.
pub open spec fn spec_list_rate(l: LootBoxRewardList) -> int {
    match l.probability {
        Option::Some(p) => p.probability_displayed as int,
        Option::None => sum_displayed(l.rewards@),
    }
}

/// The list rate, stopped at the top of the machine word's range.
pub open spec fn spec_list_rate_u64(l: LootBoxRewardList) -> u64 {
    if spec_list_rate(l) > u64::MAX {
        u64::MAX
    } else {
        spec_list_rate(l) as u64
    }
}

/// The probability handed to each reward that declares none: the list's
/// rate shared equally among them.
pub open spec fn spec_list_fallback(l: LootBoxRewardList) -> u64 {
    if count_no_rate(l.rewards@) == 0 {
        0u64
    } else {
        (spec_list_rate_u64(l) as int / count_no_rate(l.rewards@)) as u64
    }
}

/// The standard pool an API reward list converts to.
pub open spec fn spec_list_std_view(l: LootBoxRewardList) -> PoolView {
    PoolView {
        name: l.title@,
        short_name: l.short_title@,
        probability: spec_list_rate_u64(l),
        rewards: l.rewards@.map_values(|r: LootBoxReward| spec_reward_std(r, spec_list_fallback(l))),
        has_unique_rewards: l.has_unique_rewards,
    }
}

impl LootBoxRewardList {
    /// The standard pool record of this list.
    pub fn into_standard(self) -> (r: crate::lootbox::LootBoxRewardList)
        ensures
            r@ == spec_list_std_view(self),
    {
        let ghost me = self;
        let n = self.rewards.len();
        let mut acc: u128 = 0;
        let mut cnt: usize = 0;
        let mut i: usize = 0;
        while i < n
            invariant
                i <= n,
                n == self.rewards.len(),
                acc == sum_displayed(self.rewards@.take(i as int)),
                cnt == count_no_rate(self.rewards@.take(i as int)),
                acc <= i * 0xFFFF_FFFF_FFFF_FFFFu128,
                cnt <= i,
            decreases n - i,
        {
            proof {
                assert(self.rewards@.take(i + 1).drop_last() =~= self.rewards@.take(i as int));
                assert(self.rewards@.take(i + 1).last() == self.rewards@[i as int]);
            }
            match &self.rewards[i].probability {
                Some(p) => {
                    acc = acc + (p.probability_displayed as u128);
                },
                None => {
                    cnt = cnt + 1;
                },
            }
            i = i + 1;
        }
        proof {
            assert(self.rewards@.take(n as int) =~= self.rewards@);
        }
        let rate: u64 = match &self.probability {
            Some(p) => p.probability_displayed,
            None => if acc > (u64::MAX as u128) {
                u64::MAX
            } else {
                acc as u64
            },
        };
        proof {
            assert(rate == spec_list_rate_u64(me));
        }
        let fallback: u64 = if cnt == 0 {
            0
        } else {
            rate / (cnt as u64)
        };
        proof {
            assert(fallback == spec_list_fallback(me));
        }
        let mut rem = self.rewards;
        let ghost orig = rem@;
        let mut out: Vec<crate::lootbox::LootBoxReward> = Vec::new();
        proof {
            assert(orig.skip(0) =~= orig);
            assert(out@.map_values(|x: crate::lootbox::LootBoxReward| x@) =~= orig.take(
                0,
            ).map_values(|r: LootBoxReward| spec_reward_std(r, fallback)));
        }
        while rem.len() > 0
            invariant
                out@.len() <= orig.len(),
                rem@ == orig.skip(out@.len() as int),
                fallback == spec_list_fallback(me),
                out@.map_values(|x: crate::lootbox::LootBoxReward| x@) == orig.take(
                    out@.len() as int,
                ).map_values(|r: LootBoxReward| spec_reward_std(r, fallback)),
            decreases rem.len(),
        {
            let ghost k = out@.len() as int;
            let rw = rem.remove(0);
            proof {
                assert(rw == orig[k]);
                assert(rem@ =~= orig.skip(k + 1));
            }
            let c = rw.into_standard(fallback);
            let ghost outb = out@;
            out.push(c);
            proof {
                let lhs = out@.map_values(|x: crate::lootbox::LootBoxReward| x@);
                let rhs = orig.take(k + 1).map_values(
                    |r: LootBoxReward| spec_reward_std(r, fallback),
                );
                let prev_lhs = outb.map_values(|x: crate::lootbox::LootBoxReward| x@);
                let prev_rhs = orig.take(k).map_values(
                    |r: LootBoxReward| spec_reward_std(r, fallback),
                );
                assert forall|j: int| 0 <= j < lhs.len() implies lhs[j] == rhs[j] by {
                    if j < k {
                        assert(prev_lhs[j] == prev_rhs[j]);
                        assert(lhs[j] == outb[j]@);
                        assert(rhs[j] == spec_reward_std(orig[j], fallback));
                    } else {
                        assert(lhs[j] == c@);
                        assert(rhs[j] == spec_reward_std(orig[k], fallback));
                    }
                }
                assert(lhs =~= rhs);
            }
        }
        proof {
            assert(orig.take(orig.len() as int) =~= orig);
        }
        let r = crate::lootbox::LootBoxRewardList {
            name: self.title,
            short_name: self.short_title,
            probability: rate,
            rewards: out,
            has_unique_rewards: self.has_unique_rewards,
        };
        proof {
            assert(r@.rewards =~= spec_list_std_view(me).rewards);
        }
        r
    }
}

/// One slot as the API hands it out: its reward lists keyed by name, in
/// document order.
#[derive(Debug, Clone)]
pub struct LootBoxSlot {
    pub common_rewards: Vec<(String, LootBoxRewardList)>,
    pub continuous_rewards: bool,
    pub valuable_rewards: Vec<(String, LootBoxRewardList)>,
    pub title: String,
}

/// The standard pools a keyed list sequence converts to, in order.
pub open spec fn lists_std_view(ls: Seq<(String, LootBoxRewardList)>) -> Seq<PoolView> {
    ls.map_values(|t: (String, LootBoxRewardList)| spec_list_std_view(t.1))
}

/// Converts the reward lists of one slot side, keeping their order.
fn convert_lists(v: Vec<(String, LootBoxRewardList)>) -> (r: Vec<
    crate::lootbox::LootBoxRewardList,
>)
    ensures
        crate::lootbox::pools_view(r@) == lists_std_view(v@),
{
    let ghost orig = v@;
    let mut rem = v;
    let mut out: Vec<crate::lootbox::LootBoxRewardList> = Vec::new();
    proof {
        assert(orig.skip(0) =~= orig);
        assert(crate::lootbox::pools_view(out@) =~= lists_std_view(orig.take(0)));
    }
    while rem.len() > 0
        invariant
            out@.len() <= orig.len(),
            rem@ == orig.skip(out@.len() as int),
            crate::lootbox::pools_view(out@) == lists_std_view(orig.take(out@.len() as int)),
        decreases rem.len(),
    {
        let ghost k = out@.len() as int;
        let item = rem.remove(0);
        proof {
            assert(item == orig[k]);
            assert(rem@ =~= orig.skip(k + 1));
        }
        let (_key, list) = item;
        let ghost outb = out@;
        let c = list.into_standard();
        out.push(c);
        proof {
            let lhs = crate::lootbox::pools_view(out@);
            let rhs = lists_std_view(orig.take(k + 1));
            assert forall|j: int| 0 <= j < lhs.len() implies lhs[j] == rhs[j] by {
                if j < k {
                    assert(crate::lootbox::pools_view(outb)[j] == lists_std_view(orig.take(k))[j]);
                    assert(lhs[j] == outb[j]@);
                    assert(rhs[j] == spec_list_std_view(orig[j].1));
                } else {
                    assert(lhs[j] == c@);
                    assert(rhs[j] == spec_list_std_view(orig[k].1));
                }
            }
            assert(lhs =~= rhs);
        }
    }
    proof {
        assert(orig.take(orig.len() as int) =~= orig);
    }
    out
}

/// The standard slot an API slot converts to.
pub open spec fn spec_slot_std_view(s: LootBoxSlot) -> SlotView {
    SlotView {
        common: lists_std_view(s.common_rewards@),
        valuable: lists_std_view(s.valuable_rewards@),
        name: s.title@,
        continuous_rewards: s.continuous_rewards,
    }
}

impl LootBoxSlot {
    /// The standard slot record of this slot.
    pub fn into_standard(self) -> (r: crate::lootbox::LootBoxSlot)
        ensures
            r@ == spec_slot_std_view(self),
    {
        crate::lootbox::LootBoxSlot {
            common: convert_lists(self.common_rewards),
            valuable: convert_lists(self.valuable_rewards),
            name: self.title,
            continuous_rewards: self.continuous_rewards,
        }
    }
}

/// The larger of two optional thresholds; one that is absent loses.
pub open spec fn opt_max_u32(a: Option<u32>, b: Option<u32>) -> Option<u32> {
    match (a, b) {
        (Option::Some(x), Option::Some(y)) => if x >= y {
            a
        } else {
            b
        },
        (Option::Some(_), Option::None) => a,
        (Option::None, _) => b,
    }
}

/// The largest declared pity threshold among a slot side's lists.
pub open spec fn lists_save_point(ls: Seq<(String, LootBoxRewardList)>) -> Option<u32>
    decreases ls.len(),
{
    if ls.len() == 0 {
        Option::None
    } else {
        opt_max_u32(lists_save_point(ls.drop_last()), ls.last().1.save_point)
    }
}

/// The largest declared pity threshold in one slot.
pub open spec fn slot_save_point(s: LootBoxSlot) -> Option<u32> {
    opt_max_u32(lists_save_point(s.common_rewards@), lists_save_point(s.valuable_rewards@))
}

/// The largest declared pity threshold in the whole box.
pub open spec fn slots_save_point(ss: Seq<LootBoxSlot>) -> Option<u32>
    decreases ss.len(),
{
    if ss.len() == 0 {
        Option::None
    } else {
        opt_max_u32(slots_save_point(ss.drop_last()), slot_save_point(ss.last()))
    }
}

/// The larger of two optional thresholds.
fn opt_max_exec(a: Option<u32>, b: Option<u32>) -> (r: Option<u32>)
    ensures
        r == opt_max_u32(a, b),
{
    match (a, b) {
        (Some(x), Some(y)) => if x >= y {
            Some(x)
        } else {
            Some(y)
        },
        (Some(x), None) => Some(x),
        (None, y) => y,
    }
}

/// The largest declared pity threshold among these lists.
fn lists_save_point_exec(v: &Vec<(String, LootBoxRewardList)>) -> (r: Option<u32>)
    ensures
        r == lists_save_point(v@),
{
    let n = v.len();
    let mut cur: Option<u32> = None;
    let mut i: usize = 0;
    while i < n
        invariant
            i <= n,
            n == v.len(),
            cur == lists_save_point(v@.take(i as int)),
        decreases n - i,
    {
        proof {
            assert(v@.take(i + 1).drop_last() =~= v@.take(i as int));
            assert(v@.take(i + 1).last() == v@[i as int]);
        }
        cur = opt_max_exec(cur, v[i].1.save_point);
        i = i + 1;
    }
    proof {
        assert(v@.take(n as int) =~= v@);
    }
    cur
}


/// Completes an icon set's default icon without consuming the set.
fn icon_default_copy(icons: &ItemIcon) -> (r: String)
    ensures
        r@ == spec_icon_default(*icons),
{
    let copy = ItemIcon { small: None, large: None, default: icons.default.clone() };
    copy.into_default()
}

/// Copies a ship base record into its standard form.
fn ship_base_copy(s: &SkinShipBaseData) -> (r: crate::lootbox::SkinShipBaseData)
    ensures
        r@ == spec_ship_base_view(*s),
{
    crate::lootbox::SkinShipBaseData {
        id: s.id,
        name: s.title.clone(),
        ship_level: s.level,
        is_premium: s.is_premium,
        is_special: s.is_special,
        icon: icon_default_copy(&s.icons),
    }
}

impl LootBoxRewardType {
    /// The standard reward this API reward converts to, built from a
    /// borrowed value.
    fn standard_copy(&self) -> (r: crate::lootbox::LootBoxRewardType)
        ensures
            r@ == spec_fetch_reward_view(*self),
    {
        match self {
            LootBoxRewardType::Credits => crate::lootbox::LootBoxRewardType::Credits,
            LootBoxRewardType::Gold => crate::lootbox::LootBoxRewardType::Gold,
            LootBoxRewardType::FreeXp => crate::lootbox::LootBoxRewardType::FreeXp,
            LootBoxRewardType::EliteXp => crate::lootbox::LootBoxRewardType::EliteXp,
            LootBoxRewardType::ParagonXp => crate::lootbox::LootBoxRewardType::ParagonXp,
            LootBoxRewardType::Steel => crate::lootbox::LootBoxRewardType::Steel,
            LootBoxRewardType::Coal => crate::lootbox::LootBoxRewardType::Coal,
            LootBoxRewardType::Molybdenum => crate::lootbox::LootBoxRewardType::Molybdenum,
            LootBoxRewardType::Brass => crate::lootbox::LootBoxRewardType::Brass,
            LootBoxRewardType::Saltpeter => crate::lootbox::LootBoxRewardType::Saltpeter,
            LootBoxRewardType::RecruitmentPoints => crate::lootbox::LootBoxRewardType::RecruitmentPoints,
            LootBoxRewardType::Eventum3 => crate::lootbox::LootBoxRewardType::Eventum3,
            LootBoxRewardType::Eventum4 => crate::lootbox::LootBoxRewardType::Eventum4,
            LootBoxRewardType::Eventum5 => crate::lootbox::LootBoxRewardType::Eventum5,
            LootBoxRewardType::Eventum6 => crate::lootbox::LootBoxRewardType::Eventum6,
            LootBoxRewardType::Eventum7 => crate::lootbox::LootBoxRewardType::Eventum7,
            LootBoxRewardType::Eventum8 => crate::lootbox::LootBoxRewardType::Eventum8,
            LootBoxRewardType::Eventum9 => crate::lootbox::LootBoxRewardType::Eventum9,
            LootBoxRewardType::Eventum10 => crate::lootbox::LootBoxRewardType::Eventum10,
            LootBoxRewardType::EventumCn => crate::lootbox::LootBoxRewardType::EventumCn,
            LootBoxRewardType::Santium => crate::lootbox::LootBoxRewardType::Santium,
            LootBoxRewardType::Dockyardum1 => crate::lootbox::LootBoxRewardType::Dockyardum1,
            LootBoxRewardType::Dockyardum2 => crate::lootbox::LootBoxRewardType::Dockyardum2,
            LootBoxRewardType::Eventum11 => crate::lootbox::LootBoxRewardType::Eventum11,
            LootBoxRewardType::Eventum12 => crate::lootbox::LootBoxRewardType::Eventum12,
            LootBoxRewardType::Eventum13 => crate::lootbox::LootBoxRewardType::Eventum13,
            LootBoxRewardType::Eventum14 => crate::lootbox::LootBoxRewardType::Eventum14,
            LootBoxRewardType::Eventum1 => crate::lootbox::LootBoxRewardType::Eventum1,
            LootBoxRewardType::Eventum2 => crate::lootbox::LootBoxRewardType::Eventum2,
            LootBoxRewardType::Clientum1 => crate::lootbox::LootBoxRewardType::Clientum1,
            LootBoxRewardType::Clientum2 => crate::lootbox::LootBoxRewardType::Clientum2,
            LootBoxRewardType::ClanResource => crate::lootbox::LootBoxRewardType::ClanResource,
            LootBoxRewardType::Slots => crate::lootbox::LootBoxRewardType::Slots,
            LootBoxRewardType::WowsPremium => crate::lootbox::LootBoxRewardType::WowsPremium,
            LootBoxRewardType::CamoBoost { id } => crate::lootbox::LootBoxRewardType::CamoBoost {
                id: *id,
            },
            LootBoxRewardType::CollectionAlbum { id } => {
                crate::lootbox::LootBoxRewardType::CollectionAlbum { id: *id }
            },
            LootBoxRewardType::Signal { id, additional_data } => {
                crate::lootbox::LootBoxRewardType::Signal {
                    id: *id,
                    name: additional_data.title.clone(),
                }
            },
            LootBoxRewardType::Ship { crew_level, id, additional_data } => {
                crate::lootbox::LootBoxRewardType::Ship {
                    crew_level: *crew_level,
                    ship_level: additional_data.level,
                    id: *id,
                    name: additional_data.title.clone(),
                    is_premium: additional_data.is_premium,
                    is_special: additional_data.is_special,
                    icon: icon_default_copy(&additional_data.icons),
                }
            },
            LootBoxRewardType::Skin { id, ship_id, only_silver, additional_data } => {
                crate::lootbox::LootBoxRewardType::Skin {
                    id: *id,
                    ship_id: *ship_id,
                    only_silver: *only_silver,
                    name: additional_data.title.clone(),
                    ship: ship_base_copy(&additional_data.ship),
                    icon: icon_default_copy(&additional_data.icons),
                }
            },
            LootBoxRewardType::Camouflage { id, additional_data } => {
                crate::lootbox::LootBoxRewardType::Camouflage {
                    id: *id,
                    name: additional_data.title.clone(),
                    icon: icon_default_copy(&additional_data.icons),
                }
            },
            LootBoxRewardType::Permoflage { id, ship_id, only_silver, additional_data } => {
                crate::lootbox::LootBoxRewardType::Permoflage {
                    id: *id,
                    name: additional_data.title.clone(),
                    icon: icon_default_copy(&additional_data.icons),
                    is_native: additional_data.is_native,
                    ship_id: *ship_id,
                    only_silver: *only_silver,
                    ship: ship_base_copy(&additional_data.ship),
                }
            },
            LootBoxRewardType::Mskin { id, ship_id, only_silver, additional_data } => {
                crate::lootbox::LootBoxRewardType::Mskin {
                    id: *id,
                    name: additional_data.title.clone(),
                    icon: icon_default_copy(&additional_data.icons),
                    ship_id: *ship_id,
                    only_silver: *only_silver,
                    ship: ship_base_copy(&additional_data.ship),
                }
            },
            LootBoxRewardType::Style { id } => crate::lootbox::LootBoxRewardType::Style {
                id: *id,
            },
            LootBoxRewardType::Crew { id, ship_id, crew_level, additional_data } => {
                crate::lootbox::LootBoxRewardType::Crew {
                    id: *id,
                    ship_id: *ship_id,
                    crew_level: *crew_level,
                    name: additional_data.title.clone(),
                    icon: icon_default_copy(&additional_data.icons),
                }
            },
            LootBoxRewardType::Mulitboost { id, additional_data } => {
                let levels = additional_data.restrictions.levels.clone();
                proof {
                    assert(levels@ =~= additional_data.restrictions.levels@);
                }
                crate::lootbox::LootBoxRewardType::Multiboost {
                    id: *id,
                    name: additional_data.title.clone(),
                    icon: icon_default_copy(&additional_data.icons),
                    restrictions: crate::lootbox::MultiboostRestriction { levels },
                }
            },
            LootBoxRewardType::Ensign { id, additional_data } => {
                crate::lootbox::LootBoxRewardType::Ensign {
                    id: *id,
                    name: additional_data.title.clone(),
                    icon: icon_default_copy(&additional_data.icons),
                }
            },
            LootBoxRewardType::Lootbox { id, additional_data } => {
                crate::lootbox::LootBoxRewardType::Lootbox {
                    id: *id,
                    name: additional_data.title.clone(),
                    icon: icon_default_copy(&additional_data.icons),
                }
            },
        }
    }
}

/// The filler a box declares: a currency, or a reference by unique id to a
/// reward of the box.
#[derive(Debug, Clone, Copy, PartialEq, Eq, Structural)]
pub enum LootBoxFillerType {
    Credits,
    Gold,
    WowsPremium,
    Steel,
    Coal,
    ParagonXp,
    FreeXp,
    EliteXp,
    Slots,
    RecruitmentPoints,
    CamoBoost { id: u64 },
    CollectionAlbum { id: u64 },
    Signal { id: u64 },
    Camouflage { id: u64 },
    Style { id: u64 },
}

/// One filler declaration as the API hands it out.
#[derive(Debug, Clone, Copy)]
pub struct LootBoxFiller {
    pub filler: LootBoxFillerType,
    pub amount: u32,
}

/// The first reward among these whose unique id is `id`, in standard form.
pub open spec fn find_in_rewards(rs: Seq<LootBoxReward>, id: u64) -> Option<RewardTypeView>
    decreases rs.len(),
{
    if rs.len() == 0 {
        Option::None
    } else if spec_get_id(spec_fetch_reward_view(rs[0].reward)) == Option::Some(id) {
        Option::Some(spec_fetch_reward_view(rs[0].reward))
    } else {
        find_in_rewards(rs.skip(1), id)
    }
}

/// The first reward with unique id `id` across these keyed lists.
pub open spec fn find_in_lists(ls: Seq<(String, LootBoxRewardList)>, id: u64) -> Option<
    RewardTypeView,
>
    decreases ls.len(),
{
    if ls.len() == 0 {
        Option::None
    } else {
        match find_in_rewards(ls[0].1.rewards@, id) {
            Option::Some(v) => Option::Some(v),
            Option::None => find_in_lists(ls.skip(1), id),
        }
    }
}

/// The first reward with unique id `id` in one slot, common lists first.
pub open spec fn find_in_slot(s: LootBoxSlot, id: u64) -> Option<RewardTypeView> {
    match find_in_lists(s.common_rewards@, id) {
        Option::Some(v) => Option::Some(v),
        Option::None => find_in_lists(s.valuable_rewards@, id),
    }
}

/// The first reward with unique id `id` anywhere in the box.
pub open spec fn find_in_slots(ss: Seq<LootBoxSlot>, id: u64) -> Option<RewardTypeView>
    decreases ss.len(),
{
    if ss.len() == 0 {
        Option::None
    } else {
        match find_in_slot(ss[0], id) {
            Option::Some(v) => Option::Some(v),
            Option::None => find_in_slots(ss.skip(1), id),
        }
    }
}

/// Looks `id` up among one list sequence's rewards.
fn find_in_lists_exec(ls: &Vec<(String, LootBoxRewardList)>, id: u64) -> (r: Option<
    crate::lootbox::LootBoxRewardType,
>)
    ensures
        match (r, find_in_lists(ls@, id)) {
            (Option::Some(x), Option::Some(v)) => x@ == v,
            (Option::None, Option::None) => true,
            _ => false,
        },
{
    let n = ls.len();
    proof {
        assert(ls@.skip(0) =~= ls@);
    }
    let mut i: usize = 0;
    while i < n
        invariant
            i <= n,
            n == ls.len(),
            find_in_lists(ls@, id) == find_in_lists(ls@.skip(i as int), id),
        decreases n - i,
    {
        proof {
            assert(ls@.skip(i as int)[0] == ls@[i as int]);
            assert(ls@.skip(i as int).skip(1) =~= ls@.skip(i + 1));
        }
        let rewards = &ls[i].1.rewards;
        let rn = rewards.len();
        proof {
            assert(rewards@.skip(0) =~= rewards@);
        }
        let mut j: usize = 0;
        while j < rn
            invariant
                j <= rn,
                i < n == ls.len(),
                rn == ls@[i as int].1.rewards.len(),
                rewards == &ls[i as int].1.rewards,
                find_in_lists(ls@, id) == find_in_lists(ls@.skip(i as int), id),
                find_in_rewards(ls@[i as int].1.rewards@, id) == find_in_rewards(
                    ls@[i as int].1.rewards@.skip(j as int),
                    id,
                ),
            decreases rn - j,
        {
            proof {
                assert(rewards@.skip(j as int)[0] == rewards@[j as int]);
                assert(rewards@.skip(j as int).skip(1) =~= rewards@.skip(j + 1));
            }
            let rid = rewards[j].reward.fetch_id();
            let hit = match rid {
                Some(x) => x == id,
                None => false,
            };
            if hit {
                proof {
                    assert(find_in_rewards(rewards@.skip(j as int), id) == Option::Some(
                        spec_fetch_reward_view(rewards@[j as int].reward),
                    ));
                    assert(ls@.skip(i as int)[0] == ls@[i as int]);
                }
                return Some(rewards[j].reward.standard_copy());
            }
            j = j + 1;
        }
        proof {
            assert(rewards@.skip(rn as int) =~= Seq::<LootBoxReward>::empty());
        }
        i = i + 1;
    }
    proof {
        assert(ls@.skip(n as int) =~= Seq::<(String, LootBoxRewardList)>::empty());
    }
    None
}

/// Looks `id` up among all rewards of the box, slot by slot.
fn find_reward_by_id(slots: &Vec<LootBoxSlot>, id: u64) -> (r: Option<
    crate::lootbox::LootBoxRewardType,
>)
    ensures
        match (r, find_in_slots(slots@, id)) {
            (Option::Some(x), Option::Some(v)) => x@ == v,
            (Option::None, Option::None) => true,
            _ => false,
        },
{
    let n = slots.len();
    proof {
        assert(slots@.skip(0) =~= slots@);
    }
    let mut i: usize = 0;
    while i < n
        invariant
            i <= n,
            n == slots.len(),
            find_in_slots(slots@, id) == find_in_slots(slots@.skip(i as int), id),
        decreases n - i,
    {
        proof {
            assert(slots@.skip(i as int)[0] == slots@[i as int]);
            assert(slots@.skip(i as int).skip(1) =~= slots@.skip(i + 1));
        }
        match find_in_lists_exec(&slots[i].common_rewards, id) {
            Some(x) => {
                return Some(x);
            },
            None => {},
        }
        match find_in_lists_exec(&slots[i].valuable_rewards, id) {
            Some(x) => {
                return Some(x);
            },
            None => {},
        }
        i = i + 1;
    }
    proof {
        assert(slots@.skip(n as int) =~= Seq::<LootBoxSlot>::empty());
    }
    None
}

/// One loot box as the API hands it out.
#[derive(Debug, Clone)]
pub struct LootBox {
    pub title: String,
    pub short_title: String,
    pub id: u64,
    pub name: String,
    pub is_premium: bool,
    pub icons: ItemIcon,
    pub slots: Vec<LootBoxSlot>,
    pub filler: Option<LootBoxFiller>,
}

/// The standard filler a declaration resolves to: currencies map directly,
/// a signal or camouflage reference resolves to the box reward with that
/// unique id, and fails to resolve when no such reward exists.
pub open spec fn spec_filler_std(f: LootBoxFiller, b: LootBox) -> Option<FillerView> {
    match f.filler {
        LootBoxFillerType::Credits => Option::Some(
            FillerView { filler: RewardTypeView::Credits, amount: f.amount },
        ),
        LootBoxFillerType::Gold => Option::Some(
            FillerView { filler: RewardTypeView::Gold, amount: f.amount },
        ),
        LootBoxFillerType::WowsPremium => Option::Some(
            FillerView { filler: RewardTypeView::WowsPremium, amount: f.amount },
        ),
        LootBoxFillerType::Steel => Option::Some(
            FillerView { filler: RewardTypeView::Steel, amount: f.amount },
        ),
        LootBoxFillerType::Coal => Option::Some(
            FillerView { filler: RewardTypeView::Coal, amount: f.amount },
        ),
        LootBoxFillerType::ParagonXp => Option::Some(
            FillerView { filler: RewardTypeView::ParagonXp, amount: f.amount },
        ),
        LootBoxFillerType::FreeXp => Option::Some(
            FillerView { filler: RewardTypeView::FreeXp, amount: f.amount },
        ),
        LootBoxFillerType::EliteXp => Option::Some(
            FillerView { filler: RewardTypeView::EliteXp, amount: f.amount },
        ),
        LootBoxFillerType::Slots => Option::Some(
            FillerView { filler: RewardTypeView::Slots, amount: f.amount },
        ),
        LootBoxFillerType::RecruitmentPoints => Option::Some(
            FillerView { filler: RewardTypeView::RecruitmentPoints, amount: f.amount },
        ),
        LootBoxFillerType::CamoBoost { id } => Option::Some(
            FillerView { filler: RewardTypeView::CamoBoost { id }, amount: f.amount },
        ),
        LootBoxFillerType::CollectionAlbum { id } => Option::Some(
            FillerView { filler: RewardTypeView::CollectionAlbum { id }, amount: f.amount },
        ),
        LootBoxFillerType::Signal { id } => match find_in_slots(b.slots@, id) {
            Option::Some(rt) => Option::Some(FillerView { filler: rt, amount: f.amount }),
            Option::None => Option::None,
        },
        LootBoxFillerType::Camouflage { id } => match find_in_slots(b.slots@, id) {
            Option::Some(rt) => Option::Some(FillerView { filler: rt, amount: f.amount }),
            Option::None => Option::None,
        },
        LootBoxFillerType::Style { id } => Option::Some(
            FillerView { filler: RewardTypeView::Style { id }, amount: f.amount },
        ),
    }
}

impl LootBoxFiller {
    /// The standard filler record of this declaration; a signal or
    /// camouflage reference that names no reward of the box resolves to
    /// nothing.
    pub fn into_standard(self, glob: &LootBox) -> (r: Option<crate::lootbox::LootBoxFiller>)
        ensures
            match (r, spec_filler_std(self, *glob)) {
                (Option::Some(x), Option::Some(v)) => x@ == v,
                (Option::None, Option::None) => true,
                _ => false,
            },
    {
        let filler: Option<crate::lootbox::LootBoxRewardType> = match self.filler {
            LootBoxFillerType::Credits => Some(crate::lootbox::LootBoxRewardType::Credits),
            LootBoxFillerType::Gold => Some(crate::lootbox::LootBoxRewardType::Gold),
            LootBoxFillerType::WowsPremium => Some(
                crate::lootbox::LootBoxRewardType::WowsPremium,
            ),
            LootBoxFillerType::Steel => Some(crate::lootbox::LootBoxRewardType::Steel),
            LootBoxFillerType::Coal => Some(crate::lootbox::LootBoxRewardType::Coal),
            LootBoxFillerType::ParagonXp => Some(crate::lootbox::LootBoxRewardType::ParagonXp),
            LootBoxFillerType::FreeXp => Some(crate::lootbox::LootBoxRewardType::FreeXp),
            LootBoxFillerType::EliteXp => Some(crate::lootbox::LootBoxRewardType::EliteXp),
            LootBoxFillerType::Slots => Some(crate::lootbox::LootBoxRewardType::Slots),
            LootBoxFillerType::RecruitmentPoints => Some(
                crate::lootbox::LootBoxRewardType::RecruitmentPoints,
            ),
            LootBoxFillerType::CamoBoost { id } => Some(
                crate::lootbox::LootBoxRewardType::CamoBoost { id },
            ),
            LootBoxFillerType::CollectionAlbum { id } => Some(
                crate::lootbox::LootBoxRewardType::CollectionAlbum { id },
            ),
            LootBoxFillerType::Signal { id } => find_reward_by_id(&glob.slots, id),
            LootBoxFillerType::Camouflage { id } => find_reward_by_id(&glob.slots, id),
            LootBoxFillerType::Style { id } => Some(
                crate::lootbox::LootBoxRewardType::Style { id },
            ),
        };
        match filler {
            Some(ft) => Some(crate::lootbox::LootBoxFiller { filler: ft, amount: self.amount }),
            None => None,
        }
    }
}

/// The standard catalog an API box converts to, or nothing when its filler
/// cannot be resolved.
pub open spec fn spec_box_std_view(b: LootBox) -> Option<BoxView> {
    let filler = match b.filler {
        Option::Some(f) => match spec_filler_std(f, b) {
            Option::Some(fv) => Option::Some(Option::Some(fv)),
            Option::None => Option::None,
        },
        Option::None => Option::Some(Option::None),
    };
    match filler {
        Option::None => Option::None,
        Option::Some(fv) => Option::Some(
            BoxView {
                name: b.title@,
                short_name: b.short_title@,
                wows_name_id: b.name@,
                id: b.id,
                is_premium: b.is_premium,
                icon: spec_icon_default(b.icons),
                slots: b.slots@.map_values(|s: LootBoxSlot| spec_slot_std_view(s)),
                filler: fv,
                save_point: slots_save_point(b.slots@),
            },
        ),
    }
}

/// The standard slot views of a slot sequence.
pub open spec fn slots_std_view(ss: Seq<LootBoxSlot>) -> Seq<SlotView> {
    ss.map_values(|s: LootBoxSlot| spec_slot_std_view(s))
}

impl LootBox {
    /// The standard catalog of this box: slots and rewards converted, the
    /// pity threshold taken as the largest declared one, and the filler
    /// resolved; a box whose filler cannot be resolved converts to nothing.
    pub fn into_standrad(self) -> (r: Option<crate::lootbox::LootBox>)
        ensures
            match (r, spec_box_std_view(self)) {
                (Option::Some(x), Option::Some(v)) => x@ == v,
                (Option::None, Option::None) => true,
                _ => false,
            },
    {
        let ghost me = self;
        let sn = self.slots.len();
        let mut save_point: Option<u32> = None;
        let mut i: usize = 0;
        while i < sn
            invariant
                i <= sn,
                sn == self.slots.len(),
                save_point == slots_save_point(self.slots@.take(i as int)),
            decreases sn - i,
        {
            proof {
                assert(self.slots@.take(i + 1).drop_last() =~= self.slots@.take(i as int));
                assert(self.slots@.take(i + 1).last() == self.slots@[i as int]);
            }
            let slot = &self.slots[i];
            let sp = opt_max_exec(
                lists_save_point_exec(&slot.common_rewards),
                lists_save_point_exec(&slot.valuable_rewards),
            );
            save_point = opt_max_exec(save_point, sp);
            i = i + 1;
        }
        proof {
            assert(self.slots@.take(sn as int) =~= self.slots@);
        }
        let filler_decl: Option<LootBoxFiller> = self.filler;
        let filler: Option<crate::lootbox::LootBoxFiller> = match filler_decl {
            Some(f) => match f.into_standard(&self) {
                Some(x) => Some(x),
                None => {
                    return None;
                },
            },
            None => None,
        };
        let mut rem = self.slots;
        let ghost orig = rem@;
        let mut out: Vec<crate::lootbox::LootBoxSlot> = Vec::new();
        proof {
            assert(orig.skip(0) =~= orig);
            assert(out@.map_values(|s: crate::lootbox::LootBoxSlot| s@) =~= slots_std_view(
                orig.take(0),
            ));
        }
        while rem.len() > 0
            invariant
                out@.len() <= orig.len(),
                rem@ == orig.skip(out@.len() as int),
                out@.map_values(|s: crate::lootbox::LootBoxSlot| s@) == slots_std_view(
                    orig.take(out@.len() as int),
                ),
            decreases rem.len(),
        {
            let ghost k = out@.len() as int;
            let ghost outb = out@;
            let slot = rem.remove(0);
            proof {
                assert(slot == orig[k]);
                assert(rem@ =~= orig.skip(k + 1));
            }
            let c = slot.into_standard();
            out.push(c);
            proof {
                let lhs = out@.map_values(|s: crate::lootbox::LootBoxSlot| s@);
                let rhs = slots_std_view(orig.take(k + 1));
                assert forall|j: int| 0 <= j < lhs.len() implies lhs[j] == rhs[j] by {
                    if j < k {
                        assert(outb.map_values(|s: crate::lootbox::LootBoxSlot| s@)[j]
                            == slots_std_view(orig.take(k))[j]);
                        assert(lhs[j] == outb[j]@);
                        assert(rhs[j] == spec_slot_std_view(orig[j]));
                    } else {
                        assert(lhs[j] == c@);
                        assert(rhs[j] == spec_slot_std_view(orig[k]));
                    }
                }
                assert(lhs =~= rhs);
            }
        }
        proof {
            assert(orig.take(orig.len() as int) =~= orig);
        }
        let r = crate::lootbox::LootBox {
            name: self.title,
            short_name: self.short_title,
            wows_name_id: self.name,
            id: self.id,
            is_premium: self.is_premium,
            icon: self.icons.into_default(),
            slots: out,
            filler,
            save_point,
        };
        proof {
            assert(r@.slots =~= spec_box_std_view(me).unwrap().slots);
        }
        Some(r)
    }
}

/// What the catalog API answers: a box, or an error status.
#[derive(Debug, Clone)]
pub enum LootBoxFetchResponse {
    Success { data: LootBox },
    Error,
}

impl LootBoxFetchResponse {
    /// Whether the answer carries a box.
    pub fn is_ok(&self) -> (r: bool)
        ensures
            r == (self is Success),
    {
        match self {
            LootBoxFetchResponse::Success { .. } => true,
            _ => false,
        }
    }

    /// Whether the answer is an error status.
    pub fn is_err(&self) -> (r: bool)
        ensures
            r == !(self is Success),
    {
        !self.is_ok()
    }

    /// The box of a successful answer.
    pub fn ok(self) -> (r: Option<LootBox>)
        ensures
            match (self, r) {
                (LootBoxFetchResponse::Success { data }, Option::Some(d)) => d == data,
                (LootBoxFetchResponse::Error, Option::None) => true,
                _ => false,
            },
    {
        match self {
            LootBoxFetchResponse::Success { data } => Some(data),
            LootBoxFetchResponse::Error => None,
        }
    }
}

} // verus!
