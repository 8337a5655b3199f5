use wows_box::currencies::CurrencyType;
use wows_box::fetch::currency as fc;
use wows_box::fetch::currency::fetch_currency_image;
use wows_box::fetch::item::{ItemIcon, ItemType};
use wows_box::fetch::lootbox as fetch_box;
use wows_box::lootbox::LootBoxRewardType;

fn icons(default: &str) -> ItemIcon {
    ItemIcon { small: None, large: None, default: default.to_owned() }
}

#[test]
fn get_id_of_currencies_is_none() {
    assert_eq!(LootBoxRewardType::Credits.get_id(), None);
    assert_eq!(LootBoxRewardType::WowsPremium.get_id(), None);
}

#[test]
fn get_id_of_complex_rewards_is_their_id() {
    assert_eq!(LootBoxRewardType::CamoBoost { id: 9 }.get_id(), Some(9));
    assert_eq!(LootBoxRewardType::Style { id: 44 }.get_id(), Some(44));
    let ship = LootBoxRewardType::Ship {
        crew_level: Some(10),
        ship_level: 9,
        id: 4277,
        name: "ship".to_owned(),
        is_premium: false,
        is_special: false,
        icon: String::new(),
    };
    assert_eq!(ship.get_id(), Some(4277));
}

#[test]
fn precedence_of_currencies() {
    assert_eq!(LootBoxRewardType::Gold.as_precedence(), (9, None));
    assert_eq!(LootBoxRewardType::Credits.as_precedence(), (18, None));
    assert_eq!(LootBoxRewardType::Coal.as_precedence(), (12, None));
    // Currencies without an explicit rank share the catch-all rank.
    assert_eq!(LootBoxRewardType::Eventum3.as_precedence(), (11, None));
}

#[test]
fn precedence_of_ship_packs_flags_level_and_id() {
    let ship = LootBoxRewardType::Ship {
        crew_level: Some(6),
        ship_level: 8,
        id: 0x1_0000_0005,
        name: "s".to_owned(),
        is_premium: true,
        is_special: false,
        icon: String::new(),
    };
    let expected: u64 =
        0x1000000000000 + 8 * 0x10000000000 + 6 * 0x100000000 + (0x1_0000_0005u64 % 0x100000000);
    assert_eq!(ship.as_precedence(), (1, Some(expected)));
}

#[test]
fn precedence_of_crew_packs_level_and_id() {
    let crew = LootBoxRewardType::Crew {
        id: 321,
        ship_id: 0,
        crew_level: 21,
        name: "c".to_owned(),
        icon: String::new(),
    };
    let expected: u64 = 21u64 * 0x100000000000000 + 321;
    assert_eq!(crew.as_precedence(), (6, Some(expected)));
}

#[test]
fn precedence_of_multiboost_uses_largest_level() {
    let boost = LootBoxRewardType::Multiboost {
        id: 5,
        name: "m".to_owned(),
        icon: String::new(),
        restrictions: wows_box::lootbox::MultiboostRestriction { levels: vec![3, 9, 6] },
    };
    let expected: u64 = 9u64 * 0x100000000000000 + 5;
    assert_eq!(boost.as_precedence(), (7, Some(expected)));
}

#[test]
fn icon_paths_are_completed() {
    assert_eq!(
        icons("https://example.net/a.png").into_default(),
        "https://example.net/a.png"
    );
    assert_eq!(
        icons("//cdn.example.net/a.png").into_default(),
        "https://cdn.example.net/a.png"
    );
    assert_eq!(
        icons("a.png").into_default(),
        "https://wows-gloss-icons.wgcdn.co/icons/a.png"
    );
}

#[test]
fn currency_icon_and_names() {
    assert_eq!(CurrencyType::FreeXp.as_icon_name(), "free-xp");
    assert_eq!(CurrencyType::ClanResource.as_icon_name(), "clan-resource");
    assert_eq!(CurrencyType::Gold.as_name_string("en"), "Doubloons");
    assert_eq!(CurrencyType::Gold.as_name_string("zh-sg"), "达布隆");
    assert_eq!(CurrencyType::Gold.as_name_string("fr"), "Unknown");
}

#[test]
fn currency_image_address() {
    assert_eq!(
        fetch_currency_image(CurrencyType::Steel, "1.2.3"),
        "https://wows-web-static.wgcdn.co/wowsp/1.2.3/browserAssets/img/steel.png"
    );
}

#[test]
fn fetch_currency_conversion_drops_unknown_names() {
    assert_eq!(
        fetch_box::LootBoxFetchResponse::Error.is_err(),
        true
    );
    assert_eq!(fc::CurrencyType::Coal.into_standard(), Some(CurrencyType::Coal));
    assert_eq!(fc::CurrencyType::Verbatim.into_standard(), None);
    let data = fc::CurrencyData {
        name: fc::CurrencyType::Steel,
        title: "whatever".to_owned(),
        icons: icons("steel.png"),
    };
    let std = data.into_standard("en").unwrap();
    assert_eq!(std.currency, CurrencyType::Steel);
    assert_eq!(std.name, "Steel");
    assert_eq!(std.icon, "https://wows-gloss-icons.wgcdn.co/icons/steel.png");
}

#[test]
fn item_and_album_conversion() {
    let item = wows_box::fetch::item::ItemData {
        title: "Signal".to_owned(),
        description: String::new(),
        id: 42,
        title_short: "Sig".to_owned(),
        kind_name: "signal".to_owned(),
        icons: icons("sig.png"),
        item_type: ItemType { name: "signal".to_owned(), title: "Signal".to_owned() },
    };
    let std = item.into_standard();
    assert_eq!(std.name, "Signal");
    assert_eq!(std.short_name, "Sig");
    assert_eq!(std.id, 42);

    let album = wows_box::fetch::album::AlbumData {
        id: 7,
        icons: icons("alb.png"),
        title: "Album".to_owned(),
        description: String::new(),
    };
    let as_item = album.into_standard().into_item();
    assert_eq!(as_item.id, 7);
    assert_eq!(as_item.name, "Album");
    assert_eq!(as_item.short_name, "");
}

fn fetch_reward(
    rt: fetch_box::LootBoxRewardType,
    probability: Option<u64>,
    amount: u32,
) -> fetch_box::LootBoxReward {
    fetch_box::LootBoxReward {
        probability: probability.map(|p| fetch_box::RewardProbability {
            probability: p,
            weight: 0,
            probability_displayed: p,
        }),
        amount,
        reward: rt,
    }
}

fn fetch_list(
    probability: Option<u64>,
    save_point: Option<u32>,
    rewards: Vec<fetch_box::LootBoxReward>,
    unique: bool,
) -> fetch_box::LootBoxRewardList {
    fetch_box::LootBoxRewardList {
        title: "list".to_owned(),
        short_title: String::new(),
        probability: probability.map(|p| fetch_box::RewardProbability {
            probability: p,
            weight: 0,
            probability_displayed: p,
        }),
        save_point,
        has_unique_rewards: unique,
        rewards,
    }
}

#[test]
fn list_conversion_shares_rate_among_unrated_rewards() {
    // Declared probabilities sum to 300 000; the two unrated rewards share
    // the list rate equally.
    let l = fetch_list(
        None,
        None,
        vec![
            fetch_reward(fetch_box::LootBoxRewardType::Credits, Some(300_000), 1),
            fetch_reward(fetch_box::LootBoxRewardType::Gold, None, 1),
            fetch_reward(fetch_box::LootBoxRewardType::Coal, None, 1),
        ],
        false,
    );
    let std = l.into_standard();
    assert_eq!(std.probability, 300_000);
    assert_eq!(std.rewards[0].probability, 300_000);
    assert_eq!(std.rewards[1].probability, 150_000);
    assert_eq!(std.rewards[2].probability, 150_000);
}

fn simple_fetch_box(filler: Option<fetch_box::LootBoxFiller>) -> fetch_box::LootBox {
    let signal = fetch_box::LootBoxRewardType::Signal {
        id: 900,
        additional_data: fetch_box::SignalData { title: "Sierra".to_owned() },
    };
    let common = fetch_list(
        Some(1_000_000),
        Some(25),
        vec![fetch_reward(signal, Some(1_000_000), 2)],
        false,
    );
    fetch_box::LootBox {
        title: "Box".to_owned(),
        short_title: "B".to_owned(),
        id: 31,
        name: "box_31".to_owned(),
        is_premium: true,
        icons: icons("box.png"),
        slots: vec![fetch_box::LootBoxSlot {
            common_rewards: vec![("one".to_owned(), common)],
            continuous_rewards: false,
            valuable_rewards: vec![],
            title: "slot".to_owned(),
        }],
        filler,
    }
}

#[test]
fn box_conversion_keeps_save_point_and_resolves_signal_filler() {
    let filler = fetch_box::LootBoxFiller {
        filler: fetch_box::LootBoxFillerType::Signal { id: 900 },
        amount: 3,
    };
    let b = simple_fetch_box(Some(filler)).into_standrad().unwrap();
    assert_eq!(b.name, "Box");
    assert_eq!(b.wows_name_id, "box_31");
    assert_eq!(b.save_point, Some(25));
    assert_eq!(b.slots.len(), 1);
    assert_eq!(b.slots[0].common.len(), 1);
    assert_eq!(b.slots[0].common[0].probability, 1_000_000);
    let f = b.filler.unwrap();
    assert_eq!(f.amount, 3);
    match f.filler {
        LootBoxRewardType::Signal { id, ref name } => {
            assert_eq!(id, 900);
            assert_eq!(name, "Sierra");
        },
        _ => panic!("filler did not resolve to the signal"),
    }
}

#[test]
fn box_conversion_fails_on_unresolvable_filler() {
    let filler = fetch_box::LootBoxFiller {
        filler: fetch_box::LootBoxFillerType::Camouflage { id: 12345 },
        amount: 1,
    };
    assert!(simple_fetch_box(Some(filler)).into_standrad().is_none());
}

#[test]
fn fetch_response_accessors() {
    let resp = fetch_box::LootBoxFetchResponse::Success { data: simple_fetch_box(None) };
    assert!(resp.is_ok());
    assert!(!resp.is_err());
    assert!(resp.ok().is_some());
    let err = fetch_box::LootBoxFetchResponse::Error;
    assert!(err.is_err());
    assert!(err.ok().is_none());
}
