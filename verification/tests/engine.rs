use wows_box::lootbox::{
    eq_reward_type, validate, ConfigError, LootBox, LootBoxFiller, LootBoxReward,
    LootBoxRewardList, LootBoxRewardType, LootBoxSlot,
};
use wows_box::rand::{rand_multi, rand_single, simulate, RandEntry, SessionState};
use wows_box::rng::SeededRng;

fn reward(rt: LootBoxRewardType, probability: u64, amount: u32) -> LootBoxReward {
    LootBoxReward { probability, amount, reward: rt }
}

fn pool(
    name: &str,
    probability: u64,
    rewards: Vec<LootBoxReward>,
    has_unique_rewards: bool,
) -> LootBoxRewardList {
    LootBoxRewardList {
        name: name.to_owned(),
        short_name: String::new(),
        probability,
        rewards,
        has_unique_rewards,
    }
}

fn slot(common: Vec<LootBoxRewardList>, valuable: Vec<LootBoxRewardList>) -> LootBoxSlot {
    LootBoxSlot { common, valuable, name: "slot".to_owned(), continuous_rewards: false }
}

fn boxed(
    slots: Vec<LootBoxSlot>,
    filler: Option<LootBoxFiller>,
    save_point: Option<u32>,
) -> LootBox {
    LootBox {
        name: "test box".to_owned(),
        short_name: String::new(),
        wows_name_id: "test".to_owned(),
        id: 1,
        is_premium: false,
        icon: String::new(),
        slots,
        filler,
        save_point,
    }
}

fn ship(id: u64) -> LootBoxRewardType {
    LootBoxRewardType::Ship {
        crew_level: None,
        ship_level: 8,
        id,
        name: format!("ship {}", id),
        is_premium: true,
        is_special: false,
        icon: String::new(),
    }
}

fn two_currency_box() -> LootBox {
    let p = pool(
        "all",
        1_000_000,
        vec![
            reward(LootBoxRewardType::Credits, 500_000, 10),
            reward(LootBoxRewardType::Gold, 500_000, 1),
        ],
        false,
    );
    boxed(vec![slot(vec![p], vec![])], None, None)
}

fn amount_of(totals: &[RandEntry], rt: &LootBoxRewardType, guaranteed: bool) -> Option<u64> {
    for e in totals {
        if e.is_guaranteed == guaranteed && eq_reward_type(&e.reward_type, rt) {
            return Some(e.amount);
        }
    }
    None
}

fn guaranteed_sum(totals: &[RandEntry], guaranteed: bool) -> u64 {
    totals
        .iter()
        .filter(|e| e.is_guaranteed == guaranteed)
        .map(|e| e.amount)
        .sum()
}

fn fresh_session() -> SessionState {
    SessionState { pity_counter: 0, owned_unique_ids: Vec::new() }
}

#[test]
fn validate_accepts_two_currency_box() {
    let b = two_currency_box();
    assert_eq!(validate(&b), Ok(()));
}

#[test]
fn validate_rejects_pool_probability_mismatch() {
    // The pool declares 1.0 but its rewards only sum to 0.5.
    let p = pool(
        "off",
        1_000_000,
        vec![reward(LootBoxRewardType::Credits, 500_000, 1)],
        false,
    );
    let b = boxed(vec![slot(vec![p], vec![])], None, None);
    assert_eq!(validate(&b), Err(ConfigError::ProbabilityMismatch));
}

#[test]
fn validate_rejects_slot_budget_mismatch() {
    // Pool is self-consistent but the slot's budget is only 0.5.
    let p = pool(
        "half",
        500_000,
        vec![reward(LootBoxRewardType::Credits, 500_000, 1)],
        false,
    );
    let b = boxed(vec![slot(vec![p], vec![])], None, None);
    assert_eq!(validate(&b), Err(ConfigError::ProbabilityMismatch));
}

#[test]
fn validate_accepts_tolerance_drift() {
    // 0.995 is within the 0.01 tolerance of the slot budget.
    let p = pool(
        "near",
        995_000,
        vec![reward(LootBoxRewardType::Credits, 995_000, 1)],
        false,
    );
    let b = boxed(vec![slot(vec![p], vec![])], None, None);
    assert_eq!(validate(&b), Ok(()));
}

#[test]
fn validate_rejects_empty_unique_pool_without_filler() {
    let common = pool(
        "common",
        1_000_000,
        vec![reward(LootBoxRewardType::Credits, 1_000_000, 1)],
        false,
    );
    let empty_unique = pool("unique", 0, vec![], true);
    let b = boxed(vec![slot(vec![common], vec![empty_unique])], None, None);
    assert_eq!(validate(&b), Err(ConfigError::UnsatisfiableUniquePool));
}

#[test]
fn validate_accepts_empty_unique_pool_with_filler() {
    let common = pool(
        "common",
        1_000_000,
        vec![reward(LootBoxRewardType::Credits, 1_000_000, 1)],
        false,
    );
    let empty_unique = pool("unique", 0, vec![], true);
    let filler = LootBoxFiller { filler: LootBoxRewardType::Credits, amount: 5 };
    let b = boxed(vec![slot(vec![common], vec![empty_unique])], Some(filler), None);
    assert_eq!(validate(&b), Ok(()));
}

#[test]
fn validate_is_idempotent() {
    let good = two_currency_box();
    assert_eq!(validate(&good), validate(&good));
    let common = pool(
        "common",
        1_000_000,
        vec![reward(LootBoxRewardType::Credits, 1_000_000, 1)],
        false,
    );
    let empty_unique = pool("unique", 0, vec![], true);
    let bad = boxed(vec![slot(vec![common], vec![empty_unique])], None, None);
    assert_eq!(validate(&bad), validate(&bad));
}

#[test]
fn concrete_scenario_seed_42() {
    // One slot, one common pool with Credits (amount 10) and Gold (amount 1)
    // at half probability each; two draws with seed 42 give exactly one of
    // each.
    let b = two_currency_box();
    let out = simulate(&b, 2, &fresh_session(), 42).unwrap();
    assert_eq!(
        amount_of(&out.totals, &LootBoxRewardType::Credits, false),
        Some(10)
    );
    assert_eq!(amount_of(&out.totals, &LootBoxRewardType::Gold, false), Some(1));
    assert_eq!(out.totals.len(), 2);
    assert_eq!(out.session.pity_counter, 2);
    assert!(out.session.owned_unique_ids.is_empty());
}

#[test]
fn simulate_is_deterministic() {
    let b = two_currency_box();
    let r1 = simulate(&b, 50, &fresh_session(), 123456789).unwrap();
    let r2 = simulate(&b, 50, &fresh_session(), 123456789).unwrap();
    assert_eq!(r1.totals.len(), r2.totals.len());
    for (a, b2) in r1.totals.iter().zip(r2.totals.iter()) {
        assert!(eq_reward_type(&a.reward_type, &b2.reward_type));
        assert_eq!(a.is_guaranteed, b2.is_guaranteed);
        assert_eq!(a.amount, b2.amount);
    }
    assert_eq!(r1.session.pity_counter, r2.session.pity_counter);
    assert_eq!(r1.session.owned_unique_ids, r2.session.owned_unique_ids);
}

#[test]
fn different_seeds_diverge() {
    // Not a law, only a sanity check that the seed matters: over enough
    // draws, two far-apart seeds give different Credits totals.
    let b = two_currency_box();
    let r1 = simulate(&b, 1000, &fresh_session(), 1).unwrap();
    let r2 = simulate(&b, 1000, &fresh_session(), 999_999_937).unwrap();
    let c1 = amount_of(&r1.totals, &LootBoxRewardType::Credits, false);
    let c2 = amount_of(&r2.totals, &LootBoxRewardType::Credits, false);
    assert_ne!(c1, c2);
}

fn pity_box() -> LootBox {
    let common = pool(
        "common",
        900_000,
        vec![reward(LootBoxRewardType::Credits, 900_000, 1)],
        false,
    );
    let unique = pool("unique", 100_000, vec![reward(ship(1), 100_000, 1)], true);
    let filler = LootBoxFiller { filler: LootBoxRewardType::Credits, amount: 5 };
    boxed(vec![slot(vec![common], vec![unique])], Some(filler), Some(5))
}

#[test]
fn pity_triggers_exactly_on_fifth_draw() {
    // Threshold 5, five draws from a fresh counter: exactly the fifth is
    // guaranteed and the counter returns to zero.  With seed 1 the lone ship
    // falls in an ordinary draw, so the guaranteed draw hands out the
    // filler.
    let b = pity_box();
    let out = simulate(&b, 5, &fresh_session(), 1).unwrap();
    assert_eq!(out.session.pity_counter, 0);
    assert_eq!(guaranteed_sum(&out.totals, true), 5);
    assert_eq!(guaranteed_sum(&out.totals, false), 4);
    assert_eq!(
        amount_of(&out.totals, &LootBoxRewardType::Credits, true),
        Some(5)
    );
    assert_eq!(out.session.owned_unique_ids, vec![1]);
}

#[test]
fn pity_does_not_trigger_before_threshold() {
    let b = pity_box();
    let out = simulate(&b, 4, &fresh_session(), 1).unwrap();
    assert_eq!(out.session.pity_counter, 4);
    assert_eq!(guaranteed_sum(&out.totals, true), 0);
    assert_eq!(guaranteed_sum(&out.totals, false), 4);
}

#[test]
fn pity_counter_resumes_from_session() {
    // Starting at counter 3, two draws trigger once (on the second) and
    // leave the counter at zero again.
    let b = pity_box();
    let session = SessionState { pity_counter: 3, owned_unique_ids: Vec::new() };
    let out = simulate(&b, 2, &session, 9).unwrap();
    assert_eq!(out.session.pity_counter, 0);
    assert!(out.totals.iter().any(|e| e.is_guaranteed));
}

fn unique_three_box() -> LootBox {
    let unique = pool(
        "unique",
        1_000_000,
        vec![
            reward(ship(11), 400_000, 1),
            reward(ship(12), 300_000, 1),
            reward(ship(13), 300_000, 1),
        ],
        true,
    );
    let filler = LootBoxFiller { filler: LootBoxRewardType::Credits, amount: 7 };
    boxed(vec![slot(vec![], vec![unique])], Some(filler), Some(1))
}

#[test]
fn unique_pool_hands_out_each_candidate_once_then_filler() {
    // Threshold 1 makes every draw guaranteed; three distinct candidates
    // and five draws give all three ships once and the filler twice.
    let b = unique_three_box();
    let out = simulate(&b, 5, &fresh_session(), 3).unwrap();
    assert_eq!(amount_of(&out.totals, &ship(11), true), Some(1));
    assert_eq!(amount_of(&out.totals, &ship(12), true), Some(1));
    assert_eq!(amount_of(&out.totals, &ship(13), true), Some(1));
    assert_eq!(
        amount_of(&out.totals, &LootBoxRewardType::Credits, true),
        Some(14)
    );
    let mut owned = out.session.owned_unique_ids.clone();
    assert_eq!(owned.len(), 3);
    owned.sort();
    assert_eq!(owned, vec![11, 12, 13]);
}

#[test]
fn owned_ids_exclude_candidates_across_runs() {
    // A session that already owns two of the three candidates only ever
    // sees the third.
    let b = unique_three_box();
    let session = SessionState { pity_counter: 0, owned_unique_ids: vec![11, 13] };
    let out = simulate(&b, 1, &session, 5).unwrap();
    assert_eq!(amount_of(&out.totals, &ship(12), true), Some(1));
    assert_eq!(out.session.owned_unique_ids, vec![11, 13, 12]);
}

#[test]
fn exhausted_unique_pool_without_filler_fails_the_run() {
    // One candidate, no filler: the catalog validates, but a second
    // guaranteed draw finds the pool exhausted and the whole call fails.
    let unique = pool("unique", 1_000_000, vec![reward(ship(1), 1_000_000, 1)], true);
    let b = boxed(vec![slot(vec![], vec![unique])], None, Some(1));
    assert_eq!(validate(&b), Ok(()));
    let r = simulate(&b, 2, &fresh_session(), 1);
    assert_eq!(r.err(), Some(ConfigError::RuntimeInvariantViolation));
    let ok = simulate(&b, 1, &fresh_session(), 1).unwrap();
    assert_eq!(amount_of(&ok.totals, &ship(1), true), Some(1));
}

#[test]
fn invalid_catalog_never_simulates() {
    let p = pool(
        "off",
        1_000_000,
        vec![reward(LootBoxRewardType::Credits, 500_000, 1)],
        false,
    );
    let b = boxed(vec![slot(vec![p], vec![])], None, None);
    let r = simulate(&b, 10, &fresh_session(), 4);
    assert_eq!(r.err(), Some(ConfigError::ProbabilityMismatch));
}

#[test]
fn statistical_convergence_over_twenty_seeds() {
    // Two equal rewards of amount one, no pity, no uniqueness: over 100 000
    // draws each side lands within one percent of 50 000, for every seed
    // from 1 to 20.  The generator is deterministic, so this never flakes.
    let p = pool(
        "all",
        1_000_000,
        vec![
            reward(LootBoxRewardType::Credits, 500_000, 1),
            reward(LootBoxRewardType::Gold, 500_000, 1),
        ],
        false,
    );
    let b = boxed(vec![slot(vec![p], vec![])], None, None);
    for seed in 1..=20u64 {
        let out = simulate(&b, 100_000, &fresh_session(), seed).unwrap();
        let credits = amount_of(&out.totals, &LootBoxRewardType::Credits, false).unwrap();
        let gold = amount_of(&out.totals, &LootBoxRewardType::Gold, false).unwrap();
        assert_eq!(credits + gold, 100_000);
        assert!((49_500..=50_500).contains(&credits), "seed {}: {}", seed, credits);
    }
}

#[test]
fn rand_single_draws_one_reward_per_slot() {
    let b = two_currency_box();
    let mut rng = SeededRng::new(8);
    let rewards = rand_single(&mut rng, &b, &Vec::new()).unwrap();
    assert_eq!(rewards.len(), 1);
    assert!(!rewards[0].is_unique);
}

#[test]
fn rand_multi_matches_simulate_totals() {
    // The multi-roll entry point and the full simulation agree on the
    // totals for the same seed and session.
    let b = pity_box();
    let mut rng = SeededRng::new(77);
    let totals = rand_multi(&mut rng, &b, 7, &Vec::new(), 0).unwrap();
    let out = simulate(&b, 7, &fresh_session(), 77).unwrap();
    assert_eq!(totals.len(), out.totals.len());
    for (a, b2) in totals.iter().zip(out.totals.iter()) {
        assert!(eq_reward_type(&a.reward_type, &b2.reward_type));
        assert_eq!(a.is_guaranteed, b2.is_guaranteed);
        assert_eq!(a.amount, b2.amount);
    }
}

#[test]
fn zero_draws_change_nothing_but_return_the_session() {
    let b = two_currency_box();
    let session = SessionState { pity_counter: 2, owned_unique_ids: vec![5] };
    let out = simulate(&b, 0, &session, 1).unwrap();
    assert!(out.totals.is_empty());
    assert_eq!(out.session.pity_counter, 2);
    assert_eq!(out.session.owned_unique_ids, vec![5]);
}

#[test]
fn a_box_without_slots_draws_nothing() {
    let b = boxed(vec![], None, None);
    assert_eq!(validate(&b), Ok(()));
    let out = simulate(&b, 3, &fresh_session(), 10).unwrap();
    assert!(out.totals.is_empty());
    assert_eq!(out.session.pity_counter, 3);
}

#[test]
fn seeded_generators_agree_per_seed() {
    let mut a = SeededRng::new(99);
    let mut b = SeededRng::new(99);
    for bound in [2u64, 10, 1_000_000, u64::MAX] {
        assert_eq!(a.gen_range(bound), b.gen_range(bound));
    }
    let mut c = SeededRng::new(100);
    let firsts: Vec<u64> = (0..4).map(|_| c.next_u64()).collect();
    let mut d = SeededRng::new(100);
    let again: Vec<u64> = (0..4).map(|_| d.next_u64()).collect();
    assert_eq!(firsts, again);
}

#[test]
fn rand_unique_draws_only_from_unique_pools() {
    // The guaranteed opening of the pity box can only yield the ship or,
    // once it is owned, the filler; never the common Credits line of an
    // ordinary draw.
    let b = pity_box();
    for seed in 0..16u64 {
        let mut rng = SeededRng::new(seed);
        let rewards = wows_box::rand::rand_unique(&mut rng, &b, &Vec::new()).unwrap();
        assert_eq!(rewards.len(), 1);
        assert!(rewards[0].is_unique);
        assert!(eq_reward_type(&rewards[0].reward_type, &ship(1)));
    }
}
