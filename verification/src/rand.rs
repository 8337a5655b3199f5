//! The draw engine: weighted sampling, pity and uniqueness.
//!
//! Every function here is deterministic: its outcome is pinned, through the
//! spec functions below, to the catalog, the exclusion list and the state of
//! the caller's generator.  A draw walks the pools of a slot subtracting
//! probabilities from a seed until the seed falls inside a pool, then picks
//! a reward the same way (weighted) or uniformly among the not-yet-owned
//! candidates of a unique-flagged pool, falling back to the catalog's filler
//! once a unique pool is exhausted.

use vstd::prelude::*;

use crate::lootbox::{
    box_valid, eq_reward_type, lemma_sum_pool_probs_append, lemma_sum_pool_probs_nonneg,
    pools_view, slot_pools, slot_valid, spec_get_id, spec_validate, sum_pool_probs, validate,
    BoxView, ConfigError, FillerView, LootBox, LootBoxFiller, LootBoxRewardList,
    LootBoxRewardType, LootBoxSlot, PoolView, RewardTypeView, RewardView, SlotView, PROB_SCALE,
    PROB_TOLERANCE,
};
use crate::rng::{spec_draw, SeededRng};

verus! {

/// One drawn reward: its amount, its type, and whether it came from a
/// unique-flagged pool.
#[derive(Debug)]
pub struct RandResult {
    pub amount: u32,
    pub reward_type: LootBoxRewardType,
    pub is_unique: bool,
}

/// Mathematical image of `RandResult`.
pub struct ResultView {
    pub amount: u32,
    pub reward: RewardTypeView,
    pub is_unique: bool,
}

impl View for RandResult {
    type V = ResultView;

    open spec fn view(&self) -> ResultView {
        ResultView {
            amount: self.amount,
            reward: self.reward_type@,
            is_unique: self.is_unique,
        }
    }
}

impl RandResult {
    /// Packs one drawn reward.
    pub fn new(amount: u32, reward_type: LootBoxRewardType, is_unique: bool) -> (r: RandResult)
        ensures
            r@ == (ResultView { amount, reward: reward_type@, is_unique }),
    {
        RandResult { amount, reward_type, is_unique }
    }
}

/// The pools a draw walks: the elements of `common ++ valuable` that `sel`
/// picks, in `sel`'s order.
pub open spec fn sel_pools(
    common: Seq<LootBoxRewardList>,
    valuable: Seq<LootBoxRewardList>,
    sel: Seq<usize>,
) -> Seq<PoolView> {
    sel.map_values(|k: usize| (pools_view(common) + pools_view(valuable))[k as int])
}

/// The declared probabilities of a sequence of pools.
pub open spec fn pool_probs(ps: Seq<PoolView>) -> Seq<u64> {
    ps.map_values(|p: PoolView| p.probability)
}

/// The probabilities of a pool's rewards.
pub open spec fn reward_probs(rs: Seq<RewardView>) -> Seq<u64> {
    rs.map_values(|r: RewardView| r.probability)
}

/// Cumulative-weight selection: starting at position `i`, keep subtracting
/// `probs[i]` from `seed` until `seed` falls below the current weight; the
/// last position is a catch-all, so rounding drift never falls through.
pub open spec fn walk_from(probs: Seq<u64>, seed: int, i: int) -> int
    decreases probs.len() - i,
        when 0 <= i < probs.len()
{
    if i >= probs.len() - 1 {
        i
    } else if seed < probs[i] {
        i
    } else {
        walk_from(probs, seed - probs[i], i + 1)
    }
}

pub proof fn lemma_walk_from_range(probs: Seq<u64>, seed: int, i: int)
    requires
        0 <= i < probs.len(),
    ensures
        i <= walk_from(probs, seed, i) < probs.len(),
    decreases probs.len() - i,
{
    if i < probs.len() - 1 && seed >= probs[i] {
        lemma_walk_from_range(probs, seed - probs[i], i + 1);
    }
}

/// Whether a reward is still available: it has no unique id, or its id is
/// not in the exclusion list.
pub open spec fn reward_available(r: RewardView, excluded: Seq<u64>) -> bool {
    match spec_get_id(r.reward) {
        Option::Some(id) => !excluded.contains(id),
        Option::None => true,
    }
}

/// The indices of the rewards still available, in pool order.
pub open spec fn avail_indices(rs: Seq<RewardView>, excluded: Seq<u64>) -> Seq<int>
    decreases rs.len(),
{
    if rs.len() == 0 {
        Seq::empty()
    } else {
        let rest = avail_indices(rs.drop_last(), excluded);
        if reward_available(rs.last(), excluded) {
            rest.push(rs.len() - 1)
        } else {
            rest
        }
    }
}

pub proof fn lemma_avail_indices_in_range(rs: Seq<RewardView>, excluded: Seq<u64>)
    ensures
        forall|k: int|
            0 <= k < avail_indices(rs, excluded).len() ==> 0 <= #[trigger] avail_indices(
                rs,
                excluded,
            )[k] < rs.len(),
    decreases rs.len(),
{
    if rs.len() > 0 {
        lemma_avail_indices_in_range(rs.drop_last(), excluded);
        let rest = avail_indices(rs.drop_last(), excluded);
        assert forall|k: int|
            0 <= k < avail_indices(rs, excluded).len() implies 0 <= #[trigger] avail_indices(
            rs,
            excluded,
        )[k] < rs.len() by {
            if reward_available(rs.last(), excluded) {
                if k < rest.len() {
                    assert(avail_indices(rs, excluded)[k] == rest[k]);
                }
            } else {
                assert(avail_indices(rs, excluded)[k] == rest[k]);
            }
        }
    }
}

pub proof fn lemma_avail_indices_len(rs: Seq<RewardView>, excluded: Seq<u64>)
    ensures
        avail_indices(rs, excluded).len() <= rs.len(),
    decreases rs.len(),
{
    if rs.len() > 0 {
        lemma_avail_indices_len(rs.drop_last(), excluded);
    }
}

pub proof fn lemma_avail_indices_available(rs: Seq<RewardView>, excluded: Seq<u64>)
    ensures
        forall|k: int|
            0 <= k < avail_indices(rs, excluded).len() ==> reward_available(
                rs[#[trigger] avail_indices(rs, excluded)[k]],
                excluded,
            ),
    decreases rs.len(),
{
    if rs.len() > 0 {
        lemma_avail_indices_available(rs.drop_last(), excluded);
        lemma_avail_indices_in_range(rs.drop_last(), excluded);
        let rest = avail_indices(rs.drop_last(), excluded);
        assert forall|k: int|
            0 <= k < avail_indices(rs, excluded).len() implies reward_available(
            rs[#[trigger] avail_indices(rs, excluded)[k]],
            excluded,
        ) by {
            if reward_available(rs.last(), excluded) {
                if k < rest.len() {
                    assert(avail_indices(rs, excluded)[k] == rest[k]);
                    assert(rs[rest[k]] == rs.drop_last()[rest[k]]);
                }
            } else {
                assert(avail_indices(rs, excluded)[k] == rest[k]);
                assert(rs[rest[k]] == rs.drop_last()[rest[k]]);
            }
        }
    }
}

/// The outcome of one draw over `pools` with budget `max_prob`, starting the
/// generator at `state`: the reward or the failure, and the generator state
/// after the draw.
#[verifier::opaque]
pub open spec fn spec_rand_slot(
    pools: Seq<PoolView>,
    filler: Option<FillerView>,
    max_prob: u64,
    excluded: Seq<u64>,
    state: u64,
) -> (Result<ResultView, ConfigError>, u64) {
    if pools.len() == 0 || max_prob == 0 {
        (Err(ConfigError::RuntimeInvariantViolation), state)
    } else {
        let (seed, s1) = spec_draw(state, max_prob);
        let pi = walk_from(pool_probs(pools), seed as int, 0);
        let pool = pools[pi];
        if pool.has_unique_rewards {
            let cands = avail_indices(pool.rewards, excluded);
            if cands.len() == 0 {
                match filler {
                    Option::Some(f) => (
                        Ok(ResultView { amount: f.amount, reward: f.filler, is_unique: true }),
                        s1,
                    ),
                    Option::None => (Err(ConfigError::RuntimeInvariantViolation), s1),
                }
            } else {
                let (t, s2) = spec_draw(s1, cands.len() as u64);
                let rw = pool.rewards[cands[t as int]];
                (Ok(ResultView { amount: rw.amount, reward: rw.reward, is_unique: true }), s2)
            }
        } else {
            if pool.rewards.len() == 0 || pool.probability == 0 {
                (Err(ConfigError::RuntimeInvariantViolation), s1)
            } else {
                let (seed2, s2) = spec_draw(s1, pool.probability);
                let ri = walk_from(reward_probs(pool.rewards), seed2 as int, 0);
                let rw = pool.rewards[ri];
                (Ok(ResultView { amount: rw.amount, reward: rw.reward, is_unique: false }), s2)
            }
        }
    }
}

/// The view of an optional filler.
pub open spec fn filler_view(f: Option<LootBoxFiller>) -> Option<FillerView> {
    match f {
        Option::Some(x) => Option::Some(x@),
        Option::None => Option::None,
    }
}

/// Whether the exclusion list rules a reward out.
fn contains_id(list: &Vec<u64>, id: u64) -> (r: bool)
    ensures
        r == list@.contains(id),
{
    let n = list.len();
    let mut i: usize = 0;
    while i < n
        invariant
            i <= n,
            n == list.len(),
            forall|k: int| 0 <= k < i ==> list@[k] != id,
        decreases n - i,
    {
        if list[i] == id {
            return true;
        }
        i = i + 1;
    }
    false
}

/// The pool at position `k` of `common ++ valuable`.
fn get_pool<'a>(
    common: &'a Vec<LootBoxRewardList>,
    valuable: &'a Vec<LootBoxRewardList>,
    k: usize,
) -> (r: &'a LootBoxRewardList)
    requires
        k < common@.len() + valuable@.len(),
    ensures
        r@ == (pools_view(common@) + pools_view(valuable@))[k as int],
{
    if k < common.len() {
        &common[k]
    } else {
        &valuable[k - common.len()]
    }
}

/// One draw over the pools of `common ++ valuable` that `sel` picks, with
/// budget `max_prob`, excluding the unique ids in `unique_rewards_list`.
fn rand_slot(
    rng: &mut SeededRng,
    filler: &Option<LootBoxFiller>,
    common: &Vec<LootBoxRewardList>,
    valuable: &Vec<LootBoxRewardList>,
    sel: &Vec<usize>,
    max_prob: u64,
    unique_rewards_list: &Vec<u64>,
) -> (r: Result<RandResult, ConfigError>)
    requires
        forall|k: int|
            0 <= k < sel@.len() ==> (#[trigger] sel@[k]) < common@.len() + valuable@.len(),
    ensures
        ({
            let m = spec_rand_slot(
                sel_pools(common@, valuable@, sel@),
                filler_view(*filler),
                max_prob,
                unique_rewards_list@,
                old(rng)@,
            );
            final(rng)@ == m.1 && match (r, m.0) {
                (Ok(rr), Ok(rv)) => rr@ == rv,
                (Err(e1), Err(e2)) => e1 == e2,
                _ => false,
            }
        }),
{
    proof {
        reveal(spec_rand_slot);
    }
    let total = sel.len();
    if total == 0 || max_prob == 0 {
        return Err(ConfigError::RuntimeInvariantViolation);
    }
    let ghost pools = sel_pools(common@, valuable@, sel@);
    let ghost probs = pool_probs(pools);
    let seed0 = rng.gen_range(max_prob);
    let mut i: usize = 0;
    let mut s: u64 = seed0;
    loop
        invariant_except_break
            total == sel@.len(),
            i < total,
            pools == sel_pools(common@, valuable@, sel@),
            probs == pool_probs(pools),
            forall|k: int|
                0 <= k < sel@.len() ==> (#[trigger] sel@[k]) < common@.len() + valuable@.len(),
            walk_from(probs, seed0 as int, 0) == walk_from(probs, s as int, i as int),
        ensures
            i < total,
            total == sel@.len(),
            pools == sel_pools(common@, valuable@, sel@),
            i as int == walk_from(probs, seed0 as int, 0),
        decreases total - i,
    {
        let p = get_pool(common, valuable, sel[i]).probability;
        proof {
            assert(pools[i as int] == (pools_view(common@) + pools_view(valuable@))[sel@[i as int] as int]);
            assert(probs[i as int] == p);
        }
        if i >= total - 1 {
            break;
        }
        if s < p {
            break;
        }
        s = s - p;
        i = i + 1;
    }
    let pi = i;
    let pool = get_pool(common, valuable, sel[pi]);
    proof {
        assert(pool@ == pools[pi as int]);
        lemma_walk_from_range(probs, seed0 as int, 0);
    }
    if pool.has_unique_rewards {
        let rn = pool.rewards.len();
        let mut cands: Vec<usize> = Vec::new();
        let mut k: usize = 0;
        while k < rn
            invariant
                k <= rn,
                rn == pool.rewards.len(),
                pool@ == pools[pi as int],
                cands@.map_values(|x: usize| x as int) == avail_indices(
                    pool@.rewards.take(k as int),
                    unique_rewards_list@,
                ),
                forall|t: int| 0 <= t < cands@.len() ==> (#[trigger] cands@[t]) < rn,
            decreases rn - k,
        {
            let avail = match pool.rewards[k].reward.get_id() {
                Some(id) => !contains_id(unique_rewards_list, id),
                None => true,
            };
            proof {
                assert(pool@.rewards[k as int] == pool.rewards@[k as int]@);
                assert(pool@.rewards.take(k + 1).drop_last() =~= pool@.rewards.take(k as int));
                assert(pool@.rewards.take(k + 1).last() == pool@.rewards[k as int]);
                assert(avail == reward_available(pool@.rewards[k as int], unique_rewards_list@));
            }
            if avail {
                cands.push(k);
                proof {
                    assert(cands@.map_values(|x: usize| x as int) =~= avail_indices(
                        pool@.rewards.take(k + 1),
                        unique_rewards_list@,
                    ));
                }
            }
            k = k + 1;
        }
        proof {
            assert(pool@.rewards.take(rn as int) =~= pool@.rewards);
        }
        if cands.len() == 0 {
            proof {
                assert(avail_indices(pool@.rewards, unique_rewards_list@).len() == 0);
            }
            match filler {
                Some(f) => Ok(RandResult::new(f.amount, f.filler.clone(), true)),
                None => Err(ConfigError::RuntimeInvariantViolation),
            }
        } else {
            let cl = cands.len() as u64;
            let t = rng.gen_range(cl);
            let ti = t as usize;
            proof {
                lemma_avail_indices_in_range(pool@.rewards, unique_rewards_list@);
                assert(cands@.map_values(|x: usize| x as int)[t as int] == cands@[t as int] as int);
            }
            let ci = cands[ti];
            let rw = &pool.rewards[ci];
            proof {
                assert(pool@.rewards[ci as int] == pool.rewards@[ci as int]@);
            }
            Ok(RandResult::new(rw.amount, rw.reward.clone(), true))
        }
    } else {
        if pool.rewards.len() == 0 || pool.probability == 0 {
            return Err(ConfigError::RuntimeInvariantViolation);
        }
        let ghost rprobs = reward_probs(pool@.rewards);
        let seed1 = rng.gen_range(pool.probability);
        let rn = pool.rewards.len();
        let mut j: usize = 0;
        let mut s2: u64 = seed1;
        loop
            invariant_except_break
                rn == pool.rewards.len(),
                rn > 0,
                j < rn,
                pool@ == pools[pi as int],
                rprobs == reward_probs(pool@.rewards),
                walk_from(rprobs, seed1 as int, 0) == walk_from(rprobs, s2 as int, j as int),
            ensures
                j < rn,
                rn == pool.rewards.len(),
                pool@ == pools[pi as int],
                j as int == walk_from(rprobs, seed1 as int, 0),
            decreases rn - j,
        {
            let p = pool.rewards[j].probability;
            proof {
                assert(pool@.rewards[j as int] == pool.rewards@[j as int]@);
                assert(rprobs[j as int] == p);
            }
            if j >= rn - 1 {
                break;
            }
            if s2 < p {
                break;
            }
            s2 = s2 - p;
            j = j + 1;
        }
        let rw = &pool.rewards[j];
        proof {
            assert(pool@.rewards[j as int] == pool.rewards@[j as int]@);
        }
        Ok(RandResult::new(rw.amount, rw.reward.clone(), false))
    }
}

/// The machine can hold one slot's pools in a single walk: the combined pool
/// count of every slot fits the machine's index type.
pub open spec fn box_fits(b: BoxView) -> bool {
    forall|i: int|
        0 <= i < b.slots.len() ==> (#[trigger] b.slots[i]).common.len() + b.slots[i].valuable.len()
            <= usize::MAX
}

/// One ordinary draw from a slot: all its pools, with the full budget of one.
pub open spec fn spec_slot_ordinary(
    slot: SlotView,
    filler: Option<FillerView>,
    excluded: Seq<u64>,
    state: u64,
) -> (Result<ResultView, ConfigError>, u64) {
    spec_rand_slot(slot_pools(slot), filler, PROB_SCALE, excluded, state)
}

/// The unique-flagged pools among `v`, in order.
pub open spec fn unique_pools(v: Seq<PoolView>) -> Seq<PoolView>
    decreases v.len(),
{
    if v.len() == 0 {
        Seq::empty()
    } else {
        let rest = unique_pools(v.drop_last());
        if v.last().has_unique_rewards {
            rest.push(v.last())
        } else {
            rest
        }
    }
}

pub proof fn lemma_unique_pools_sum_le(v: Seq<PoolView>)
    ensures
        0 <= sum_pool_probs(unique_pools(v)) <= sum_pool_probs(v),
    decreases v.len(),
{
    if v.len() == 0 {
    } else {
        lemma_unique_pools_sum_le(v.drop_last());
        let rest = unique_pools(v.drop_last());
        if v.last().has_unique_rewards {
            assert(rest.push(v.last()).drop_last() =~= rest);
            assert(rest.push(v.last()).last() == v.last());
        }
    }
}

pub proof fn lemma_unique_pools_take_le(v: Seq<PoolView>, j: int)
    requires
        0 <= j <= v.len(),
    ensures
        sum_pool_probs(unique_pools(v.take(j))) <= sum_pool_probs(unique_pools(v)),
    decreases v.len() - j,
{
    if j == v.len() {
        assert(v.take(j) =~= v);
    } else {
        assert(v.take(j + 1).drop_last() =~= v.take(j));
        assert(v.take(j + 1).last() == v[j]);
        if v[j].has_unique_rewards {
            let up = unique_pools(v.take(j));
            assert(unique_pools(v.take(j + 1)) == up.push(v[j]));
            assert(up.push(v[j]).drop_last() =~= up);
            assert(up.push(v[j]).last() == v[j]);
            lemma_sum_pool_probs_nonneg(up);
        }
        lemma_unique_pools_take_le(v, j + 1);
    }
}

/// One guaranteed draw from a slot: only the unique-flagged valuable pools,
/// with their summed probability as the budget; a slot without such pools
/// falls back to an ordinary draw.
pub open spec fn spec_slot_guaranteed(
    slot: SlotView,
    filler: Option<FillerView>,
    excluded: Seq<u64>,
    state: u64,
) -> (Result<ResultView, ConfigError>, u64) {
    let ups = unique_pools(slot.valuable);
    if ups.len() == 0 {
        spec_slot_ordinary(slot, filler, excluded, state)
    } else {
        let budget = sum_pool_probs(ups);
        if budget > u64::MAX {
            (Err(ConfigError::RuntimeInvariantViolation), state)
        } else {
            spec_rand_slot(ups, filler, budget as u64, excluded, state)
        }
    }
}

/// One full box opening: one draw per slot, left to right, threading the
/// generator state; the first failure stops the opening.
#[verifier::opaque]
pub open spec fn spec_draw_box(
    slots: Seq<SlotView>,
    filler: Option<FillerView>,
    excluded: Seq<u64>,
    state: u64,
    guaranteed: bool,
) -> (Result<Seq<ResultView>, ConfigError>, u64)
    decreases slots.len(),
{
    if slots.len() == 0 {
        (Ok(Seq::empty()), state)
    } else {
        let (prev, s1) = spec_draw_box(slots.drop_last(), filler, excluded, state, guaranteed);
        match prev {
            Err(e) => (Err(e), s1),
            Ok(rs) => {
                let (r, s2) = if guaranteed {
                    spec_slot_guaranteed(slots.last(), filler, excluded, s1)
                } else {
                    spec_slot_ordinary(slots.last(), filler, excluded, s1)
                };
                match r {
                    Err(e) => (Err(e), s2),
                    Ok(rv) => (Ok(rs.push(rv)), s2),
                }
            },
        }
    }
}

/// A failed prefix decides the whole opening: once a slot draw fails, the
/// later slots are never reached.
pub proof fn lemma_draw_box_err_prefix(
    slots: Seq<SlotView>,
    filler: Option<FillerView>,
    excluded: Seq<u64>,
    state: u64,
    guaranteed: bool,
    k: int,
)
    requires
        0 <= k <= slots.len(),
        spec_draw_box(slots.take(k), filler, excluded, state, guaranteed).0 is Err,
    ensures
        spec_draw_box(slots, filler, excluded, state, guaranteed) == spec_draw_box(
            slots.take(k),
            filler,
            excluded,
            state,
            guaranteed,
        ),
    decreases slots.len() - k,
{
    reveal(spec_draw_box);
    if k == slots.len() {
        assert(slots.take(k) =~= slots);
    } else {
        assert(slots.take(k + 1).drop_last() =~= slots.take(k));
        lemma_draw_box_err_prefix(slots, filler, excluded, state, guaranteed, k + 1);
    }
}

/// The views of drawn rewards.
pub open spec fn results_view(v: Seq<RandResult>) -> Seq<ResultView> {
    v.map_values(|x: RandResult| x@)
}

/// The exec outcome `(r, st)` is exactly the modelled outcome `m`.
pub open spec fn draws_match(
    r: Result<Vec<RandResult>, ConfigError>,
    st: u64,
    m: (Result<Seq<ResultView>, ConfigError>, u64),
) -> bool {
    st == m.1 && match (r, m.0) {
        (Ok(v), Ok(sv)) => results_view(v@) == sv,
        (Err(e1), Err(e2)) => e1 == e2,
        _ => false,
    }
}

/// The walk order of an ordinary draw: every pool of the slot, in place.
fn identity_sel(cn: usize, vn: usize) -> (sel: Vec<usize>)
    requires
        cn + vn <= usize::MAX,
    ensures
        sel@.len() == cn + vn,
        forall|t: int| 0 <= t < sel@.len() ==> #[trigger] sel@[t] == t,
{
    let mut sel: Vec<usize> = Vec::new();
    let mut j: usize = 0;
    while j < cn
        invariant
            j <= cn,
            sel@.len() == j,
            forall|t: int| 0 <= t < sel@.len() ==> #[trigger] sel@[t] == t,
        decreases cn - j,
    {
        sel.push(j);
        j = j + 1;
    }
    let mut k: usize = 0;
    while k < vn
        invariant
            k <= vn,
            cn + vn <= usize::MAX,
            sel@.len() == cn + k,
            forall|t: int| 0 <= t < sel@.len() ==> #[trigger] sel@[t] == t,
        decreases vn - k,
    {
        sel.push(cn + k);
        k = k + 1;
    }
    sel
}

/// Unfolds one step of a box opening: the draw for slot `i` extends the
/// opening of the first `i` slots.
pub proof fn lemma_draw_box_step(
    slots: Seq<SlotView>,
    filler: Option<FillerView>,
    excluded: Seq<u64>,
    s0: u64,
    guaranteed: bool,
    i: int,
    rs: Seq<ResultView>,
    pre: u64,
)
    requires
        0 <= i < slots.len(),
        spec_draw_box(slots.take(i), filler, excluded, s0, guaranteed) == (
            Ok::<Seq<ResultView>, ConfigError>(rs),
            pre,
        ),
    ensures
        ({
            let m = if guaranteed {
                spec_slot_guaranteed(slots[i], filler, excluded, pre)
            } else {
                spec_slot_ordinary(slots[i], filler, excluded, pre)
            };
            spec_draw_box(slots.take(i + 1), filler, excluded, s0, guaranteed) == match m.0 {
                Err(e) => (Err::<Seq<ResultView>, ConfigError>(e), m.1),
                Ok(rv) => (Ok::<Seq<ResultView>, ConfigError>(rs.push(rv)), m.1),
            }
        }),
{
    reveal(spec_draw_box);
    assert(slots.take(i + 1).drop_last() =~= slots.take(i));
    assert(slots.take(i + 1).last() == slots[i]);
}

/// The exec outcome `(r, st)` of one slot draw is exactly the modelled
/// outcome `m`.
pub open spec fn slot_matches(
    r: Result<RandResult, ConfigError>,
    st: u64,
    m: (Result<ResultView, ConfigError>, u64),
) -> bool {
    st == m.1 && match (r, m.0) {
        (Ok(rr), Ok(rv)) => rr@ == rv,
        (Err(e1), Err(e2)) => e1 == e2,
        _ => false,
    }
}

/// One ordinary draw from a slot: all its pools, with the full budget of
/// one.
fn rand_slot_ordinary(
    rng: &mut SeededRng,
    filler: &Option<LootBoxFiller>,
    slot: &LootBoxSlot,
    unique_rewards_list: &Vec<u64>,
) -> (r: Result<RandResult, ConfigError>)
    requires
        slot@.common.len() + slot@.valuable.len() <= usize::MAX,
    ensures
        slot_matches(
            r,
            final(rng)@,
            spec_slot_ordinary(slot@, filler_view(*filler), unique_rewards_list@, old(rng)@),
        ),
{
    let cn = slot.common.len();
    let vn = slot.valuable.len();
    let sel = identity_sel(cn, vn);
    proof {
        assert(sel_pools(slot.common@, slot.valuable@, sel@) =~= slot_pools(slot@));
    }
    rand_slot(rng, filler, &slot.common, &slot.valuable, &sel, PROB_SCALE, unique_rewards_list)
}

/// One guaranteed draw from a slot: only its unique-flagged valuable pools,
/// with their summed probability as the budget; without such pools the draw
/// is an ordinary one.
fn rand_slot_guaranteed(
    rng: &mut SeededRng,
    filler: &Option<LootBoxFiller>,
    slot: &LootBoxSlot,
    unique_rewards_list: &Vec<u64>,
) -> (r: Result<RandResult, ConfigError>)
    requires
        slot_valid(slot@),
        slot@.common.len() + slot@.valuable.len() <= usize::MAX,
    ensures
        slot_matches(
            r,
            final(rng)@,
            spec_slot_guaranteed(slot@, filler_view(*filler), unique_rewards_list@, old(rng)@),
        ),
{
    let cn = slot.common.len();
    let vn = slot.valuable.len();
    let mut sel: Vec<usize> = Vec::new();
    let mut budget: u64 = 0;
    let ghost vv = slot@.valuable;
    proof {
        lemma_unique_pools_sum_le(vv);
        lemma_sum_pool_probs_append(slot@.common, slot@.valuable);
        lemma_sum_pool_probs_nonneg(slot@.common);
        assert(sel_pools(slot.common@, slot.valuable@, sel@) =~= unique_pools(vv.take(0)));
    }
    let mut j: usize = 0;
    while j < vn
        invariant
            j <= vn,
            vn == slot.valuable.len(),
            cn == slot.common.len(),
            cn + vn <= usize::MAX,
            vv == slot@.valuable,
            sum_pool_probs(unique_pools(vv)) <= PROB_SCALE + PROB_TOLERANCE,
            budget == sum_pool_probs(unique_pools(vv.take(j as int))),
            sel_pools(slot.common@, slot.valuable@, sel@) == unique_pools(vv.take(j as int)),
            forall|t: int| 0 <= t < sel@.len() ==> (#[trigger] sel@[t]) < cn + vn,
        decreases vn - j,
    {
        proof {
            assert(vv.take(j + 1).drop_last() =~= vv.take(j as int));
            assert(vv.take(j + 1).last() == vv[j as int]);
            assert(vv[j as int] == slot.valuable@[j as int]@);
        }
        if slot.valuable[j].has_unique_rewards {
            proof {
                let up = unique_pools(vv.take(j as int));
                assert(unique_pools(vv.take(j + 1)) == up.push(vv[j as int]));
                assert(up.push(vv[j as int]).drop_last() =~= up);
                assert(up.push(vv[j as int]).last() == vv[j as int]);
                lemma_unique_pools_take_le(vv, j + 1);
            }
            let ghost selb = sel@;
            sel.push(cn + j);
            budget = budget + slot.valuable[j].probability;
            proof {
                assert(sel_pools(slot.common@, slot.valuable@, sel@) =~= sel_pools(
                    slot.common@,
                    slot.valuable@,
                    selb,
                ).push(vv[j as int]));
            }
        } else {
            proof {
                assert(unique_pools(vv.take(j + 1)) == unique_pools(vv.take(j as int)));
            }
        }
        j = j + 1;
    }
    proof {
        assert(vv.take(vn as int) =~= vv);
    }
    if sel.len() == 0 {
        rand_slot_ordinary(rng, filler, slot, unique_rewards_list)
    } else {
        rand_slot(rng, filler, &slot.common, &slot.valuable, &sel, budget, unique_rewards_list)
    }
}

/// One ordinary box opening: one weighted draw per slot over all its pools.
/// The outcome is a function of the catalog, the exclusion list and the
/// generator's starting state alone.
pub fn rand_single(
    rng: &mut SeededRng,
    data: &LootBox,
    unique_rewards_list: &Vec<u64>,
) -> (r: Result<Vec<RandResult>, ConfigError>)
    requires
        box_valid(data@),
        box_fits(data@),
    ensures
        draws_match(
            r,
            final(rng)@,
            spec_draw_box(data@.slots, data@.filler, unique_rewards_list@, old(rng)@, false),
        ),
        r matches Ok(v) ==> v@.len() == data@.slots.len(),
{
    let ghost s0 = old(rng)@;
    let sn = data.slots.len();
    let mut rewards: Vec<RandResult> = Vec::new();
    proof {
        reveal(spec_draw_box);
        assert(data@.slots.take(0) =~= Seq::<SlotView>::empty());
        assert(results_view(rewards@) =~= Seq::<ResultView>::empty());
    }
    let mut i: usize = 0;
    while i < sn
        invariant
            i <= sn,
            sn == data.slots.len(),
            s0 == old(rng)@,
            rewards@.len() == i,
            box_valid(data@),
            box_fits(data@),
            spec_draw_box(
                data@.slots.take(i as int),
                data@.filler,
                unique_rewards_list@,
                s0,
                false,
            ) == (Ok::<Seq<ResultView>, ConfigError>(results_view(rewards@)), rng@),
        decreases sn - i,
    {
        let slot = &data.slots[i];
        proof {
            assert(data@.slots[i as int] == slot@);
            assert(filler_view(data.filler) == data@.filler);
        }
        let ghost pre = rng@;
        let res = rand_slot_ordinary(rng, &data.filler, slot, unique_rewards_list);
        proof {
            lemma_draw_box_step(
                data@.slots,
                data@.filler,
                unique_rewards_list@,
                s0,
                false,
                i as int,
                results_view(rewards@),
                pre,
            );
        }
        match res {
            Err(e) => {
                proof {
                    lemma_draw_box_err_prefix(
                        data@.slots,
                        data@.filler,
                        unique_rewards_list@,
                        s0,
                        false,
                        i + 1,
                    );
                }
                return Err(e);
            },
            Ok(rr) => {
                let ghost before = rewards@;
                rewards.push(rr);
                proof {
                    assert(results_view(rewards@) =~= results_view(before).push(rr@));
                }
            },
        }
        i = i + 1;
    }
    proof {
        assert(data@.slots.take(sn as int) =~= data@.slots);
    }
    Ok(rewards)
}

/// One guaranteed box opening: each slot draws only from its unique-flagged
/// valuable pools (falling back to an ordinary draw when it has none).
pub fn rand_unique(
    rng: &mut SeededRng,
    data: &LootBox,
    unique_rewards_list: &Vec<u64>,
) -> (r: Result<Vec<RandResult>, ConfigError>)
    requires
        box_valid(data@),
        box_fits(data@),
    ensures
        draws_match(
            r,
            final(rng)@,
            spec_draw_box(data@.slots, data@.filler, unique_rewards_list@, old(rng)@, true),
        ),
        r matches Ok(v) ==> v@.len() == data@.slots.len(),
{
    let ghost s0 = old(rng)@;
    let sn = data.slots.len();
    let mut rewards: Vec<RandResult> = Vec::new();
    proof {
        reveal(spec_draw_box);
        assert(data@.slots.take(0) =~= Seq::<SlotView>::empty());
        assert(results_view(rewards@) =~= Seq::<ResultView>::empty());
    }
    let mut i: usize = 0;
    while i < sn
        invariant
            i <= sn,
            sn == data.slots.len(),
            s0 == old(rng)@,
            rewards@.len() == i,
            box_valid(data@),
            box_fits(data@),
            spec_draw_box(
                data@.slots.take(i as int),
                data@.filler,
                unique_rewards_list@,
                s0,
                true,
            ) == (Ok::<Seq<ResultView>, ConfigError>(results_view(rewards@)), rng@),
        decreases sn - i,
    {
        let slot = &data.slots[i];
        proof {
            assert(data@.slots[i as int] == slot@);
            assert(slot_valid(slot@));
            assert(filler_view(data.filler) == data@.filler);
        }
        let ghost pre = rng@;
        let res = rand_slot_guaranteed(rng, &data.filler, slot, unique_rewards_list);
        proof {
            lemma_draw_box_step(
                data@.slots,
                data@.filler,
                unique_rewards_list@,
                s0,
                true,
                i as int,
                results_view(rewards@),
                pre,
            );
        }
        match res {
            Err(e) => {
                proof {
                    lemma_draw_box_err_prefix(
                        data@.slots,
                        data@.filler,
                        unique_rewards_list@,
                        s0,
                        true,
                        i + 1,
                    );
                }
                return Err(e);
            },
            Ok(rr) => {
                let ghost before = rewards@;
                rewards.push(rr);
                proof {
                    assert(results_view(rewards@) =~= results_view(before).push(rr@));
                }
            },
        }
        i = i + 1;
    }
    proof {
        assert(data@.slots.take(sn as int) =~= data@.slots);
    }
    Ok(rewards)
}

/// One line of the result totals: how much of one reward the run produced,
/// split by whether the draws were guaranteed.
#[derive(Debug)]
pub struct RandEntry {
    pub reward_type: LootBoxRewardType,
    pub is_guaranteed: bool,
    pub amount: u64,
}

/// Mathematical image of `RandEntry`.
pub struct EntryView {
    pub reward: RewardTypeView,
    pub is_guaranteed: bool,
    pub amount: u64,
}

impl View for RandEntry {
    type V = EntryView;

    open spec fn view(&self) -> EntryView {
        EntryView {
            reward: self.reward_type@,
            is_guaranteed: self.is_guaranteed,
            amount: self.amount,
        }
    }
}

/// The views of the totals.
pub open spec fn entries_view(v: Seq<RandEntry>) -> Seq<EntryView> {
    v.map_values(|x: RandEntry| x@)
}

/// Whether a totals line is keyed by this reward and guarantee flag.
pub open spec fn entry_matches(e: EntryView, rt: RewardTypeView, g: bool) -> bool {
    e.reward == rt && e.is_guaranteed == g
}

/// The first totals line at or after `i` keyed by `(rt, g)`, or none.
pub open spec fn find_entry_from(ts: Seq<EntryView>, rt: RewardTypeView, g: bool, i: int) -> int
    decreases ts.len() - i,
        when 0 <= i <= ts.len()
{
    if i >= ts.len() {
        -1
    } else if entry_matches(ts[i], rt, g) {
        i
    } else {
        find_entry_from(ts, rt, g, i + 1)
    }
}

/// The first totals line keyed by `(rt, g)`, or none.
pub open spec fn find_entry(ts: Seq<EntryView>, rt: RewardTypeView, g: bool) -> int {
    find_entry_from(ts, rt, g, 0)
}

/// Addition that stops at the top of the counter's range instead of
/// wrapping.
pub open spec fn sat_add_u64(a: u64, b: u64) -> u64 {
    if a + b > u64::MAX {
        u64::MAX
    } else {
        (a + b) as u64
    }
}

/// Credits one drawn reward to the totals: the line keyed by the reward and
/// the guarantee flag grows by the reward's amount, or a new line is
/// appended.
pub open spec fn add_result(
    ts: Seq<EntryView>,
    rt: RewardTypeView,
    amount: u32,
    g: bool,
) -> Seq<EntryView> {
    let k = find_entry(ts, rt, g);
    if k < 0 {
        ts.push(EntryView { reward: rt, is_guaranteed: g, amount: amount as u64 })
    } else {
        ts.update(
            k,
            EntryView { reward: rt, is_guaranteed: g, amount: sat_add_u64(ts[k].amount, amount as u64) },
        )
    }
}

/// Credits every reward of one opening to the totals, in draw order.
pub open spec fn add_results(ts: Seq<EntryView>, rs: Seq<ResultView>, g: bool) -> Seq<EntryView>
    decreases rs.len(),
{
    if rs.len() == 0 {
        ts
    } else {
        add_results(add_result(ts, rs[0].reward, rs[0].amount, g), rs.skip(1), g)
    }
}

/// Records the unique ids of one opening's rewards: every reward that came
/// from a unique pool and has an id appends it, in draw order.
pub open spec fn collect_ids(excluded: Seq<u64>, rs: Seq<ResultView>) -> Seq<u64>
    decreases rs.len(),
{
    if rs.len() == 0 {
        excluded
    } else {
        let e2 = match spec_get_id(rs[0].reward) {
            Option::Some(id) => if rs[0].is_unique {
                excluded.push(id)
            } else {
                excluded
            },
            Option::None => excluded,
        };
        collect_ids(e2, rs.skip(1))
    }
}

/// Credits one drawn reward to the totals.
fn add_to_totals(
    totals: &mut Vec<RandEntry>,
    reward_type: LootBoxRewardType,
    is_guaranteed: bool,
    amount: u32,
)
    ensures
        entries_view(final(totals)@) == add_result(
            entries_view(old(totals)@),
            reward_type@,
            amount,
            is_guaranteed,
        ),
{
    let ghost ts = entries_view(totals@);
    let n = totals.len();
    let mut i: usize = 0;
    while i < n
        invariant
            i <= n,
            n == totals.len(),
            totals@ == old(totals)@,
            ts == entries_view(totals@),
            find_entry(ts, reward_type@, is_guaranteed) == find_entry_from(
                ts,
                reward_type@,
                is_guaranteed,
                i as int,
            ),
        decreases n - i,
    {
        proof {
            assert(ts[i as int] == totals@[i as int]@);
        }
        if totals[i].is_guaranteed == is_guaranteed && eq_reward_type(
            &totals[i].reward_type,
            &reward_type,
        ) {
            let cur = totals[i].amount;
            let add = amount as u64;
            let grown = if cur > u64::MAX - add {
                u64::MAX
            } else {
                cur + add
            };
            let ghost before = totals@;
            totals.set(
                i,
                RandEntry { reward_type, is_guaranteed, amount: grown },
            );
            proof {
                assert(find_entry(ts, reward_type@, is_guaranteed) == i as int);
                assert(entries_view(totals@) =~= ts.update(
                    i as int,
                    EntryView {
                        reward: reward_type@,
                        is_guaranteed,
                        amount: sat_add_u64(ts[i as int].amount, amount as u64),
                    },
                ));
            }
            return;
        }
        i = i + 1;
    }
    let ghost before = totals@;
    proof {
        assert(find_entry(ts, reward_type@, is_guaranteed) == -1);
    }
    totals.push(RandEntry { reward_type, is_guaranteed, amount: amount as u64 });
    proof {
        assert(entries_view(totals@) =~= ts.push(
            EntryView { reward: reward_type@, is_guaranteed, amount: amount as u64 },
        ));
    }
}

/// The pity threshold of a catalog; a catalog without one never triggers a
/// guaranteed draw.
pub open spec fn guarantee_of(b: BoxView) -> u32 {
    match b.save_point {
        Option::Some(g) => g,
        Option::None => u32::MAX,
    }
}

/// One iteration of a multi-roll run: advance the pity counter, open the box
/// (guaranteed when the counter reaches the threshold, which also resets
/// it), credit the rewards and record the drawn unique ids.
pub open spec fn spec_multi_step(
    b: BoxView,
    counter: u32,
    excluded: Seq<u64>,
    totals: Seq<EntryView>,
    state: u64,
) -> (Result<(Seq<EntryView>, Seq<u64>, u32), ConfigError>, u64) {
    let g = guarantee_of(b);
    let c1 = (counter + 1) as u32;
    if c1 >= g {
        let (res, st) = spec_draw_box(b.slots, b.filler, excluded, state, true);
        match res {
            Err(e) => (Err(e), st),
            Ok(rs) => (
                Ok((add_results(totals, rs, true), collect_ids(excluded, rs), 0u32)),
                st,
            ),
        }
    } else {
        let (res, st) = spec_draw_box(b.slots, b.filler, excluded, state, false);
        match res {
            Err(e) => (Err(e), st),
            Ok(rs) => (
                Ok((add_results(totals, rs, false), collect_ids(excluded, rs), c1)),
                st,
            ),
        }
    }
}

/// A whole multi-roll run: `times` iterations threading the totals, the
/// exclusion list, the pity counter and the generator state; the first
/// failure stops the run.
pub open spec fn spec_rand_multi(
    b: BoxView,
    times: u32,
    counter: u32,
    excluded: Seq<u64>,
    totals: Seq<EntryView>,
    state: u64,
) -> (Result<(Seq<EntryView>, Seq<u64>, u32), ConfigError>, u64)
    decreases times,
{
    if times == 0 {
        (Ok((totals, excluded, counter)), state)
    } else {
        let (r1, s1) = spec_multi_step(b, counter, excluded, totals, state);
        match r1 {
            Err(e) => (Err(e), s1),
            Ok(t) => spec_rand_multi(b, (times - 1) as u32, t.2, t.1, t.0, s1),
        }
    }
}

/// The shared body of the multi-roll entry points; hands back the totals,
/// the grown exclusion list and the final pity counter.
#[verifier::rlimit(100)]
fn rand_multi_core(
    rng: &mut SeededRng,
    data: &LootBox,
    times: u32,
    unique_rewards_list: &Vec<u64>,
    current_try: u32,
) -> (r: Result<(Vec<RandEntry>, Vec<u64>, u32), ConfigError>)
    requires
        box_valid(data@),
        box_fits(data@),
        current_try < u32::MAX,
    ensures
        ({
            let m = spec_rand_multi(
                data@,
                times,
                current_try,
                unique_rewards_list@,
                Seq::empty(),
                old(rng)@,
            );
            final(rng)@ == m.1 && match (r, m.0) {
                (Ok(t), Ok(tv)) => entries_view(t.0@) == tv.0 && t.1@ == tv.1 && t.2 == tv.2,
                (Err(e1), Err(e2)) => e1 == e2,
                _ => false,
            }
        }),
{
    let ghost s0 = old(rng)@;
    let mut totals: Vec<RandEntry> = Vec::new();
    let mut excl: Vec<u64> = Vec::new();
    let en = unique_rewards_list.len();
    let mut c: usize = 0;
    while c < en
        invariant
            c <= en,
            en == unique_rewards_list.len(),
            excl@ == unique_rewards_list@.take(c as int),
        decreases en - c,
    {
        proof {
            assert(unique_rewards_list@.take(c + 1).drop_last() =~= unique_rewards_list@.take(
                c as int,
            ));
        }
        excl.push(unique_rewards_list[c]);
        c = c + 1;
    }
    proof {
        assert(unique_rewards_list@.take(en as int) =~= unique_rewards_list@);
        assert(entries_view(totals@) =~= Seq::<EntryView>::empty());
    }
    let mut counter: u32 = current_try;
    let mut n: u32 = 0;
    while n < times
        invariant
            n <= times,
            s0 == old(rng)@,
            box_valid(data@),
            box_fits(data@),
            counter < u32::MAX,
            spec_rand_multi(
                data@,
                (times - n) as u32,
                counter,
                excl@,
                entries_view(totals@),
                rng@,
            ) == spec_rand_multi(
                data@,
                times,
                current_try,
                unique_rewards_list@,
                Seq::empty(),
                s0,
            ),
        decreases times - n,
    {
        let c1 = counter + 1;
        let g = match data.save_point {
            Some(gg) => gg,
            None => u32::MAX,
        };
        proof {
            assert(g == guarantee_of(data@));
        }
        let guaranteed = c1 >= g;
        let ghost pre = rng@;
        let ghost t0 = entries_view(totals@);
        let ghost e0 = excl@;
        let resp = if guaranteed {
            rand_unique(rng, data, &excl)
        } else {
            rand_single(rng, data, &excl)
        };
        match resp {
            Err(e) => {
                return Err(e);
            },
            Ok(v) => {
                let ghost rs = results_view(v@);
                proof {
                    assert(rs.skip(0) =~= rs);
                }
                let vn = v.len();
                let mut k: usize = 0;
                while k < vn
                    invariant
                        k <= vn,
                        vn == v.len(),
                        rs == results_view(v@),
                        add_results(entries_view(totals@), rs.skip(k as int), guaranteed)
                            == add_results(t0, rs, guaranteed),
                        collect_ids(excl@, rs.skip(k as int)) == collect_ids(e0, rs),
                    decreases vn - k,
                {
                    proof {
                        assert(rs.skip(k as int)[0] == rs[k as int]);
                        assert(rs.skip(k as int).skip(1) =~= rs.skip(k + 1));
                        assert(rs[k as int] == v@[k as int]@);
                    }
                    let rwd = &v[k];
                    let uid = if rwd.is_unique {
                        rwd.reward_type.get_id()
                    } else {
                        None
                    };
                    add_to_totals(&mut totals, rwd.reward_type.clone(), guaranteed, rwd.amount);
                    if let Some(id) = uid {
                        excl.push(id);
                    }
                    k = k + 1;
                }
                proof {
                    assert(rs.skip(vn as int) =~= Seq::<ResultView>::empty());
                }
                counter = if guaranteed {
                    0
                } else {
                    c1
                };
            },
        }
        n = n + 1;
    }
    Ok((totals, excl, counter))
}

/// A whole multi-roll run over a caller-owned generator: `times` box
/// openings, a guaranteed one whenever the pity counter (starting at
/// `current_try`) reaches the catalog's threshold.  Returns the accumulated
/// totals.
pub fn rand_multi(
    rng: &mut SeededRng,
    data: &LootBox,
    times: u32,
    unique_rewards_list: &Vec<u64>,
    current_try: u32,
) -> (r: Result<Vec<RandEntry>, ConfigError>)
    requires
        box_valid(data@),
        box_fits(data@),
        current_try < u32::MAX,
    ensures
        ({
            let m = spec_rand_multi(
                data@,
                times,
                current_try,
                unique_rewards_list@,
                Seq::empty(),
                old(rng)@,
            );
            final(rng)@ == m.1 && match (r, m.0) {
                (Ok(v), Ok(tv)) => entries_view(v@) == tv.0,
                (Err(e1), Err(e2)) => e1 == e2,
                _ => false,
            }
        }),
{
    match rand_multi_core(rng, data, times, unique_rewards_list, current_try) {
        Ok(t) => Ok(t.0),
        Err(e) => Err(e),
    }
}

/// The caller-owned, persisted state of one player: the pity counter and
/// the unique ids already owned.
#[derive(Debug)]
pub struct SessionState {
    pub pity_counter: u32,
    pub owned_unique_ids: Vec<u64>,
}

/// Mathematical image of `SessionState`.
pub struct SessionView {
    pub pity_counter: u32,
    pub owned_unique_ids: Seq<u64>,
}

impl View for SessionState {
    type V = SessionView;

    open spec fn view(&self) -> SessionView {
        SessionView {
            pity_counter: self.pity_counter,
            owned_unique_ids: self.owned_unique_ids@,
        }
    }
}

/// What a simulation call hands back: the totals and the session to
/// persist.
#[derive(Debug)]
pub struct SimulateOutcome {
    pub totals: Vec<RandEntry>,
    pub session: SessionState,
}

/// The outcome of a whole simulation call: validation first, then `times`
/// box openings from the session's counter and owned ids, with a generator
/// seeded by `seed`.
pub open spec fn spec_simulate(
    b: BoxView,
    times: u32,
    session: SessionView,
    seed: u64,
) -> Result<(Seq<EntryView>, SessionView), ConfigError> {
    match spec_validate(b) {
        Err(e) => Err(e),
        Ok(_) => {
            let m = spec_rand_multi(
                b,
                times,
                session.pity_counter,
                session.owned_unique_ids,
                Seq::empty(),
                seed,
            );
            match m.0 {
                Err(e) => Err(e),
                Ok(t) => Ok(
                    (t.0, SessionView { pity_counter: t.2, owned_unique_ids: t.1 }),
                ),
            }
        },
    }
}

/// Opens the box `times` times: validates the catalog, then draws with a
/// generator seeded by `rng_seed`, starting from the given session.  On
/// success the totals and the grown session come back; on failure nothing
/// of the session is changed (the caller keeps its own copy).
pub fn simulate(
    data: &LootBox,
    times: u32,
    session: &SessionState,
    rng_seed: u64,
) -> (r: Result<SimulateOutcome, ConfigError>)
    requires
        session.pity_counter < u32::MAX,
        box_fits(data@),
    ensures
        ({
            match (r, spec_simulate(data@, times, session@, rng_seed)) {
                (Ok(o), Ok(m)) => entries_view(o.totals@) == m.0 && o.session@ == m.1,
                (Err(e1), Err(e2)) => e1 == e2,
                _ => false,
            }
        }),
{
    match validate(data) {
        Err(e) => {
            return Err(e);
        },
        Ok(_) => {},
    }
    let mut rng = SeededRng::new(rng_seed);
    match rand_multi_core(&mut rng, data, times, &session.owned_unique_ids, session.pity_counter) {
        Err(e) => Err(e),
        Ok(t) => {
            let (totals, ids, counter) = t;
            Ok(SimulateOutcome {
                totals,
                session: SessionState { pity_counter: counter, owned_unique_ids: ids },
            })
        },
    }
}

/// Determinism: what a simulation answers is a function of the catalog, the
/// repetition count, the starting session and the seed alone, so two calls
/// with the same arguments agree exactly, totals and session both.
pub proof fn lemma_simulate_deterministic(
    b: BoxView,
    times: u32,
    session: SessionView,
    seed: u64,
    r1: Result<(Seq<EntryView>, SessionView), ConfigError>,
    r2: Result<(Seq<EntryView>, SessionView), ConfigError>,
)
    requires
        r1 == spec_simulate(b, times, session, seed),
        r2 == spec_simulate(b, times, session, seed),
    ensures
        r1 == r2,
{
}

/// Pity correctness: starting below the threshold, a successful run of
/// `times` draws leaves the pity counter at `(counter + times)` modulo the
/// threshold — each draw advances it and reaching the threshold triggers a
/// guaranteed draw and resets it.
pub proof fn lemma_pity_counter_cycle(
    b: BoxView,
    times: u32,
    counter: u32,
    excluded: Seq<u64>,
    totals: Seq<EntryView>,
    state: u64,
)
    requires
        b.save_point is Some,
        guarantee_of(b) > 0,
        counter < guarantee_of(b),
    ensures
        ({
            let m = spec_rand_multi(b, times, counter, excluded, totals, state);
            match m.0 {
                Ok(t) => t.2 as int == (counter + times) % (guarantee_of(b) as int),
                Err(_) => true,
            }
        }),
    decreases times,
{
    let g = guarantee_of(b) as int;
    if times == 0 {
        vstd::arithmetic::div_mod::lemma_small_mod(counter as nat, guarantee_of(b) as nat);
    } else {
        let (r1, s1) = spec_multi_step(b, counter, excluded, totals, state);
        match r1 {
            Err(_) => {},
            Ok(t) => {
                lemma_pity_counter_cycle(b, (times - 1) as u32, t.2, t.1, t.0, s1);
                if counter + 1 >= guarantee_of(b) {
                    assert(counter + 1 == g);
                    assert(t.2 == 0);
                    vstd::arithmetic::div_mod::lemma_mod_add_multiples_vanish(times - 1, g);
                    assert((counter + times) % g == (g + (times - 1)) % g);
                } else {
                    assert(t.2 == counter + 1);
                }
            },
        }
    }
}

/// Uniqueness: a draw never hands an owned unique id out of a pool again.
/// A unique-flagged result either carries an id outside the exclusion list,
/// or is the catalog's filler standing in for an exhausted pool.
pub proof fn lemma_unique_draw_respects_exclusions(
    pools: Seq<PoolView>,
    filler: Option<FillerView>,
    max_prob: u64,
    excluded: Seq<u64>,
    state: u64,
)
    requires
        forall|i: int| 0 <= i < pools.len() ==> (#[trigger] pools[i]).rewards.len() <= usize::MAX,
    ensures
        ({
            let (res, _) = spec_rand_slot(pools, filler, max_prob, excluded, state);
            match res {
                Ok(rv) => rv.is_unique ==> match spec_get_id(rv.reward) {
                    Option::Some(id) => !excluded.contains(id) || (match filler {
                        Option::Some(f) => rv.reward == f.filler && rv.amount == f.amount,
                        Option::None => false,
                    }),
                    Option::None => true,
                },
                Err(_) => true,
            }
        }),
{
    reveal(spec_rand_slot);
    if pools.len() == 0 || max_prob == 0 {
    } else {
        let (seed, s1) = spec_draw(state, max_prob);
        let pi = walk_from(pool_probs(pools), seed as int, 0);
        lemma_walk_from_range(pool_probs(pools), seed as int, 0);
        let pool = pools[pi];
        if pool.has_unique_rewards {
            let cands = avail_indices(pool.rewards, excluded);
            if cands.len() > 0 {
                let (t, _) = spec_draw(s1, cands.len() as u64);
                lemma_avail_indices_in_range(pool.rewards, excluded);
                lemma_avail_indices_available(pool.rewards, excluded);
                lemma_avail_indices_len(pool.rewards, excluded);
                assert(cands.len() <= pool.rewards.len());
                assert(t < cands.len());
                assert(reward_available(pool.rewards[cands[t as int]], excluded));
            }
        }
    }
}

} // verus!
