use vstd::prelude::*;

use crate::loot::LootRarity;
use crate::rng::{draw, lcg_next, SeededRng};

verus! {

/// The positions, in order, of the catalog entries of rarity `r`.
pub open spec fn indices_of_rarity(rarities: Seq<LootRarity>, r: LootRarity) -> Seq<usize>
    decreases rarities.len(),
{
    if rarities.len() == 0 {
        Seq::empty()
    } else {
        let rest = indices_of_rarity(rarities.drop_last(), r);
        if rarities.last() == r {
            rest.push((rarities.len() - 1) as usize)
        } else {
            rest
        }
    }
}

/// `a + b`, held at 255.
pub open spec fn sat_add_u8(a: u8, b: u8) -> u8 {
    a.saturating_add(b)
}

/// The sum of the three rarity weights, held between 1 and 255.
pub open spec fn weight_total(common: u8, uncommon: u8, rare: u8) -> u8 {
    let t = sat_add_u8(sat_add_u8(common, uncommon), rare);
    if t < 1 {
        1
    } else {
        t
    }
}

/// The rarity a weighted roll lands on.
pub open spec fn rarity_for_roll(roll: u8, common: u8, uncommon: u8) -> LootRarity {
    if roll < common {
        LootRarity::Common
    } else if roll < sat_add_u8(common, uncommon) {
        LootRarity::Uncommon
    } else {
        LootRarity::Rare
    }
}

/// One attempt to stock a market: roll a rarity, then a catalog entry of that rarity, and keep
/// it unless it is already stocked. Yields the generator state after the attempt and the stock.
pub open spec fn market_attempt(
    rarities: Seq<LootRarity>,
    weights: (u8, u8, u8),
    state: u64,
    picks: Seq<usize>,
) -> (u64, Seq<usize>) {
    let total = weight_total(weights.0, weights.1, weights.2);
    let rarity = rarity_for_roll(draw(state, total), weights.0, weights.1);
    let s1 = lcg_next(state);
    let candidates = indices_of_rarity(rarities, rarity);
    if candidates.len() == 0 {
        (s1, picks)
    } else {
        let pick = candidates[draw(s1, candidates.len() as u8) as int];
        let s2 = lcg_next(s1);
        if picks.contains(pick) {
            (s2, picks)
        } else {
            (s2, picks.push(pick))
        }
    }
}

/// The stock after repeated attempts, stopping once `count` entries are stocked or the
/// attempts run out.
pub open spec fn market_run(
    rarities: Seq<LootRarity>,
    weights: (u8, u8, u8),
    state: u64,
    picks: Seq<usize>,
    count: nat,
    attempts_left: nat,
) -> Seq<usize>
    decreases attempts_left,
{
    if picks.len() >= count || attempts_left == 0 {
        picks
    } else {
        let next = market_attempt(rarities, weights, state, picks);
        market_run(rarities, weights, next.0, next.1, count, (attempts_left - 1) as nat)
    }
}

/// How many entries a market wants to stock: a roll between the (ordered) bounds, at least one.
pub open spec fn market_count(seed: u64, min_count: u8, max_count: u8) -> nat {
    let lo = if min_count <= max_count { min_count } else { max_count };
    let hi = if max_count >= lo { max_count } else { lo };
    let range = sat_add_u8((hi - lo) as u8, 1);
    let c = sat_add_u8(lo, draw(seed, range));
    if c < 1 {
        1
    } else {
        c as nat
    }
}

/// The catalog positions a market stocks for a seed, in stocking order.
pub open spec fn market_picks(
    rarities: Seq<LootRarity>,
    weights: (u8, u8, u8),
    seed: u64,
    min_count: u8,
    max_count: u8,
) -> Seq<usize> {
    let count = market_count(seed, min_count, max_count);
    market_run(rarities, weights, lcg_next(seed), Seq::empty(), count, count * 12)
}

/// Every position of `indices_of_rarity` is inside the catalog and has that rarity.
pub proof fn lemma_indices_of_rarity(rarities: Seq<LootRarity>, r: LootRarity)
    requires
        rarities.len() <= usize::MAX,
    ensures
        indices_of_rarity(rarities, r).len() <= rarities.len(),
        forall|i: int|
            0 <= i < indices_of_rarity(rarities, r).len() ==> {
                &&& #[trigger] indices_of_rarity(rarities, r)[i] < rarities.len()
                &&& rarities[indices_of_rarity(rarities, r)[i] as int] == r
            },
    decreases rarities.len(),
{
    if rarities.len() > 0 {
        let rest = indices_of_rarity(rarities.drop_last(), r);
        lemma_indices_of_rarity(rarities.drop_last(), r);
        let full = indices_of_rarity(rarities, r);
        assert forall|i: int| 0 <= i < full.len() implies #[trigger] full[i] < rarities.len()
            && rarities[full[i] as int] == r by {
            if i < rest.len() {
                assert(full[i] == rest[i]);
                assert(rarities.drop_last()[rest[i] as int] == rarities[rest[i] as int]);
            } else if rarities.last() == r {
                assert(full == rest.push((rarities.len() - 1) as usize));
                assert(full[i] == (rarities.len() - 1) as usize);
            } else {
                assert(full == rest);
            }
        }
    }
}

/// The stock a market run builds holds distinct catalog positions of the catalog, at most
/// `count` of them, and extends the stock it started from.
pub proof fn lemma_market_run(
    rarities: Seq<LootRarity>,
    weights: (u8, u8, u8),
    state: u64,
    picks: Seq<usize>,
    count: nat,
    attempts_left: nat,
)
    requires
        rarities.len() < 256,
        picks.len() <= count,
        picks.no_duplicates(),
        forall|i: int| 0 <= i < picks.len() ==> #[trigger] picks[i] < rarities.len(),
    ensures
        ({
            let out = market_run(rarities, weights, state, picks, count, attempts_left);
            &&& out.len() <= count
            &&& out.no_duplicates()
            &&& forall|i: int| 0 <= i < out.len() ==> #[trigger] out[i] < rarities.len()
            &&& picks.is_prefix_of(out)
        }),
    decreases attempts_left,
{
    if picks.len() >= count || attempts_left == 0 {
    } else {
        let total = weight_total(weights.0, weights.1, weights.2);
        let rarity = rarity_for_roll(draw(state, total), weights.0, weights.1);
        let candidates = indices_of_rarity(rarities, rarity);
        lemma_indices_of_rarity(rarities, rarity);
        let next = market_attempt(rarities, weights, state, picks);
        if candidates.len() > 0 {
            let pick = candidates[draw(lcg_next(state), candidates.len() as u8) as int];
            assert(draw(lcg_next(state), candidates.len() as u8) < candidates.len());
            assert(pick < rarities.len());
            if !picks.contains(pick) {
                assert forall|i: int, j: int|
                    0 <= i < next.1.len() && 0 <= j < next.1.len() && i != j implies next.1[i]
                    != next.1[j] by {
                    if i == picks.len() as int {
                        assert(next.1[j] == picks[j]);
                    } else if j == picks.len() as int {
                        assert(next.1[i] == picks[i]);
                    }
                }
            }
        }
        lemma_market_run(rarities, weights, next.0, next.1, count, (attempts_left - 1) as nat);
        let out = market_run(rarities, weights, next.0, next.1, count, (attempts_left - 1) as nat);
        assert(picks.is_prefix_of(next.1));
        assert(picks.is_prefix_of(out)) by {
            assert forall|i: int| 0 <= i < picks.len() implies picks[i] == out[i] by {
                assert(next.1[i] == picks[i]);
            }
        }
    }
}

/// The catalog positions of one rarity, as `indices_of_rarity` gives them.
fn collect_indices_of_rarity(rarities: &Vec<LootRarity>, rarity: LootRarity) -> (r: Vec<usize>)
    ensures
        r@ == indices_of_rarity(rarities@, rarity),
{
    let mut out: Vec<usize> = Vec::new();
    let mut i: usize = 0;
    while i < rarities.len()
        invariant
            i <= rarities.len(),
            out@ == indices_of_rarity(rarities@.take(i as int), rarity),
        decreases rarities.len() - i,
    {
        assert(rarities@.take(i + 1).drop_last() == rarities@.take(i as int));
        if rarities[i] == rarity {
            out.push(i);
        }
        i += 1;
    }
    assert(rarities@.take(rarities.len() as int) == rarities@);
    out
}

/// Whether `picks` already holds `pick`.
fn holds(picks: &Vec<usize>, pick: usize) -> (r: bool)
    ensures
        r == picks@.contains(pick),
{
    let mut i: usize = 0;
    while i < picks.len()
        invariant
            i <= picks.len(),
            forall|j: int| 0 <= j < i ==> picks@[j] != pick,
        decreases picks.len() - i,
    {
        if picks[i] == pick {
            return true;
        }
        i += 1;
    }
    false
}

/// Rolls a rarity against the three weights.
fn roll_market_rarity(rng: &mut SeededRng, weights: (u8, u8, u8)) -> (r: LootRarity)
    ensures
        r == rarity_for_roll(draw(old(rng).state, weight_total(weights.0, weights.1, weights.2)), weights.0, weights.1),
        final(rng).state == lcg_next(old(rng).state),
{
    let (common, uncommon, rare) = weights;
    let sum = common.saturating_add(uncommon).saturating_add(rare);
    let total = if sum < 1 { 1 } else { sum };
    let roll = rng.next_u8(total);
    if roll < common {
        LootRarity::Common
    } else if roll < common.saturating_add(uncommon) {
        LootRarity::Uncommon
    } else {
        LootRarity::Rare
    }
}

/// Picks the catalog positions a market stocks: a weighted roll of a rarity, then an entry of
/// that rarity, skipping entries already stocked, until the rolled count is reached or twelve
/// attempts per wanted entry are spent.
pub fn pick_market_stock(
    rarities: &Vec<LootRarity>,
    weights: (u8, u8, u8),
    seed: u64,
    min_count: u8,
    max_count: u8,
) -> (r: Vec<usize>)
    requires
        rarities.len() < 256,
    ensures
        r@ == market_picks(rarities@, weights, seed, min_count, max_count),
{
    let mut rng = SeededRng::new(seed);
    let lo = if min_count <= max_count { min_count } else { max_count };
    let hi = if max_count >= lo { max_count } else { lo };
    let range = (hi - lo).saturating_add(1);
    let rolled = lo.saturating_add(rng.next_u8(range));
    let count: usize = if rolled < 1 { 1 } else { rolled as usize };
    assert(count == market_count(seed, min_count, max_count));
    let mut picks: Vec<usize> = Vec::new();
    let mut attempts: usize = 0;
    while picks.len() < count && attempts < count * 12
        invariant
            count <= 255,
            attempts <= count * 12,
            rarities.len() < 256,
            market_run(rarities@, weights, rng.state, picks@, count as nat, (count * 12 - attempts) as nat)
                == market_picks(rarities@, weights, seed, min_count, max_count),
        decreases count * 12 - attempts,
    {
        let ghost before = (rng.state, picks@);
        attempts += 1;
        let rarity = roll_market_rarity(&mut rng, weights);
        let candidates = collect_indices_of_rarity(rarities, rarity);
        proof {
            lemma_indices_of_rarity(rarities@, rarity);
        }
        if candidates.len() == 0 {
            assert((rng.state, picks@) == market_attempt(rarities@, weights, before.0, before.1));
            continue;
        }
        let pick = candidates[rng.next_u8(candidates.len() as u8) as usize];
        if holds(&picks, pick) {
            assert((rng.state, picks@) == market_attempt(rarities@, weights, before.0, before.1));
            continue;
        }
        picks.push(pick);
        assert((rng.state, picks@) == market_attempt(rarities@, weights, before.0, before.1));
    }
    picks
}

} // verus!
