//! The growth engine: a pure, exact-integer version of the growth formula,
//! plus uniform sampling of a delta from the computed range and the floored
//! application of a delta to a weight.
//!
//! The formula intentionally penalises front-runners: a rank close to first
//! place yields a larger loss bound and a smaller gain bound, so trailing
//! players catch up.  This is the fairness policy of the game, not an
//! accident.
//!
//! With the score `s`, the rank `r`, the population `p` and the tunables
//! `base_growth = bg/1000`, `rank_factor = rf/1000`, `weight_factor =
//! wf/1000`, the bounds are
//!
//! ```text
//! max_loss = floor(bg/1000 * s * rf/1000 * (1 - r/p)) + 15
//! max_gain = floor(wf/1000 * s * 2 * (1 / (2 - r/p))) + 35
//! ```
//!
//! and the range is `(-max_loss, max_gain)`.  The denominator `2 - r/p` is
//! at least `1` because `r <= p`, so no division by zero can arise.  The
//! engine computes both bounds exactly over the integers:
//! `floor(bg * rf * s * (p - r) / (1000000 * p))` and
//! `floor(2 * wf * s * p / (1000 * (2p - r)))`.

use vstd::prelude::*;
use vstd::arithmetic::div_mod::*;

use crate::config::GameConfig;

verus! {

/// Largest weight the engine stores; the growth application saturates here.
/// A machine bound, far beyond any weight reachable in ordinary play.
pub const WEIGHT_LIMIT: i64 = 1000000000000;

/// Largest chat population the engine accepts.  A machine bound.
pub const POPULATION_LIMIT: i64 = 1000000000000;

/// Largest magnitude of a growth delta the application step accepts.
pub const DELTA_LIMIT: i64 = 4611686018427387904;

/// The loss bound of the formula, as a mathematical integer.
pub open spec fn spec_max_loss(score: int, rank: int, population: int, bg: int, rf: int) -> int {
    15 + (bg * rf * score * (population - rank)) / (1000000 * population)
}

/// The gain bound of the formula, as a mathematical integer.
pub open spec fn spec_max_gain(score: int, rank: int, population: int, wf: int) -> int {
    35 + (2 * wf * score * population) / (1000 * (2 * population - rank))
}

/// The inputs on which the growth range is defined.
pub open spec fn spec_growth_inputs_ok(score: int, rank: int, population: int) -> bool {
    &&& 0 <= score <= WEIGHT_LIMIT
    &&& 1 <= rank <= population <= POPULATION_LIMIT
}

/// The result of applying a delta to a weight: the sum, floored at one and
/// saturated at [`WEIGHT_LIMIT`].
pub open spec fn spec_apply_growth(weight: int, delta: int) -> int {
    let raw = if weight + delta >= 1 {
        weight + delta
    } else {
        1
    };
    if raw <= WEIGHT_LIMIT {
        raw
    } else {
        WEIGHT_LIMIT as int
    }
}

/// For every valid input — any score at least zero, any rank between one
/// and any population, any non-negative tunables, with no machine bound —
/// the loss bound is at least 15 and the gain bound at least 35, so the
/// range `(-max_loss, max_gain)` always straddles zero and is never empty.
pub proof fn lemma_growth_range_ordered(
    score: int,
    rank: int,
    population: int,
    bg: int,
    rf: int,
    wf: int,
)
    requires
        0 <= score,
        1 <= rank <= population,
        0 <= bg,
        0 <= rf,
        0 <= wf,
    ensures
        spec_max_loss(score, rank, population, bg, rf) >= 15,
        spec_max_gain(score, rank, population, wf) >= 35,
        -spec_max_loss(score, rank, population, bg, rf) < 0 < spec_max_gain(
            score,
            rank,
            population,
            wf,
        ),
        -spec_max_loss(score, rank, population, bg, rf) <= spec_max_gain(
            score,
            rank,
            population,
            wf,
        ),
{
    assert(bg * rf * score * (population - rank) >= 0) by (nonlinear_arith)
        requires
            0 <= bg,
            0 <= rf,
            0 <= score,
            rank <= population,
    ;
    assert(1000000 * population > 0) by (nonlinear_arith)
        requires
            population >= 1,
    ;
    lemma_div_pos_is_pos(bg * rf * score * (population - rank), 1000000 * population);
    assert(2 * wf * score * population >= 0) by (nonlinear_arith)
        requires
            0 <= wf,
            0 <= score,
            population >= 1,
    ;
    assert(1000 * (2 * population - rank) > 0) by (nonlinear_arith)
        requires
            1 <= rank <= population,
    ;
    lemma_div_pos_is_pos(2 * wf * score * population, 1000 * (2 * population - rank));
}

/// Every growth application yields a weight of at least one: the weight can
/// never reach zero or drop below it, whatever the sampled delta was.
pub proof fn lemma_weight_floor(weight: int, delta: int)
    ensures
        1 <= spec_apply_growth(weight, delta) <= WEIGHT_LIMIT,
{
}

/// Relies on `rand::random`: a machine word drawn from the process-wide
/// generator.  Nothing is promised of the value; callers must hold for every
/// outcome.
#[verifier::external_body]
pub(crate) fn random_u64() -> u64 {
    rand::random::<u64>()
}

/// Relies on `rand::random_range`: a value drawn from the given inclusive
/// range by the process-wide generator's uniform sampler.  Only membership
/// in the range is promised; a non-empty range is required, since the
/// sampler rejects an empty one.
#[verifier::external_body]
pub(crate) fn random_in_range(min: i64, max: i64) -> (r: i64)
    requires
        min <= max,
    ensures
        min <= r <= max,
{
    rand::random_range(min..=max)
}

/// Computes the inclusive growth range `(min, max)` from the score, the
/// 1-based rank, the chat population and the tunables, exactly as the
/// formula above states.
pub fn compute_growth_range(score: i64, rank: i64, population: i64, config: &GameConfig) -> (r: (
    i64,
    i64,
))
    requires
        config.wf(),
        spec_growth_inputs_ok(score as int, rank as int, population as int),
    ensures
        r.0 == -spec_max_loss(
            score as int,
            rank as int,
            population as int,
            config.base_growth_milli as int,
            config.rank_factor_milli as int,
        ),
        r.1 == spec_max_gain(
            score as int,
            rank as int,
            population as int,
            config.weight_factor_milli as int,
        ),
        r.0 <= -15 && 35 <= r.1,
        r.0 < 0 < r.1,
        r.1 - r.0 <= DELTA_LIMIT,
{
    let bg: u128 = config.base_growth_milli as u128;
    let rf: u128 = config.rank_factor_milli as u128;
    let wf: u128 = config.weight_factor_milli as u128;
    let s: u128 = score as u128;
    let p: u128 = population as u128;
    let rk: u128 = rank as u128;

    proof {
        lemma_growth_range_ordered(
            score as int,
            rank as int,
            population as int,
            bg as int,
            rf as int,
            wf as int,
        );
    }

    // Loss bound: floor(bg * rf * s * (p - rk) / (1000000 * p)).
    assert((bg as int) * (rf as int) <= 1000000000000) by (nonlinear_arith)
        requires
            0 <= bg as int <= 1000000,
            0 <= rf as int <= 1000000,
    ;
    let bgrf: u128 = bg * rf;
    assert((bgrf as int) * (s as int) <= 1000000000000000000000000) by (nonlinear_arith)
        requires
            0 <= bgrf as int <= 1000000000000,
            0 <= s as int <= 1000000000000,
    ;
    let bgrfs: u128 = bgrf * s;
    assert((bgrfs as int) * ((p - rk) as int) <= 1000000000000000000000000000000000000) by (nonlinear_arith)
        requires
            0 <= bgrfs as int <= 1000000000000000000000000,
            0 <= ((p - rk) as int) < 1000000000000,
    ;
    let loss_num: u128 = bgrfs * (p - rk);
    let loss_den: u128 = 1000000u128 * p;
    let loss_q: u128 = loss_num / loss_den;
    proof {
        // loss_num <= (1000000 * s) * loss_den, so the quotient is at most
        // 1000000 * s <= 10^18.
        let bound = 1000000 * (s as int);
        assert(loss_num as int <= bound * (loss_den as int)) by (nonlinear_arith)
            requires
                loss_num == (bg as int) * (rf as int) * (s as int) * ((p - rk) as int),
                loss_den == 1000000 * (p as int),
                bound == 1000000 * (s as int),
                bg <= 1000000,
                rf <= 1000000,
                0 <= (p - rk) as int <= p as int,
                1 <= p,
    ;
        lemma_div_is_ordered(loss_num as int, bound * (loss_den as int), loss_den as int);
        lemma_div_multiples_vanish(bound, loss_den as int);
        assert(loss_q <= 1000000000000000000);
    }
    let max_loss: i64 = 15 + (loss_q as i64);

    // Gain bound: floor(2 * wf * s * p / (1000 * (2p - rk))).
    assert(2 * (wf as int) * (s as int) <= 2000000000000000000) by (nonlinear_arith)
        requires
            0 <= wf as int <= 1000000,
            0 <= s as int <= 1000000000000,
    ;
    let wfs: u128 = 2u128 * wf * s;
    assert((wfs as int) * (p as int) <= 2000000000000000000000000000000) by (nonlinear_arith)
        requires
            0 <= wfs as int <= 2000000000000000000,
            0 <= p as int <= 1000000000000,
    ;
    let gain_num: u128 = wfs * p;
    let gain_den: u128 = 1000u128 * (2u128 * p - rk);
    let gain_q: u128 = gain_num / gain_den;
    proof {
        // gain_num <= 2000000000000000 * gain_den, because wfs <= 2 * 10^18
        // and p <= 2p - rk.
        assert(gain_num as int <= 2000000000000000 * (gain_den as int)) by (nonlinear_arith)
            requires
                gain_num == (wfs as int) * (p as int),
                gain_den == 1000 * (2 * (p as int) - (rk as int)),
                wfs <= 2000000000000000000,
                1 <= rk <= p,
    ;
        lemma_div_is_ordered(gain_num as int, 2000000000000000 * (gain_den as int), gain_den as int);
        lemma_div_multiples_vanish(2000000000000000, gain_den as int);
        assert(gain_q <= 2000000000000000);
    }
    let max_gain: i64 = 35 + (gain_q as i64);

    (-max_loss, max_gain)
}

/// Samples a growth delta from the inclusive range `[min, max]`, with the
/// uniform discrete distribution of the range sampler.  A one-value range
/// yields that value without drawing.
pub fn sample_growth(min: i64, max: i64) -> (delta: i64)
    requires
        min <= max,
    ensures
        min <= delta <= max,
        min == max ==> delta == min,
{
    if min == max {
        min
    } else {
        random_in_range(min, max)
    }
}

/// Applies a sampled delta to a weight: the result is `weight + delta`
/// floored at one, saturated at [`WEIGHT_LIMIT`], and therefore always a
/// positive stored weight.
pub fn apply_growth(weight: i64, delta: i64) -> (w: i64)
    requires
        0 <= weight <= WEIGHT_LIMIT,
        -DELTA_LIMIT <= delta <= DELTA_LIMIT,
    ensures
        w == spec_apply_growth(weight as int, delta as int),
        1 <= w <= WEIGHT_LIMIT,
{
    let sum: i64 = weight + delta;
    let floored: i64 = if sum >= 1 {
        sum
    } else {
        1
    };
    if floored <= WEIGHT_LIMIT {
        floored
    } else {
        WEIGHT_LIMIT
    }
}

} // verus!
