use vstd::prelude::*;
pub use crate::derivation::{generate_market_id, validate_oracle_signature};
pub use crate::error::PredictionMarketError;
use crate::math::{
    checked_add, lemma_div_bounds, lemma_mul_le, mul_div, mul_div_floor, BPS_DENOMINATOR,
};

verus! {

/// The probability shown for each side of a market without stakes: one half.
pub const EVEN_PROBABILITY_BPS: u64 = 5000;

/// The implied probability of the Yes side, in basis points, rounded down.
pub open spec fn implied_probability(yes_stakes: nat, no_stakes: nat) -> nat {
    mul_div_floor(yes_stakes, BPS_DENOMINATOR as nat, yes_stakes + no_stakes)
}

/// The implied probabilities of Yes and No, in basis points, from the stakes
/// on each. They sum to one whole; without stakes each is one half.
pub fn calculate_odds(yes_stakes: u64, no_stakes: u64) -> (r: Result<
    (u64, u64),
    PredictionMarketError,
>)
    ensures
        r == (if yes_stakes == 0 && no_stakes == 0 {
            Ok::<(u64, u64), PredictionMarketError>((EVEN_PROBABILITY_BPS, EVEN_PROBABILITY_BPS))
        } else if yes_stakes + no_stakes > u64::MAX {
            Err(PredictionMarketError::ArithmeticOverflow)
        } else {
            Ok(
                (
                    implied_probability(yes_stakes as nat, no_stakes as nat) as u64,
                    (BPS_DENOMINATOR - implied_probability(
                        yes_stakes as nat,
                        no_stakes as nat,
                    )) as u64,
                ),
            )
        }),
        r matches Ok((yes, no)) ==> yes + no == BPS_DENOMINATOR,
{
    if yes_stakes == 0 && no_stakes == 0 {
        return Ok((EVEN_PROBABILITY_BPS, EVEN_PROBABILITY_BPS));
    }
    let total_stakes = match checked_add(yes_stakes, no_stakes) {
        Ok(total) => total,
        Err(e) => {
            return Err(e);
        },
    };
    proof {
        lemma_div_bounds(yes_stakes as nat * BPS_DENOMINATOR as nat, total_stakes as nat);
        assert(implied_probability(yes_stakes as nat, no_stakes as nat) <= BPS_DENOMINATOR)
            by (nonlinear_arith)
            requires
                implied_probability(yes_stakes as nat, no_stakes as nat) * total_stakes
                    <= yes_stakes * BPS_DENOMINATOR,
                0 < total_stakes,
                yes_stakes <= total_stakes,
        ;
    }
    match mul_div(yes_stakes, BPS_DENOMINATOR, total_stakes) {
        Ok(yes_probability) => Ok((yes_probability, BPS_DENOMINATOR - yes_probability)),
        Err(e) => Err(e),
    }
}

/// The house's cut of a pool.
pub open spec fn house_fee(total_pool: nat, house_edge_bps: nat) -> nat {
    mul_div_floor(total_pool, house_edge_bps, BPS_DENOMINATOR as nat)
}

/// What a winning bet is paid: its proportional part of the pool net of the
/// house's cut, rounded down.
pub open spec fn proportional_payout(
    bet_amount: nat,
    winning_stakes: nat,
    losing_stakes: nat,
    house_edge_bps: nat,
) -> nat {
    let total_pool = winning_stakes + losing_stakes;
    mul_div_floor(
        bet_amount,
        (total_pool - house_fee(total_pool, house_edge_bps)) as nat,
        winning_stakes,
    )
}

/// What a winning bet of `bet_amount` is paid out of the two pools, after the
/// house's edge. Nothing where nobody staked on the winning side.
pub fn calculate_payout(
    bet_amount: u64,
    winning_stakes: u64,
    losing_stakes: u64,
    house_edge_bps: u64,
) -> (r: Result<u64, PredictionMarketError>)
    ensures
        r == (if winning_stakes == 0 {
            Ok::<u64, PredictionMarketError>(0)
        } else if winning_stakes + losing_stakes > u64::MAX || house_fee(
            (winning_stakes + losing_stakes) as nat,
            house_edge_bps as nat,
        ) > winning_stakes + losing_stakes || proportional_payout(
            bet_amount as nat,
            winning_stakes as nat,
            losing_stakes as nat,
            house_edge_bps as nat,
        ) > u64::MAX {
            Err(PredictionMarketError::ArithmeticOverflow)
        } else {
            Ok(
                proportional_payout(
                    bet_amount as nat,
                    winning_stakes as nat,
                    losing_stakes as nat,
                    house_edge_bps as nat,
                ) as u64,
            )
        }),
{
    if winning_stakes == 0 {
        return Ok(0);
    }
    let total_pool = match checked_add(winning_stakes, losing_stakes) {
        Ok(total) => total,
        Err(e) => {
            return Err(e);
        },
    };
    let fee = match mul_div(total_pool, house_edge_bps, BPS_DENOMINATOR) {
        Ok(fee) => fee,
        Err(e) => {
            return Err(e);
        },
    };
    if fee > total_pool {
        return Err(PredictionMarketError::ArithmeticOverflow);
    }
    mul_div(bet_amount, total_pool - fee, winning_stakes)
}

/// Most points a market can score for volume, and as many for balance.
pub const MAX_SCORE_PART: u64 = 5000;

/// Stakes that earn one point of the volume score.
pub const STAKES_PER_VOLUME_POINT: u64 = 1000000;

/// The smaller of two numbers.
pub open spec fn min_of(a: nat, b: nat) -> nat {
    if a <= b {
        a
    } else {
        b
    }
}

/// The larger of two numbers.
pub open spec fn max_of(a: nat, b: nat) -> nat {
    if a >= b {
        a
    } else {
        b
    }
}

/// The liquidity score of a two-sided market: up to 5000 points for the
/// volume, one per million staked, and up to 5000 for the balance, half the
/// ratio in basis points of the smaller side to the larger.
pub open spec fn liquidity_score(yes_stakes: nat, no_stakes: nat) -> nat {
    let total = min_of(yes_stakes + no_stakes, u64::MAX as nat);
    let smaller = min_of(yes_stakes, no_stakes);
    let larger = max_of(max_of(yes_stakes, no_stakes), 1);
    min_of(total / (STAKES_PER_VOLUME_POINT as nat), MAX_SCORE_PART as nat) + min_of(
        (smaller * 10000 / larger) / 2,
        MAX_SCORE_PART as nat,
    )
}

/// Scores a two-sided market for volume and balance, from 0 to 10000.
pub fn calculate_liquidity_score(yes_stakes: u64, no_stakes: u64) -> (score: u64)
    ensures
        score == liquidity_score(yes_stakes as nat, no_stakes as nat),
        score <= 2 * MAX_SCORE_PART,
{
    let total_stakes: u64 = if yes_stakes > u64::MAX - no_stakes {
        u64::MAX
    } else {
        yes_stakes + no_stakes
    };
    let balance_ratio: u128 = if yes_stakes > no_stakes {
        ((no_stakes as u128) * 10000) / (yes_stakes as u128)
    } else if no_stakes == 0 {
        0
    } else {
        ((yes_stakes as u128) * 10000) / (no_stakes as u128)
    };
    let by_volume: u64 = total_stakes / 1000000;
    let volume_score: u64 = if by_volume < MAX_SCORE_PART {
        by_volume
    } else {
        MAX_SCORE_PART
    };
    let by_balance: u128 = balance_ratio / 2;
    let balance_score: u64 = if by_balance < MAX_SCORE_PART as u128 {
        by_balance as u64
    } else {
        MAX_SCORE_PART
    };
    volume_score + balance_score
}

/// Whether `current_timestamp` lies in the window for resolving a market:
/// from its end to `resolution_window` seconds after it, both included.
pub fn validate_resolution_time(
    current_timestamp: i64,
    market_end_time: i64,
    resolution_window: i64,
) -> (r: Result<bool, PredictionMarketError>)
    ensures
        r == (if current_timestamp < market_end_time {
            Ok::<bool, PredictionMarketError>(false)
        } else if market_end_time + resolution_window > i64::MAX || market_end_time
            + resolution_window < i64::MIN {
            Err(PredictionMarketError::ArithmeticOverflow)
        } else {
            Ok(current_timestamp <= market_end_time + resolution_window)
        }),
{
    if current_timestamp < market_end_time {
        return Ok(false);
    }
    match market_end_time.checked_add(resolution_window) {
        None => Err(PredictionMarketError::ArithmeticOverflow),
        Some(max_resolution_time) => Ok(current_timestamp <= max_resolution_time),
    }
}

/// Stakes for which the minimum bet is scaled up by one step.
pub const STAKES_PER_SCALE_STEP: u64 = 10000000000;

/// Largest minimum bet that scaling can produce.
pub const MAX_SCALED_MIN_BET: u64 = 1000000000;

/// The minimum bet of a market with `total_stakes` staked: the base amount,
/// or with scaling the base amount times the number of full steps staked
/// (at least one), capped.
pub open spec fn min_bet_amount(total_stakes: nat, min_bet: nat, dynamic_scaling: bool) -> nat {
    if !dynamic_scaling {
        min_bet
    } else {
        min_of(
            min_bet * max_of(total_stakes / (STAKES_PER_SCALE_STEP as nat), 1),
            MAX_SCALED_MIN_BET as nat,
        )
    }
}

/// The minimum bet of a market, scaled with its size where asked for.
pub fn calculate_min_bet_amount(total_stakes: u64, min_bet_lamports: u64, dynamic_scaling: bool) -> (r:
    u64)
    ensures
        r == min_bet_amount(total_stakes as nat, min_bet_lamports as nat, dynamic_scaling),
{
    if !dynamic_scaling {
        return min_bet_lamports;
    }
    let steps: u64 = total_stakes / 10000000000;
    let scale_factor: u64 = if steps < 1 {
        1
    } else {
        steps
    };
    proof {
        lemma_mul_le(
            min_bet_lamports as nat,
            scale_factor as nat,
            u64::MAX as nat,
            u64::MAX as nat,
        );
        assert(u64::MAX * u64::MAX < u128::MAX) by (nonlinear_arith);
    }
    let scaled: u128 = (min_bet_lamports as u128) * (scale_factor as u128);
    if scaled < MAX_SCALED_MIN_BET as u128 {
        scaled as u64
    } else {
        MAX_SCALED_MIN_BET
    }
}

/// What normalises a reward: basis points times the units of one whole token.
pub const REWARD_DENOMINATOR: u128 = 10000000000000;

/// The reward of a market maker: liquidity times volume times rate, over
/// [`REWARD_DENOMINATOR`], rounded down.
pub open spec fn market_maker_reward(
    provided_liquidity: nat,
    total_volume: nat,
    reward_rate_bps: nat,
) -> nat {
    (provided_liquidity * total_volume * reward_rate_bps) / (REWARD_DENOMINATOR as nat)
}

/// The reward owed to a market maker for the liquidity provided.
pub fn calculate_market_maker_rewards(
    provided_liquidity: u64,
    total_volume: u64,
    reward_rate_bps: u64,
) -> (r: Result<u64, PredictionMarketError>)
    ensures
        r == (if total_volume == 0 {
            Ok::<u64, PredictionMarketError>(0)
        } else if provided_liquidity * total_volume * reward_rate_bps > u128::MAX
            || market_maker_reward(
            provided_liquidity as nat,
            total_volume as nat,
            reward_rate_bps as nat,
        ) > u64::MAX {
            Err(PredictionMarketError::ArithmeticOverflow)
        } else {
            Ok(
                market_maker_reward(
                    provided_liquidity as nat,
                    total_volume as nat,
                    reward_rate_bps as nat,
                ) as u64,
            )
        }),
{
    if total_volume == 0 {
        return Ok(0);
    }
    proof {
        lemma_mul_le(
            provided_liquidity as nat,
            total_volume as nat,
            u64::MAX as nat,
            u64::MAX as nat,
        );
        assert(u64::MAX * u64::MAX < u128::MAX) by (nonlinear_arith);
    }
    let product: u128 = (provided_liquidity as u128) * (total_volume as u128);
    match product.checked_mul(reward_rate_bps as u128) {
        None => Err(PredictionMarketError::ArithmeticOverflow),
        Some(scaled) => {
            let reward: u128 = scaled / 10000000000000;
            if reward > u64::MAX as u128 {
                Err(PredictionMarketError::ArithmeticOverflow)
            } else {
                Ok(reward as u64)
            }
        },
    }
}

/// Largest price impact, in basis points.
pub const MAX_PRICE_IMPACT_BPS: u64 = 500;

/// The price impact of a bet, in basis points: nothing under the threshold;
/// otherwise one hundredth of the ratio in basis points of the bet to the
/// stakes, capped at five percent.
pub open spec fn price_impact(bet_amount: nat, current_stakes: nat, impact_threshold: nat) -> nat {
    if bet_amount < impact_threshold {
        0
    } else {
        min_of(
            (bet_amount * 10000 / max_of(current_stakes, 1)) / 100,
            MAX_PRICE_IMPACT_BPS as nat,
        )
    }
}

/// The price impact of a large bet, in basis points.
pub fn calculate_price_impact(bet_amount: u64, current_stakes: u64, impact_threshold: u64) -> (r:
    u64)
    ensures
        r == price_impact(bet_amount as nat, current_stakes as nat, impact_threshold as nat),
        r <= MAX_PRICE_IMPACT_BPS,
{
    if bet_amount < impact_threshold {
        return 0;
    }
    let stakes: u128 = if current_stakes == 0 {
        1
    } else {
        current_stakes as u128
    };
    let ratio: u128 = ((bet_amount as u128) * 10000) / stakes;
    let impact: u128 = ratio / 100;
    if impact < MAX_PRICE_IMPACT_BPS as u128 {
        impact as u64
    } else {
        MAX_PRICE_IMPACT_BPS
    }
}

/// The categories of markets and how many subcategories each has beyond
/// the first.
pub open spec fn category_valid(category: u8, subcategory: u8) -> bool {
    match category {
        0 => subcategory <= 10,
        1 => subcategory <= 15,
        2 => subcategory <= 8,
        3 => subcategory <= 12,
        4 => subcategory <= 20,
        5 => subcategory <= 5,
        _ => false,
    }
}

/// Whether `subcategory` exists under `category`: sports, politics,
/// economics, entertainment, crypto and weather, in this order.
pub fn validate_market_category(category: u8, subcategory: u8) -> (valid: bool)
    ensures
        valid == category_valid(category, subcategory),
{
    match category {
        0 => subcategory <= 10,
        1 => subcategory <= 15,
        2 => subcategory <= 8,
        3 => subcategory <= 12,
        4 => subcategory <= 20,
        5 => subcategory <= 5,
        _ => false,
    }
}

/// Why a bet does not meet its constraints, if it does not; the checks in
/// their order.
pub open spec fn bet_constraint_violation(
    bet_amount: u64,
    min_bet: u64,
    max_bet: u64,
    user_balance: u64,
    market_cap: u64,
    current_stakes: u64,
) -> Option<PredictionMarketError> {
    if bet_amount < min_bet {
        Some(PredictionMarketError::BetTooSmall)
    } else if bet_amount > max_bet {
        Some(PredictionMarketError::BetTooLarge)
    } else if bet_amount > user_balance {
        Some(PredictionMarketError::InsufficientBalance)
    } else if current_stakes + bet_amount > u64::MAX {
        Some(PredictionMarketError::ArithmeticOverflow)
    } else if current_stakes + bet_amount > market_cap {
        Some(PredictionMarketError::MarketCapExceeded)
    } else {
        None
    }
}

/// Holds a bet against the market's bounds, the bettor's balance and the
/// market's cap.
pub fn validate_bet_constraints(
    bet_amount: u64,
    min_bet: u64,
    max_bet: u64,
    user_balance: u64,
    market_cap: u64,
    current_stakes: u64,
) -> (r: Result<(), PredictionMarketError>)
    ensures
        match r {
            Ok(_) => bet_constraint_violation(
                bet_amount,
                min_bet,
                max_bet,
                user_balance,
                market_cap,
                current_stakes,
            ) is None,
            Err(e) => bet_constraint_violation(
                bet_amount,
                min_bet,
                max_bet,
                user_balance,
                market_cap,
                current_stakes,
            ) == Some(e),
        },
{
    if bet_amount < min_bet {
        return Err(PredictionMarketError::BetTooSmall);
    }
    if bet_amount > max_bet {
        return Err(PredictionMarketError::BetTooLarge);
    }
    if bet_amount > user_balance {
        return Err(PredictionMarketError::InsufficientBalance);
    }
    let new_total = match checked_add(current_stakes, bet_amount) {
        Ok(total) => total,
        Err(e) => {
            return Err(e);
        },
    };
    if new_total > market_cap {
        return Err(PredictionMarketError::MarketCapExceeded);
    }
    Ok(())
}

/// The points of `history` that are not older than `start`, in their order.
pub open spec fn recent_prices(history: Seq<(i64, u64)>, start: int) -> Seq<(i64, u64)>
    decreases history.len(),
{
    if history.len() == 0 {
        Seq::empty()
    } else if history.last().0 >= start {
        recent_prices(history.drop_last(), start).push(history.last())
    } else {
        recent_prices(history.drop_last(), start)
    }
}

/// Whether `points` are in the order of their times and none is later than
/// `until`.
pub open spec fn chronological(points: Seq<(i64, u64)>, until: int) -> bool
    decreases points.len(),
{
    if points.len() == 0 {
        true
    } else {
        points.last().0 <= until && chronological(points.drop_last(), points.last().0 as int)
    }
}

/// Sum of the prices of `points`, each weighted by the time for which it
/// held: up to the next point, and for the last point up to `until`.
pub open spec fn weighted_price_sum(points: Seq<(i64, u64)>, until: int) -> int
    decreases points.len(),
{
    if points.len() == 0 {
        0
    } else {
        weighted_price_sum(points.drop_last(), points.last().0 as int) + points.last().1 * (until
            - points.last().0)
    }
}

/// The time that `points` cover up to `until`.
pub open spec fn covered_time(points: Seq<(i64, u64)>, until: int) -> int {
    if points.len() == 0 {
        0
    } else {
        until - points[0].0
    }
}

/// The time-weighted average price over the last `window_seconds` before
/// `current_time`; none where no point falls into the window, where the
/// points in it are out of order or later than `current_time`, or where they
/// cover no time.
pub open spec fn time_weighted_average(
    history: Seq<(i64, u64)>,
    window_seconds: i64,
    current_time: i64,
) -> Option<u64> {
    let points = recent_prices(history, current_time - window_seconds);
    if points.len() == 0 || !chronological(points, current_time as int) || covered_time(
        points,
        current_time as int,
    ) == 0 {
        None
    } else {
        Some(
            (weighted_price_sum(points, current_time as int) / covered_time(
                points,
                current_time as int,
            )) as u64,
        )
    }
}

/// The time up to which point `k` of `points` held: the time of the next
/// point, or `until` for the last.
pub open spec fn held_until(points: Seq<(i64, u64)>, until: int, k: int) -> int {
    if k < points.len() {
        points[k].0 as int
    } else {
        until
    }
}

/// The points before any point of a chronological list are chronological up
/// to that point.
pub proof fn lemma_chronological_prefix(points: Seq<(i64, u64)>, until: int, k: int)
    requires
        chronological(points, until),
        0 <= k <= points.len(),
    ensures
        chronological(points.take(k), held_until(points, until, k)),
    decreases points.len(),
{
    if k == points.len() {
        assert(points.take(k) =~= points);
    } else {
        lemma_chronological_prefix(points.drop_last(), points.last().0 as int, k);
        assert(points.drop_last().take(k) =~= points.take(k));
    }
}

/// Over a chronological list the weighted sum is at most the largest price
/// times the time covered.
pub proof fn lemma_weighted_sum_bound(points: Seq<(i64, u64)>, until: int)
    requires
        chronological(points, until),
    ensures
        0 <= covered_time(points, until),
        0 <= weighted_price_sum(points, until) <= u64::MAX * covered_time(points, until),
    decreases points.len(),
{
    if points.len() > 0 {
        let rest = points.drop_last();
        let last = points.last();
        lemma_weighted_sum_bound(rest, last.0 as int);
        if rest.len() > 0 {
            assert(rest[0] == points[0]);
        }
        let held = until - last.0;
        let before = covered_time(rest, last.0 as int);
        assert(last.1 * held <= u64::MAX * held) by (nonlinear_arith)
            requires
                0 <= last.1 <= u64::MAX,
                0 <= held,
        ;
        assert(0 <= last.1 * held) by (nonlinear_arith)
            requires
                0 <= last.1,
                0 <= held,
        ;
        assert(u64::MAX * before + u64::MAX * held == u64::MAX * (before + held))
            by (nonlinear_arith);
    }
}

/// The time-weighted average of the prices in `price_history`, a list of
/// times and prices, over the last `window_seconds` before `current_time`.
pub fn calculate_twap(price_history: &[(i64, u64)], window_seconds: i64, current_time: i64) -> (r:
    Option<u64>)
    ensures
        r == time_weighted_average(price_history@, window_seconds, current_time),
{
    let start: i128 = (current_time as i128) - (window_seconds as i128);
    let mut points: Vec<(i64, u64)> = Vec::new();
    let mut i: usize = 0;
    while i < price_history.len()
        invariant
            i <= price_history.len(),
            start == current_time - window_seconds,
            points@ == recent_prices(price_history@.take(i as int), start as int),
        decreases price_history.len() - i,
    {
        let point = price_history[i];
        proof {
            assert(price_history@.take(i + 1).drop_last() =~= price_history@.take(i as int));
        }
        if (point.0 as i128) >= start {
            points.push(point);
        }
        i += 1;
    }
    assert(price_history@.take(i as int) =~= price_history@);
    let n = points.len();
    if n == 0 {
        return None;
    }
    let first: i64 = points[0].0;
    let mut weighted_sum: u128 = 0;
    let mut k: usize = 0;
    while k < n
        invariant
            k <= n,
            n == points.len(),
            n > 0,
            first == points[0].0,
            points@ == recent_prices(price_history@, current_time - window_seconds),
            chronological(points@.take(k as int), held_until(points@, current_time as int, k as int)),
            weighted_sum == weighted_price_sum(
                points@.take(k as int),
                held_until(points@, current_time as int, k as int),
            ),
        decreases n - k,
    {
        let point = points[k];
        let until: i64 = if k + 1 < n {
            points[k + 1].0
        } else {
            current_time
        };
        assert(until == held_until(points@, current_time as int, k + 1));
        proof {
            assert(points@.take(k + 1).drop_last() =~= points@.take(k as int));
        }
        if until < point.0 {
            proof {
                if chronological(points@, current_time as int) {
                    lemma_chronological_prefix(points@, current_time as int, k + 1);
                }
            }
            return None;
        }
        let held: u128 = ((until as i128) - (point.0 as i128)) as u128;
        proof {
            let next = points@.take(k + 1);
            assert(chronological(next, until as int));
            lemma_weighted_sum_bound(next, until as int);
            assert(next[0] == points@[0]);
            assert(covered_time(next, until as int) <= u64::MAX);
            assert(u64::MAX * covered_time(next, until as int) <= u64::MAX * u64::MAX)
                by (nonlinear_arith)
                requires
                    0 <= covered_time(next, until as int) <= u64::MAX,
            ;
            assert(u64::MAX * u64::MAX < u128::MAX) by (nonlinear_arith);
            assert(0 <= (point.1 as int) * (held as int)) by (nonlinear_arith)
                requires
                    0 <= point.1,
                    0 <= held,
            ;
        }
        weighted_sum = weighted_sum + (point.1 as u128) * held;
        k += 1;
    }
    proof {
        assert(points@.take(k as int) =~= points@);
        lemma_weighted_sum_bound(points@, current_time as int);
    }
    let total_weight: u128 = ((current_time as i128) - (first as i128)) as u128;
    if total_weight == 0 {
        return None;
    }
    proof {
        assert(weighted_sum / total_weight <= u64::MAX) by (nonlinear_arith)
            requires
                0 <= weighted_sum <= u64::MAX * total_weight,
                total_weight > 0,
        ;
    }
    Some((weighted_sum / total_weight) as u64)
}

} // verus!
