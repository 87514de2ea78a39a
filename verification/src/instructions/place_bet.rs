use vstd::prelude::*;
use crate::address::Address;
use crate::error::PredictionMarketError;
use crate::ledger::{transfer, TokenAccount};
use crate::math::{
    lemma_mul_le, mul_div_floor, mul_div_wide, ratio_bps, ratio_bps_saturating,
};
use crate::state::{market_step, 
    lemma_no_stakes_total, lemma_odds_idempotent, lemma_pool_total_member,
    lemma_pool_total_update, lemma_refresh_keeps_total, lemma_stake_total_update, no_stakes,
    pool_total, with_refreshed_odds, zeroed_stakes, BetOutcome, Market, MarketStatus,
    MarketView, Outcome, Position, PositionView, UNOPPOSED_ODDS_BPS,
};

verus! {

/// Everything a bet reads or changes.
#[derive(Clone, Debug, PartialEq, Eq)]
pub struct PlaceBet {
    pub market: Market,
    /// The bettor's position in the market; a blank one is opened by the bet.
    pub bet: Position,
    pub bettor_token_account: TokenAccount,
    pub market_vault: TokenAccount,
    pub bettor: Address,
    /// The time at which the bet is placed.
    pub unix_timestamp: i64,
}

/// What a bet reports back.
#[derive(Clone, Copy, Debug, PartialEq, Eq)]
pub struct BetPlacedEvent {
    pub market: Address,
    pub bettor: Address,
    pub outcome: u8,
    pub amount: u64,
    pub odds: u64,
    pub timestamp: i64,
    pub total_market_volume: u64,
}

/// What a bet of `amount` could pay at most, going by the pool as it stands
/// before the bet: the stake times the pool over what opposes it; twice the
/// stake where nothing opposes it.
pub open spec fn potential_payout(amount: nat, total: nat, opposing: nat) -> nat {
    if opposing > 0 {
        mul_div_floor(amount, total, opposing)
    } else {
        amount * 2
    }
}

/// The odds recorded with a bet, in basis points: the pool over what opposes
/// the bet, saturated; 2.0x where nothing opposes it.
pub open spec fn odds_at_bet(total: nat, opposing: nat) -> u64 {
    if opposing > 0 {
        ratio_bps_saturating(total, opposing) as u64
    } else {
        UNOPPOSED_ODDS_BPS
    }
}

impl PlaceBet {
    /// The whole pool before the bet.
    pub open spec fn total_pool(self) -> nat {
        pool_total(self.market.outcomes@)
    }

    /// What is staked on `outcome` before the bet.
    pub open spec fn own_pool(self, outcome: u8) -> nat {
        self.market.outcomes@[outcome as int].total_amount as nat
    }

    /// What is staked on the other outcomes before the bet.
    pub open spec fn opposing_pool(self, outcome: u8) -> nat {
        (self.total_pool() - self.own_pool(outcome)) as nat
    }

    /// Whether the position handed in may take the bettor's stake.
    pub open spec fn position_usable(self) -> bool {
        self.bet@.is_blank() || (self.bet.owner == self.bettor && self.bet.market
            == self.market.key && self.bet.outcomes@.len() == self.market.outcomes@.len())
    }

    /// The position as it stands before the bet: a blank one is opened for
    /// the bettor first.
    pub open spec fn opened_position(self) -> PositionView {
        if self.bet@.is_blank() {
            PositionView {
                owner: self.bettor,
                market: self.market.key,
                outcomes: no_stakes(self.market.outcomes@.len()),
                total_amount: 0,
                claimed: false,
                claimed_at: 0,
                created_at: self.unix_timestamp,
                last_bet_at: self.unix_timestamp,
            }
        } else {
            self.bet@
        }
    }

    /// Whether the bet would take a balance or a counter out of its range.
    pub open spec fn overflows(self, outcome: u8, amount: u64) -> bool {
        let market = self.market@;
        let position = self.opened_position();
        ||| self.market_vault.amount + amount > u64::MAX
        ||| position.outcomes[outcome as int].amount + amount > u64::MAX
        ||| position.total_amount + amount > u64::MAX
        ||| self.own_pool(outcome) + amount > u64::MAX
        ||| market.outcomes[outcome as int].bet_count + 1 > u64::MAX
        ||| market.total_volume + amount > u64::MAX
        ||| market.total_bets + 1 > u64::MAX
    }

    /// Why the bet is refused, if it is; the checks in their order.
    pub open spec fn rejection(self, outcome: u8, amount: u64) -> Option<PredictionMarketError> {
        let market = self.market@;
        let position = self.opened_position();
        if market.status != MarketStatus::Active {
            Some(PredictionMarketError::MarketNotActive)
        } else if self.unix_timestamp >= market.end_time {
            Some(PredictionMarketError::MarketExpired)
        } else if outcome >= market.outcomes.len() {
            Some(PredictionMarketError::InvalidOutcome)
        } else if amount == 0 {
            Some(PredictionMarketError::InvalidBetAmount)
        } else if amount < market.min_bet_amount {
            Some(PredictionMarketError::BetBelowMinimum)
        } else if amount > market.max_bet_amount {
            Some(PredictionMarketError::BetAboveMaximum)
        } else if self.bettor.is_zero() {
            Some(PredictionMarketError::InvalidAuthority)
        } else if !self.position_usable() {
            Some(PredictionMarketError::InvalidPosition)
        } else if position.claimed {
            Some(PredictionMarketError::AlreadyClaimed)
        } else if self.total_pool() > u64::MAX {
            Some(PredictionMarketError::ArithmeticOverflow)
        } else if potential_payout(amount as nat, self.total_pool(), self.opposing_pool(outcome))
            > market.max_payout_per_bet {
            Some(PredictionMarketError::PayoutTooHigh)
        } else if self.bettor_token_account.amount < amount {
            Some(PredictionMarketError::InsufficientTokenBalance)
        } else if self.overflows(outcome, amount) {
            Some(PredictionMarketError::ArithmeticOverflow)
        } else {
            None
        }
    }

    /// The market after an accepted bet: the stake joins the outcome's pool
    /// and the volume, and the odds of every outcome are recomputed.
    pub open spec fn market_after(self, outcome: u8, amount: u64) -> MarketView {
        let market = self.market@;
        let entry = market.outcomes[outcome as int];
        MarketView {
            outcomes: with_refreshed_odds(
                market.outcomes.update(
                    outcome as int,
                    Outcome {
                        total_amount: (entry.total_amount + amount) as u64,
                        bet_count: (entry.bet_count + 1) as u64,
                        ..entry
                    },
                ),
            ),
            total_volume: (market.total_volume + amount) as u64,
            total_bets: (market.total_bets + 1) as u64,
            last_bet_time: self.unix_timestamp,
            ..market
        }
    }

    /// The position after an accepted bet. The odds recorded are those of the
    /// pool before the bet; they do not enter any payout.
    pub open spec fn position_after(self, outcome: u8, amount: u64) -> PositionView {
        let position = self.opened_position();
        PositionView {
            outcomes: position.outcomes.update(
                outcome as int,
                BetOutcome {
                    amount: (position.outcomes[outcome as int].amount + amount) as u64,
                    odds_at_bet: odds_at_bet(self.total_pool(), self.opposing_pool(outcome)),
                },
            ),
            total_amount: (position.total_amount + amount) as u64,
            last_bet_at: self.unix_timestamp,
            ..position
        }
    }

    /// Whether `post` is this context after an accepted bet.
    pub open spec fn placed(self, post: PlaceBet, outcome: u8, amount: u64) -> bool {
        &&& post.market@ == self.market_after(outcome, amount)
        &&& post.bet@ == self.position_after(outcome, amount)
        &&& post.bettor_token_account.amount == self.bettor_token_account.amount - amount
        &&& post.market_vault.amount == self.market_vault.amount + amount
        &&& post.bettor == self.bettor
        &&& post.unix_timestamp == self.unix_timestamp
    }
}

/// An accepted bet keeps a market's invariants.
pub proof fn lemma_bet_keeps_market_wf(ctx: PlaceBet, outcome: u8, amount: u64)
    requires
        ctx.market@.wf(),
        ctx.rejection(outcome, amount) is None,
    ensures
        ctx.market_after(outcome, amount).wf(),
{
    let market = ctx.market@;
    let entry = market.outcomes[outcome as int];
    let staked = market.outcomes.update(
        outcome as int,
        Outcome {
            total_amount: (entry.total_amount + amount) as u64,
            bet_count: (entry.bet_count + 1) as u64,
            ..entry
        },
    );
    lemma_pool_total_update(market.outcomes, outcome as int, staked[outcome as int]);
    lemma_refresh_keeps_total(staked);
    lemma_odds_idempotent(staked);
    let after = ctx.market_after(outcome, amount);
    assert forall|i: int| 0 <= i < after.outcomes.len() implies (#[trigger] after.outcomes[i]).id
        == i by {
        assert(staked[i].id == market.outcomes[i].id);
    }
}

/// An accepted bet keeps a position's stakes and its total in step.
pub proof fn lemma_bet_keeps_position_wf(ctx: PlaceBet, outcome: u8, amount: u64)
    requires
        ctx.bet@.is_blank() || ctx.bet@.wf(),
        ctx.rejection(outcome, amount) is None,
    ensures
        ctx.position_after(outcome, amount).wf(),
{
    let position = ctx.opened_position();
    if ctx.bet@.is_blank() {
        lemma_no_stakes_total(ctx.market.outcomes@.len());
    }
    lemma_stake_total_update(
        position.outcomes,
        outcome as int,
        ctx.position_after(outcome, amount).outcomes[outcome as int],
    );
}

/// Stakes `amount` on `outcome` of an active market for the bettor.
///
/// Either the bet is refused, with the first reason that applies, and nothing
/// changes; or the stake moves from the bettor to the market's vault, joins
/// the bettor's position and the outcome's pool, and the odds of every
/// outcome are recomputed.
pub fn place_bet(ctx: &mut PlaceBet, outcome: u8, amount: u64) -> (r: Result<
    BetPlacedEvent,
    PredictionMarketError,
>)
    ensures
        match r {
            Ok(event) => {
                &&& old(ctx).rejection(outcome, amount) is None
                &&& old(ctx).placed(*final(ctx), outcome, amount)
                &&& event == (BetPlacedEvent {
                    market: old(ctx).market.key,
                    bettor: old(ctx).bettor,
                    outcome,
                    amount,
                    odds: odds_at_bet(old(ctx).total_pool(), old(ctx).opposing_pool(outcome)),
                    timestamp: old(ctx).unix_timestamp,
                    total_market_volume: (old(ctx).market.total_volume + amount) as u64,
                })
            },
            Err(e) => {
                &&& old(ctx).rejection(outcome, amount) == Some(e)
                &&& *final(ctx) == *old(ctx)
            },
        },
        market_step(old(ctx).market@, final(ctx).market@),
        old(ctx).market@.wf() ==> final(ctx).market@.wf(),
        r is Ok && (old(ctx).bet@.is_blank() || old(ctx).bet@.wf()) ==> final(ctx).bet@.wf(),
{
    let now = ctx.unix_timestamp;
    if ctx.market.status != MarketStatus::Active {
        return Err(PredictionMarketError::MarketNotActive);
    }
    if now >= ctx.market.end_time {
        return Err(PredictionMarketError::MarketExpired);
    }
    let index = outcome as usize;
    if index >= ctx.market.outcomes.len() {
        return Err(PredictionMarketError::InvalidOutcome);
    }
    if amount == 0 {
        return Err(PredictionMarketError::InvalidBetAmount);
    }
    if amount < ctx.market.min_bet_amount {
        return Err(PredictionMarketError::BetBelowMinimum);
    }
    if amount > ctx.market.max_bet_amount {
        return Err(PredictionMarketError::BetAboveMaximum);
    }
    if ctx.bettor.is_default() {
        return Err(PredictionMarketError::InvalidAuthority);
    }
    let blank = ctx.bet.owner.is_default();
    if !blank && !(ctx.bet.owner.same_as(&ctx.bettor) && ctx.bet.market.same_as(&ctx.market.key)
        && ctx.bet.outcomes.len() == ctx.market.outcomes.len()) {
        return Err(PredictionMarketError::InvalidPosition);
    }
    if !blank && ctx.bet.claimed {
        return Err(PredictionMarketError::AlreadyClaimed);
    }
    let total = ctx.market.total_pool();
    let entry = ctx.market.outcomes[index];
    proof {
        lemma_pool_total_member(ctx.market.outcomes@, index as int);
    }
    if total > u64::MAX as u128 {
        return Err(PredictionMarketError::ArithmeticOverflow);
    }
    let opposing: u64 = (total - entry.total_amount as u128) as u64;
    proof {
        lemma_mul_le(amount as nat, total as nat, u64::MAX as nat, u64::MAX as nat);
        assert(u64::MAX * u64::MAX < u128::MAX) by (nonlinear_arith);
    }
    let payout: u128 = if opposing > 0 {
        match mul_div_wide(amount as u128, total, opposing as u128) {
            Ok(payout) => payout,
            Err(e) => {
                return Err(e);
            },
        }
    } else {
        (amount as u128) * 2
    };
    if payout > ctx.market.max_payout_per_bet as u128 {
        return Err(PredictionMarketError::PayoutTooHigh);
    }
    if ctx.bettor_token_account.amount < amount {
        return Err(PredictionMarketError::InsufficientTokenBalance);
    }
    let staked: u64 = if blank {
        0
    } else {
        ctx.bet.outcomes[index].amount
    };
    let staked_total: u64 = if blank {
        0
    } else {
        ctx.bet.total_amount
    };
    if ctx.market_vault.amount > u64::MAX - amount || staked > u64::MAX - amount || staked_total
        > u64::MAX - amount || entry.total_amount > u64::MAX - amount || entry.bet_count
        == u64::MAX || ctx.market.total_volume > u64::MAX - amount || ctx.market.total_bets
        == u64::MAX {
        return Err(PredictionMarketError::ArithmeticOverflow);
    }
    assert(old(ctx).rejection(outcome, amount) is None);
    let odds: u64 = if opposing > 0 {
        ratio_bps(total, opposing)
    } else {
        UNOPPOSED_ODDS_BPS
    };

    let moved = transfer(&mut ctx.bettor_token_account, &mut ctx.market_vault, amount);
    assert(moved is Ok);

    if blank {
        ctx.bet = Position {
            owner: ctx.bettor,
            market: ctx.market.key,
            outcomes: zeroed_stakes(ctx.market.outcomes.len()),
            total_amount: 0,
            claimed: false,
            claimed_at: 0,
            created_at: now,
            last_bet_at: now,
        };
    }
    assert(ctx.bet@ == old(ctx).opened_position());
    ctx.bet.outcomes[index] = BetOutcome { amount: staked + amount, odds_at_bet: odds };
    ctx.bet.total_amount = staked_total + amount;
    ctx.bet.last_bet_at = now;

    ctx.market.outcomes[index] = Outcome {
        id: entry.id,
        total_amount: entry.total_amount + amount,
        bet_count: entry.bet_count + 1,
        current_odds: entry.current_odds,
    };
    ctx.market.total_volume = ctx.market.total_volume + amount;
    ctx.market.total_bets = ctx.market.total_bets + 1;
    ctx.market.last_bet_time = now;
    ctx.market.refresh_odds();

    proof {
        if old(ctx).market@.wf() {
            lemma_bet_keeps_market_wf(*old(ctx), outcome, amount);
        }
        if old(ctx).bet@.is_blank() || old(ctx).bet@.wf() {
            lemma_bet_keeps_position_wf(*old(ctx), outcome, amount);
        }
    }
    Ok(
        BetPlacedEvent {
            market: ctx.market.key,
            bettor: ctx.bettor,
            outcome,
            amount,
            odds,
            timestamp: now,
            total_market_volume: ctx.market.total_volume,
        },
    )
}

} // verus!
