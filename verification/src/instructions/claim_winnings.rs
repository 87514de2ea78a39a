use vstd::prelude::*;
use crate::address::Address;
use crate::error::PredictionMarketError;
use crate::ledger::{transfer, TokenAccount};
use crate::math::{mul_div, mul_div_floor, BPS_DENOMINATOR};
use crate::state::{market_step, Market, MarketStatus, MarketView, Position, PositionView};

verus! {

/// Everything a claim reads or changes.
#[derive(Clone, Debug, PartialEq, Eq)]
pub struct ClaimWinnings {
    pub market: Market,
    pub position: Position,
    pub market_vault: TokenAccount,
    pub user_token_account: TokenAccount,
    /// The identity that makes the claim.
    pub user: Address,
    /// The time at which the claim is made.
    pub unix_timestamp: i64,
}

/// What a claim reports back.
#[derive(Clone, Copy, Debug, PartialEq, Eq)]
pub struct WinningsClaimedEvent {
    pub market: Address,
    pub user: Address,
    /// What was paid out; zero for a position that did not win.
    pub amount: u64,
    pub outcome: u8,
    pub timestamp: i64,
}

/// What a stake on the winning outcome is paid at the ratio fixed at
/// resolution, rounded down. The protocol's fee was taken at resolution and
/// is not taken again.
pub open spec fn claim_amount(stake: nat, payout_ratio_bps: nat) -> nat {
    mul_div_floor(stake, payout_ratio_bps, BPS_DENOMINATOR as nat)
}

/// Whether a market counts as resolved for claims.
pub open spec fn is_resolved(market: MarketView) -> bool {
    market.status == MarketStatus::Resolved && market.winning_outcome is Some
}

/// What `position` stakes on the outcome that won.
pub open spec fn winning_stake(market: MarketView, position: PositionView) -> nat {
    position.stake_on(market.winning_outcome->0 as int)
}

/// What a claim on `position` pays out of a resolved market.
pub open spec fn payout_of(market: MarketView, position: PositionView) -> nat {
    claim_amount(winning_stake(market, position), market.payout_ratio as nat)
}

impl ClaimWinnings {
    /// What the position stakes on the outcome that won.
    pub open spec fn stake(self) -> nat {
        winning_stake(self.market@, self.position@)
    }

    /// What the claim pays.
    pub open spec fn winnings(self) -> nat {
        payout_of(self.market@, self.position@)
    }

    /// Why the claim is refused, if it is; the checks in their order.
    pub open spec fn rejection(self) -> Option<PredictionMarketError> {
        if !is_resolved(self.market@) {
            Some(PredictionMarketError::MarketNotResolved)
        } else if self.position.claimed {
            Some(PredictionMarketError::AlreadyClaimed)
        } else if self.position.owner != self.user || self.position.market != self.market.key {
            Some(PredictionMarketError::InvalidPosition)
        } else if self.winnings() > u64::MAX {
            Some(PredictionMarketError::ArithmeticOverflow)
        } else if self.stake() > 0 && self.winnings() == 0 {
            Some(PredictionMarketError::NoWinnings)
        } else if self.market_vault.amount < self.winnings() {
            Some(PredictionMarketError::InsufficientTokenBalance)
        } else if self.user_token_account.amount + self.winnings() > u64::MAX
            || self.market.total_claimed + self.winnings() > u64::MAX {
            Some(PredictionMarketError::ArithmeticOverflow)
        } else {
            None
        }
    }

    /// Whether `post` is this context after an accepted claim: the position
    /// is marked claimed whether it won or not, and what it won has moved.
    pub open spec fn claimed(self, post: ClaimWinnings) -> bool {
        &&& post.market@ == (MarketView {
            total_claimed: (self.market.total_claimed + self.winnings()) as u64,
            ..self.market@
        })
        &&& post.position@ == (PositionView {
            claimed: true,
            claimed_at: self.unix_timestamp,
            ..self.position@
        })
        &&& post.market_vault.amount == self.market_vault.amount - self.winnings()
        &&& post.user_token_account.amount == self.user_token_account.amount + self.winnings()
        &&& post.user == self.user
        &&& post.unix_timestamp == self.unix_timestamp
    }

    /// What the position stakes on the outcome that won; nothing where it has
    /// no entry for it.
    fn staked_on_winner(&self, winner: u8) -> (stake: u64)
        ensures
            stake == self.position@.stake_on(winner as int),
    {
        let index = winner as usize;
        if index < self.position.outcomes.len() {
            self.position.outcomes[index].amount
        } else {
            0
        }
    }

    /// What the position has won: its stake on the winning outcome at the
    /// market's payout ratio; zero for a position without such a stake.
    pub fn calculate_winnings(&self) -> (r: Result<u64, PredictionMarketError>)
        ensures
            r == (if !is_resolved(self.market@) {
                Err::<u64, PredictionMarketError>(PredictionMarketError::MarketNotResolved)
            } else if self.winnings() > u64::MAX {
                Err(PredictionMarketError::ArithmeticOverflow)
            } else {
                Ok(self.winnings() as u64)
            }),
    {
        if self.market.status != MarketStatus::Resolved {
            return Err(PredictionMarketError::MarketNotResolved);
        }
        let winner = match self.market.winning_outcome {
            Some(outcome) => outcome,
            None => {
                return Err(PredictionMarketError::MarketNotResolved);
            },
        };
        let stake = self.staked_on_winner(winner);
        mul_div(stake, self.market.payout_ratio, BPS_DENOMINATOR)
    }

    /// Settles the position against the resolved market, once.
    ///
    /// Either the claim is refused, with the first reason that applies, and
    /// nothing changes; or the position is marked claimed and what it won
    /// moves from the vault to the claimant. A position without a stake on
    /// the winning outcome is marked claimed and paid nothing.
    pub fn claim_winnings(&mut self) -> (r: Result<WinningsClaimedEvent, PredictionMarketError>)
        ensures
            match r {
                Ok(event) => {
                    &&& old(self).rejection() is None
                    &&& old(self).claimed(*final(self))
                    &&& event == (WinningsClaimedEvent {
                        market: old(self).market.key,
                        user: old(self).user,
                        amount: old(self).winnings() as u64,
                        outcome: old(self).market.winning_outcome->0,
                        timestamp: old(self).unix_timestamp,
                    })
                },
                Err(e) => {
                    &&& old(self).rejection() == Some(e)
                    &&& *final(self) == *old(self)
                },
            },
            market_step(old(self).market@, final(self).market@),
            old(self).market@.wf() ==> final(self).market@.wf(),
            old(self).position@.wf() ==> final(self).position@.wf(),
            old(self).position.claimed ==> r is Err,
            r is Ok ==> final(self).position.claimed,
    {
        let now = self.unix_timestamp;
        if self.market.status != MarketStatus::Resolved {
            return Err(PredictionMarketError::MarketNotResolved);
        }
        let winner = match self.market.winning_outcome {
            Some(outcome) => outcome,
            None => {
                return Err(PredictionMarketError::MarketNotResolved);
            },
        };
        if self.position.claimed {
            return Err(PredictionMarketError::AlreadyClaimed);
        }
        if !(self.position.owner.same_as(&self.user) && self.position.market.same_as(
            &self.market.key,
        )) {
            return Err(PredictionMarketError::InvalidPosition);
        }
        let winnings = match self.calculate_winnings() {
            Ok(w) => w,
            Err(e) => {
                return Err(e);
            },
        };
        let stake = self.staked_on_winner(winner);
        if stake > 0 && winnings == 0 {
            return Err(PredictionMarketError::NoWinnings);
        }
        if self.market_vault.amount < winnings {
            return Err(PredictionMarketError::InsufficientTokenBalance);
        }
        if self.user_token_account.amount > u64::MAX - winnings || self.market.total_claimed
            > u64::MAX - winnings {
            return Err(PredictionMarketError::ArithmeticOverflow);
        }
        let paid = transfer(&mut self.market_vault, &mut self.user_token_account, winnings);
        assert(paid is Ok);

        self.position.claimed = true;
        self.position.claimed_at = now;
        self.market.total_claimed = self.market.total_claimed + winnings;

        Ok(
            WinningsClaimedEvent {
                market: self.market.key,
                user: self.user,
                amount: winnings,
                outcome: winner,
                timestamp: now,
            },
        )
    }
}

/// No double payout: once a claim on a position has been accepted, every
/// further claim on that position is refused as already claimed, whatever
/// else the claimant hands in, and moves nothing.
pub proof fn lemma_no_double_payout(first: ClaimWinnings, after: ClaimWinnings, second: ClaimWinnings)
    requires
        first.rejection() is None,
        first.claimed(after),
        second.position@ == after.position@,
        is_resolved(second.market@),
    ensures
        second.rejection() == Some(PredictionMarketError::AlreadyClaimed),
{
}

} // verus!
