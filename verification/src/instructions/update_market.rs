use vstd::prelude::*;
use crate::address::Address;
use crate::error::PredictionMarketError;
use crate::ledger::{transfer, TokenAccount};
use crate::state::{market_step, Market, MarketStatus, MarketView, Position, PositionView};

verus! {

/// Why a market cannot be paused by `signer`, if it cannot.
pub open spec fn pause_rejection(market: MarketView, signer: Address) -> Option<
    PredictionMarketError,
> {
    if signer != market.authority {
        Some(PredictionMarketError::Unauthorized)
    } else if market.status != MarketStatus::Active {
        Some(PredictionMarketError::MarketNotActive)
    } else {
        None
    }
}

/// Why a market cannot be resumed by `signer`, if it cannot.
pub open spec fn unpause_rejection(market: MarketView, signer: Address) -> Option<
    PredictionMarketError,
> {
    if signer != market.authority {
        Some(PredictionMarketError::Unauthorized)
    } else if market.status != MarketStatus::Paused {
        Some(PredictionMarketError::MarketNotActive)
    } else {
        None
    }
}

/// Why a market cannot be cancelled by `signer` at time `now`, if it cannot.
pub open spec fn cancel_rejection(market: MarketView, signer: Address, now: i64) -> Option<
    PredictionMarketError,
> {
    if signer != market.creator && signer != market.oracle {
        Some(PredictionMarketError::InvalidAuthority)
    } else if market.status != MarketStatus::Active {
        Some(PredictionMarketError::MarketNotActive)
    } else if now >= market.end_time {
        Some(PredictionMarketError::MarketExpired)
    } else {
        None
    }
}

impl Market {
    /// Suspends an active market; only its authority may.
    pub fn pause(&mut self, signer: &Address) -> (r: Result<(), PredictionMarketError>)
        ensures
            match r {
                Ok(_) => {
                    &&& pause_rejection(old(self)@, *signer) is None
                    &&& final(self)@ == (MarketView { status: MarketStatus::Paused, ..old(self)@ })
                },
                Err(e) => {
                    &&& pause_rejection(old(self)@, *signer) == Some(e)
                    &&& *final(self) == *old(self)
                },
            },
            market_step(old(self)@, final(self)@),
            old(self)@.wf() ==> final(self)@.wf(),
    {
        if !signer.same_as(&self.authority) {
            return Err(PredictionMarketError::Unauthorized);
        }
        if self.status != MarketStatus::Active {
            return Err(PredictionMarketError::MarketNotActive);
        }
        self.status = MarketStatus::Paused;
        Ok(())
    }

    /// Resumes a paused market; only its authority may.
    pub fn unpause(&mut self, signer: &Address) -> (r: Result<(), PredictionMarketError>)
        ensures
            match r {
                Ok(_) => {
                    &&& unpause_rejection(old(self)@, *signer) is None
                    &&& final(self)@ == (MarketView { status: MarketStatus::Active, ..old(self)@ })
                },
                Err(e) => {
                    &&& unpause_rejection(old(self)@, *signer) == Some(e)
                    &&& *final(self) == *old(self)
                },
            },
            market_step(old(self)@, final(self)@),
            old(self)@.wf() ==> final(self)@.wf(),
    {
        if !signer.same_as(&self.authority) {
            return Err(PredictionMarketError::Unauthorized);
        }
        if self.status != MarketStatus::Paused {
            return Err(PredictionMarketError::MarketNotActive);
        }
        self.status = MarketStatus::Active;
        Ok(())
    }

    /// Cancels an active market before its deadline; only its creator or its
    /// oracle may. A cancelled market refunds its stakes.
    pub fn cancel(&mut self, signer: &Address, now: i64) -> (r: Result<
        (),
        PredictionMarketError,
    >)
        ensures
            match r {
                Ok(_) => {
                    &&& cancel_rejection(old(self)@, *signer, now) is None
                    &&& final(self)@ == (MarketView {
                        status: MarketStatus::Cancelled,
                        ..old(self)@
                    })
                },
                Err(e) => {
                    &&& cancel_rejection(old(self)@, *signer, now) == Some(e)
                    &&& *final(self) == *old(self)
                },
            },
            market_step(old(self)@, final(self)@),
            old(self)@.wf() ==> final(self)@.wf(),
    {
        if !signer.same_as(&self.creator) && !signer.same_as(&self.oracle) {
            return Err(PredictionMarketError::InvalidAuthority);
        }
        if self.status != MarketStatus::Active {
            return Err(PredictionMarketError::MarketNotActive);
        }
        if now >= self.end_time {
            return Err(PredictionMarketError::MarketExpired);
        }
        self.status = MarketStatus::Cancelled;
        Ok(())
    }
}

/// Everything a refund reads or changes.
#[derive(Clone, Debug, PartialEq, Eq)]
pub struct RefundBet {
    pub market: Market,
    pub position: Position,
    pub market_vault: TokenAccount,
    pub bettor_token_account: TokenAccount,
    /// The identity that asks for the refund.
    pub bettor: Address,
    /// The time at which the refund is made.
    pub unix_timestamp: i64,
}

impl RefundBet {
    /// Why the refund is refused, if it is; the checks in their order.
    pub open spec fn rejection(self) -> Option<PredictionMarketError> {
        if self.market.status != MarketStatus::Cancelled {
            Some(PredictionMarketError::MarketNotCancelled)
        } else if self.position.claimed {
            Some(PredictionMarketError::AlreadyClaimed)
        } else if self.position.owner != self.bettor || self.position.market != self.market.key {
            Some(PredictionMarketError::InvalidPosition)
        } else if self.market_vault.amount < self.position.total_amount {
            Some(PredictionMarketError::InsufficientTokenBalance)
        } else if self.bettor_token_account.amount + self.position.total_amount > u64::MAX {
            Some(PredictionMarketError::ArithmeticOverflow)
        } else {
            None
        }
    }

    /// Whether `post` is this context after an accepted refund.
    pub open spec fn refunded(self, post: RefundBet) -> bool {
        &&& post.market == self.market
        &&& post.position@ == (PositionView {
            claimed: true,
            claimed_at: self.unix_timestamp,
            ..self.position@
        })
        &&& post.market_vault.amount == self.market_vault.amount - self.position.total_amount
        &&& post.bettor_token_account.amount == self.bettor_token_account.amount
            + self.position.total_amount
        &&& post.bettor == self.bettor
        &&& post.unix_timestamp == self.unix_timestamp
    }

    /// Returns all stakes of a position in a cancelled market, once.
    pub fn refund_bet(&mut self) -> (r: Result<u64, PredictionMarketError>)
        ensures
            match r {
                Ok(amount) => {
                    &&& old(self).rejection() is None
                    &&& old(self).refunded(*final(self))
                    &&& amount == old(self).position.total_amount
                },
                Err(e) => {
                    &&& old(self).rejection() == Some(e)
                    &&& *final(self) == *old(self)
                },
            },
    {
        if self.market.status != MarketStatus::Cancelled {
            return Err(PredictionMarketError::MarketNotCancelled);
        }
        if self.position.claimed {
            return Err(PredictionMarketError::AlreadyClaimed);
        }
        if !(self.position.owner.same_as(&self.bettor) && self.position.market.same_as(
            &self.market.key,
        )) {
            return Err(PredictionMarketError::InvalidPosition);
        }
        let amount = self.position.total_amount;
        if self.market_vault.amount < amount {
            return Err(PredictionMarketError::InsufficientTokenBalance);
        }
        if self.bettor_token_account.amount > u64::MAX - amount {
            return Err(PredictionMarketError::ArithmeticOverflow);
        }
        let paid = transfer(&mut self.market_vault, &mut self.bettor_token_account, amount);
        assert(paid is Ok);
        self.position.claimed = true;
        self.position.claimed_at = self.unix_timestamp;
        Ok(amount)
    }
}

} // verus!
