use vstd::prelude::*;
use crate::address::Address;
use crate::error::PredictionMarketError;
use crate::ledger::{transfer, TokenAccount};
use crate::math::{checked_sub, mul_div, BPS_DENOMINATOR};
use crate::state::{market_step, payout_ratio, protocol_fee, 
    Market, MarketResolution, MarketResolutionView, MarketStatus, MarketView,
    MAX_RESOLUTION_DATA,
};

verus! {

/// Everything the resolution of a market reads or changes.
#[derive(Clone, Debug, PartialEq, Eq)]
pub struct ResolveMarket {
    pub market: Market,
    pub market_resolution: MarketResolution,
    /// The identity that asks for the resolution.
    pub oracle: Address,
    /// The vault that holds the stakes.
    pub vault: TokenAccount,
    pub protocol_fee_account: TokenAccount,
    /// The time at which the market is resolved.
    pub unix_timestamp: i64,
}

/// What a resolution reports back.
#[derive(Clone, Copy, Debug, PartialEq, Eq)]
pub struct MarketResolvedEvent {
    pub market: Address,
    pub winning_outcome: u8,
    pub total_pool: u64,
    pub winning_pool: u64,
    pub payout_ratio: u64,
    pub protocol_fee: u64,
    pub resolution_timestamp: i64,
}

impl ResolveMarket {
    /// All stakes of the market.
    pub open spec fn total_pool(self) -> nat {
        self.market.total_volume as nat
    }

    /// The stakes on `outcome`.
    pub open spec fn winning_pool(self, outcome: u8) -> nat {
        self.market.outcomes@[outcome as int].total_amount as nat
    }

    /// The fee that the resolution takes out of the vault.
    pub open spec fn fee(self) -> nat {
        protocol_fee(self.total_pool(), self.market.platform_fee_bps as nat)
    }

    /// What is left for the winners.
    pub open spec fn remaining_pool(self) -> int {
        self.total_pool() - self.fee()
    }

    /// The payout ratio that the resolution fixes.
    pub open spec fn ratio(self, outcome: u8) -> nat {
        payout_ratio(self.remaining_pool() as nat, self.winning_pool(outcome))
    }

    /// Why the resolution is refused, if it is; the checks in their order.
    pub open spec fn rejection(self, outcome: u8, oracle_data: Seq<u8>) -> Option<
        PredictionMarketError,
    > {
        if self.oracle != self.market.oracle {
            Some(PredictionMarketError::UnauthorizedResolver)
        } else if self.market.status != MarketStatus::Active || self.market_resolution.resolved {
            Some(PredictionMarketError::MarketNotActive)
        } else if self.unix_timestamp < self.market.end_time {
            Some(PredictionMarketError::MarketNotExpired)
        } else if outcome >= self.market.outcomes@.len() {
            Some(PredictionMarketError::InvalidOutcome)
        } else if oracle_data.len() > MAX_RESOLUTION_DATA {
            Some(PredictionMarketError::InvalidResolutionData)
        } else if self.fee() > self.total_pool() {
            Some(PredictionMarketError::ArithmeticUnderflow)
        } else if self.ratio(outcome) > u64::MAX {
            Some(PredictionMarketError::ArithmeticOverflow)
        } else if self.vault.amount < self.fee() {
            Some(PredictionMarketError::InsufficientTokenBalance)
        } else if self.protocol_fee_account.amount + self.fee() > u64::MAX {
            Some(PredictionMarketError::ArithmeticOverflow)
        } else {
            None
        }
    }

    /// The market after an accepted resolution.
    pub open spec fn market_after(self, outcome: u8) -> MarketView {
        MarketView {
            status: MarketStatus::Resolved,
            winning_outcome: Some(outcome),
            resolution_timestamp: self.unix_timestamp,
            payout_ratio: self.ratio(outcome) as u64,
            ..self.market@
        }
    }

    /// The resolution record after an accepted resolution.
    pub open spec fn resolution_after(self, outcome: u8, oracle_data: Seq<u8>) -> MarketResolutionView {
        MarketResolutionView {
            resolved: true,
            resolution_time: self.unix_timestamp,
            winning_outcome: Some(outcome),
            resolver: Some(self.oracle),
            resolution_data: oracle_data,
            dispute_period_end: None,
            payout_ratio: self.ratio(outcome) as u64,
            ..self.market_resolution@
        }
    }

    /// Whether `post` is this context after an accepted resolution.
    pub open spec fn resolved(self, post: ResolveMarket, outcome: u8, oracle_data: Seq<u8>) -> bool {
        &&& post.market@ == self.market_after(outcome)
        &&& post.market_resolution@ == self.resolution_after(outcome, oracle_data)
        &&& post.oracle == self.oracle
        &&& post.vault.amount == self.vault.amount - self.fee()
        &&& post.protocol_fee_account.amount == self.protocol_fee_account.amount + self.fee()
        &&& post.unix_timestamp == self.unix_timestamp
    }

    /// Resolves the market to `outcome` on the word of its oracle.
    ///
    /// Either the resolution is refused, with the first reason that applies,
    /// and nothing changes; or the market becomes resolved for good, the
    /// protocol's fee leaves the vault, and the payout ratio is fixed from
    /// what is left and the stakes on the winning outcome.
    pub fn resolve_market(&mut self, outcome: u8, oracle_data: Vec<u8>) -> (r: Result<
        MarketResolvedEvent,
        PredictionMarketError,
    >)
        ensures
            match r {
                Ok(event) => {
                    &&& old(self).rejection(outcome, oracle_data@) is None
                    &&& old(self).resolved(*final(self), outcome, oracle_data@)
                    &&& event == (MarketResolvedEvent {
                        market: old(self).market.key,
                        winning_outcome: outcome,
                        total_pool: old(self).market.total_volume,
                        winning_pool: old(self).winning_pool(outcome) as u64,
                        payout_ratio: old(self).ratio(outcome) as u64,
                        protocol_fee: old(self).fee() as u64,
                        resolution_timestamp: old(self).unix_timestamp,
                    })
                },
                Err(e) => {
                    &&& old(self).rejection(outcome, oracle_data@) == Some(e)
                    &&& *final(self) == *old(self)
                },
            },
            market_step(old(self).market@, final(self).market@),
            old(self).market@.wf() ==> final(self).market@.wf(),
            old(self).market_resolution.resolved ==> r is Err,
    {
        let now = self.unix_timestamp;
        if !self.oracle.same_as(&self.market.oracle) {
            return Err(PredictionMarketError::UnauthorizedResolver);
        }
        if self.market.status != MarketStatus::Active || self.market_resolution.resolved {
            return Err(PredictionMarketError::MarketNotActive);
        }
        if now < self.market.end_time {
            return Err(PredictionMarketError::MarketNotExpired);
        }
        let index = outcome as usize;
        if index >= self.market.outcomes.len() {
            return Err(PredictionMarketError::InvalidOutcome);
        }
        if oracle_data.len() > MAX_RESOLUTION_DATA {
            return Err(PredictionMarketError::InvalidResolutionData);
        }
        let total_pool = self.market.total_volume;
        let winning_pool = self.market.outcomes[index].total_amount;
        let fee = match mul_div(total_pool, self.market.platform_fee_bps as u64, BPS_DENOMINATOR) {
            Ok(fee) => fee,
            Err(_) => {
                return Err(PredictionMarketError::ArithmeticUnderflow);
            },
        };
        let remaining = match checked_sub(total_pool, fee) {
            Ok(remaining) => remaining,
            Err(e) => {
                return Err(e);
            },
        };
        let ratio = if winning_pool > 0 {
            match mul_div(remaining, BPS_DENOMINATOR, winning_pool) {
                Ok(ratio) => ratio,
                Err(e) => {
                    return Err(e);
                },
            }
        } else {
            0
        };
        if self.vault.amount < fee {
            return Err(PredictionMarketError::InsufficientTokenBalance);
        }
        if self.protocol_fee_account.amount > u64::MAX - fee {
            return Err(PredictionMarketError::ArithmeticOverflow);
        }
        let paid = transfer(&mut self.vault, &mut self.protocol_fee_account, fee);
        assert(paid is Ok);

        self.market.status = MarketStatus::Resolved;
        self.market.winning_outcome = Some(outcome);
        self.market.resolution_timestamp = now;
        self.market.payout_ratio = ratio;

        self.market_resolution.resolved = true;
        self.market_resolution.resolution_time = now;
        self.market_resolution.winning_outcome = Some(outcome);
        self.market_resolution.resolver = Some(self.oracle);
        self.market_resolution.resolution_data = oracle_data;
        self.market_resolution.dispute_period_end = None;
        self.market_resolution.payout_ratio = ratio;

        Ok(
            MarketResolvedEvent {
                market: self.market.key,
                winning_outcome: outcome,
                total_pool,
                winning_pool,
                payout_ratio: ratio,
                protocol_fee: fee,
                resolution_timestamp: now,
            },
        )
    }
}

} // verus!
