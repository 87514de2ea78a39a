use vstd::prelude::*;
use crate::address::Address;
use crate::error::PredictionMarketError;
use crate::ledger::{burn, transfer, Mint, TokenAccount};
use crate::math::{lemma_div_bounds, lemma_mul_le, mul_div, mul_div_floor, BPS_DENOMINATOR};
use crate::state::{liquidity_booked, market_step, reserves_backed, LiquidityPool, LiquidityPosition, Market, MarketStatus, MarketView};

verus! {

/// Everything a withdrawal from the liquidity pool reads or changes.
#[derive(Clone, Debug, PartialEq, Eq)]
pub struct RemoveLiquidity {
    pub market: Market,
    pub liquidity_pool: LiquidityPool,
    pub liquidity_position: LiquidityPosition,
    pub liquidity_provider: Address,
    pub outcome_a_vault: TokenAccount,
    pub outcome_b_vault: TokenAccount,
    pub provider_outcome_a_account: TokenAccount,
    pub provider_outcome_b_account: TokenAccount,
    pub provider_lp_token_account: TokenAccount,
    pub lp_token_mint: Mint,
    /// The time at which the withdrawal is made.
    pub unix_timestamp: i64,
}

/// What a withdrawal reports back.
#[derive(Clone, Copy, Debug, PartialEq, Eq)]
pub struct LiquidityRemovedEvent {
    pub market: Address,
    pub liquidity_provider: Address,
    pub lp_tokens_burned: u64,
    /// What reached the provider from the first reserve, after the fee.
    pub outcome_a_withdrawn: u64,
    /// What reached the provider from the second reserve, after the fee.
    pub outcome_b_withdrawn: u64,
    pub fee_amount: u64,
    pub remaining_lp_tokens: u64,
    pub pool_total_liquidity: u64,
    pub timestamp: i64,
}

/// The part of `reserve` that `lp` of `supply` shares stand for, rounded down.
pub open spec fn withdrawal_share(reserve: nat, lp: nat, supply: nat) -> nat {
    mul_div_floor(reserve, lp, supply)
}

/// The fee on a withdrawal of `gross`: charged while the market is active,
/// nothing once it is resolved.
pub open spec fn withdrawal_fee(gross: nat, fee_rate_bps: nat, status: MarketStatus) -> nat {
    if status == MarketStatus::Active {
        mul_div_floor(gross, fee_rate_bps, BPS_DENOMINATOR as nat)
    } else {
        0
    }
}

/// A share of a reserve never exceeds the reserve.
pub proof fn lemma_share_within_reserve(reserve: nat, lp: nat, supply: nat)
    requires
        0 < supply,
        lp <= supply,
    ensures
        withdrawal_share(reserve, lp, supply) <= reserve,
{
    lemma_div_bounds(reserve * lp, supply);
    assert(withdrawal_share(reserve, lp, supply) <= reserve) by (nonlinear_arith)
        requires
            0 < supply,
            lp <= supply,
            (reserve * lp / supply) * supply <= reserve * lp,
            withdrawal_share(reserve, lp, supply) == reserve * lp / supply,
    ;
}

impl RemoveLiquidity {
    pub open spec fn gross_a(self, lp: u64) -> nat {
        withdrawal_share(
            self.liquidity_pool.outcome_a_reserve as nat,
            lp as nat,
            self.liquidity_pool.total_lp_tokens as nat,
        )
    }

    pub open spec fn gross_b(self, lp: u64) -> nat {
        withdrawal_share(
            self.liquidity_pool.outcome_b_reserve as nat,
            lp as nat,
            self.liquidity_pool.total_lp_tokens as nat,
        )
    }

    pub open spec fn fee_a(self, lp: u64) -> nat {
        withdrawal_fee(
            self.gross_a(lp),
            self.liquidity_pool.fee_rate_bps as nat,
            self.market.status,
        )
    }

    pub open spec fn fee_b(self, lp: u64) -> nat {
        withdrawal_fee(
            self.gross_b(lp),
            self.liquidity_pool.fee_rate_bps as nat,
            self.market.status,
        )
    }

    /// What reaches the provider from the first reserve.
    pub open spec fn net_a(self, lp: u64) -> int {
        self.gross_a(lp) - self.fee_a(lp)
    }

    /// What reaches the provider from the second reserve.
    pub open spec fn net_b(self, lp: u64) -> int {
        self.gross_b(lp) - self.fee_b(lp)
    }

    /// Whether the withdrawal leaves the position without shares.
    pub open spec fn empties(self, lp: u64) -> bool {
        self.liquidity_position.lp_tokens == lp
    }

    /// Whether a vault or the provider's share account holds too little.
    pub open spec fn underfunded(self, lp: u64) -> bool {
        ||| self.outcome_a_vault.amount < self.net_a(lp)
        ||| self.outcome_b_vault.amount < self.net_b(lp)
        ||| self.provider_lp_token_account.amount < lp
    }

    /// Whether the withdrawal would take a balance or a counter over its range.
    pub open spec fn overflows(self, lp: u64) -> bool {
        ||| self.provider_outcome_a_account.amount + self.net_a(lp) > u64::MAX
        ||| self.provider_outcome_b_account.amount + self.net_b(lp) > u64::MAX
        ||| self.liquidity_pool.total_fees_collected + self.fee_a(lp) + self.fee_b(lp) > u64::MAX
    }

    /// Whether the withdrawal would take a counter below zero.
    pub open spec fn underflows(self, lp: u64) -> bool {
        ||| self.lp_token_mint.supply < lp
        ||| self.market.total_liquidity < self.gross_a(lp) + self.gross_b(lp)
        ||| (self.empties(lp) && self.liquidity_pool.active_providers == 0)
    }

    /// Why the withdrawal is refused, if it is; the checks in their order.
    pub open spec fn rejection(self, lp: u64, min_out: u64) -> Option<PredictionMarketError> {
        let pool = self.liquidity_pool;
        let position = self.liquidity_position;
        if self.market.status != MarketStatus::Active && self.market.status
            != MarketStatus::Resolved {
            Some(PredictionMarketError::MarketNotActive)
        } else if position.owner != self.liquidity_provider || position.market
            != self.market.key {
            Some(PredictionMarketError::InvalidPosition)
        } else if lp == 0 {
            Some(PredictionMarketError::InvalidAmount)
        } else if lp > position.lp_tokens {
            Some(PredictionMarketError::InsufficientLpTokens)
        } else if pool.total_lp_tokens == 0 {
            Some(PredictionMarketError::EmptyPool)
        } else if lp > pool.total_lp_tokens {
            Some(PredictionMarketError::ArithmeticUnderflow)
        } else if self.gross_a(lp) + self.gross_b(lp) == 0 {
            Some(PredictionMarketError::InvalidAmount)
        } else if self.fee_a(lp) > self.gross_a(lp) || self.fee_b(lp) > self.gross_b(lp) {
            Some(PredictionMarketError::ArithmeticUnderflow)
        } else if self.net_a(lp) + self.net_b(lp) < min_out {
            Some(PredictionMarketError::SlippageExceeded)
        } else if self.underfunded(lp) {
            Some(PredictionMarketError::InsufficientTokenBalance)
        } else if self.overflows(lp) {
            Some(PredictionMarketError::ArithmeticOverflow)
        } else if self.underflows(lp) {
            Some(PredictionMarketError::ArithmeticUnderflow)
        } else {
            None
        }
    }

    /// The pool after an accepted withdrawal: the reserves give up the gross
    /// amounts, the fee is booked, the shares are gone.
    pub open spec fn pool_after(self, lp: u64) -> LiquidityPool {
        let pool = self.liquidity_pool;
        LiquidityPool {
            outcome_a_reserve: (pool.outcome_a_reserve - self.gross_a(lp)) as u64,
            outcome_b_reserve: (pool.outcome_b_reserve - self.gross_b(lp)) as u64,
            total_lp_tokens: (pool.total_lp_tokens - lp) as u64,
            k_constant: ((pool.outcome_a_reserve - self.gross_a(lp)) * (pool.outcome_b_reserve
                - self.gross_b(lp))) as u128,
            total_fees_collected: (pool.total_fees_collected + self.fee_a(lp) + self.fee_b(
                lp,
            )) as u64,
            active_providers: if self.empties(lp) {
                (pool.active_providers - 1) as u32
            } else {
                pool.active_providers
            },
            last_update_time: self.unix_timestamp,
            ..pool
        }
    }

    /// The provider's position after an accepted withdrawal; it is kept, and
    /// marked inactive once it holds no shares.
    pub open spec fn position_after(self, lp: u64) -> LiquidityPosition {
        let position = self.liquidity_position;
        LiquidityPosition {
            lp_tokens: (position.lp_tokens - lp) as u64,
            last_update_time: self.unix_timestamp,
            is_active: if self.empties(lp) {
                false
            } else {
                position.is_active
            },
            ..position
        }
    }

    /// Whether `post` is this context after an accepted withdrawal of `lp` shares.
    pub open spec fn withdrawn(self, post: RemoveLiquidity, lp: u64) -> bool {
        &&& post.market@ == (MarketView {
            total_liquidity: (self.market.total_liquidity - self.gross_a(lp) - self.gross_b(
                lp,
            )) as u64,
            ..self.market@
        })
        &&& post.liquidity_pool == self.pool_after(lp)
        &&& post.liquidity_position == self.position_after(lp)
        &&& post.liquidity_provider == self.liquidity_provider
        &&& post.outcome_a_vault.amount == self.outcome_a_vault.amount - self.net_a(lp)
        &&& post.outcome_b_vault.amount == self.outcome_b_vault.amount - self.net_b(lp)
        &&& post.provider_outcome_a_account.amount == self.provider_outcome_a_account.amount
            + self.net_a(lp)
        &&& post.provider_outcome_b_account.amount == self.provider_outcome_b_account.amount
            + self.net_b(lp)
        &&& post.provider_lp_token_account.amount == self.provider_lp_token_account.amount - lp
        &&& post.lp_token_mint.supply == self.lp_token_mint.supply - lp
        &&& post.unix_timestamp == self.unix_timestamp
    }

    /// Redeems `lp_tokens_to_burn` shares for their part of each reserve.
    ///
    /// The part is `reserve * shares / supply`, rounded down, of each reserve.
    /// While the market is active the pool's fee is taken from it and booked
    /// to the pool; from a resolved market the part is paid in full. Either
    /// the withdrawal is refused, with the first reason that applies, and
    /// nothing changes; or all of it happens.
    pub fn remove_liquidity(&mut self, lp_tokens_to_burn: u64, min_out: u64) -> (r: Result<
        LiquidityRemovedEvent,
        PredictionMarketError,
    >)
        ensures
            match r {
                Ok(event) => {
                    &&& old(self).rejection(lp_tokens_to_burn, min_out) is None
                    &&& old(self).withdrawn(*final(self), lp_tokens_to_burn)
                    &&& event == (LiquidityRemovedEvent {
                        market: old(self).market.key,
                        liquidity_provider: old(self).liquidity_provider,
                        lp_tokens_burned: lp_tokens_to_burn,
                        outcome_a_withdrawn: old(self).net_a(lp_tokens_to_burn) as u64,
                        outcome_b_withdrawn: old(self).net_b(lp_tokens_to_burn) as u64,
                        fee_amount: (old(self).fee_a(lp_tokens_to_burn) + old(self).fee_b(
                            lp_tokens_to_burn,
                        )) as u64,
                        remaining_lp_tokens: (old(self).liquidity_position.lp_tokens
                            - lp_tokens_to_burn) as u64,
                        pool_total_liquidity: final(self).market.total_liquidity,
                        timestamp: old(self).unix_timestamp,
                    })
                },
                Err(e) => {
                    &&& old(self).rejection(lp_tokens_to_burn, min_out) == Some(e)
                    &&& *final(self) == *old(self)
                },
            },
            market_step(old(self).market@, final(self).market@),
            old(self).market@.wf() ==> final(self).market@.wf(),
            liquidity_booked(old(self).market@, old(self).liquidity_pool) ==> liquidity_booked(
                final(self).market@,
                final(self).liquidity_pool,
            ),
            reserves_backed(
                old(self).liquidity_pool,
                old(self).outcome_a_vault.amount,
                old(self).outcome_b_vault.amount,
            ) ==> reserves_backed(
                final(self).liquidity_pool,
                final(self).outcome_a_vault.amount,
                final(self).outcome_b_vault.amount,
            ),
            old(self).liquidity_pool.wf() ==> final(self).liquidity_pool.wf(),
    {
        let lp = lp_tokens_to_burn;
        let now = self.unix_timestamp;
        let pool = self.liquidity_pool;
        let position = self.liquidity_position;
        let active = self.market.status == MarketStatus::Active;
        if !active && self.market.status != MarketStatus::Resolved {
            return Err(PredictionMarketError::MarketNotActive);
        }
        if !(position.owner.same_as(&self.liquidity_provider) && position.market.same_as(
            &self.market.key,
        )) {
            return Err(PredictionMarketError::InvalidPosition);
        }
        if lp == 0 {
            return Err(PredictionMarketError::InvalidAmount);
        }
        if lp > position.lp_tokens {
            return Err(PredictionMarketError::InsufficientLpTokens);
        }
        let supply = pool.total_lp_tokens;
        if supply == 0 {
            return Err(PredictionMarketError::EmptyPool);
        }
        if lp > supply {
            return Err(PredictionMarketError::ArithmeticUnderflow);
        }
        proof {
            lemma_share_within_reserve(pool.outcome_a_reserve as nat, lp as nat, supply as nat);
            lemma_share_within_reserve(pool.outcome_b_reserve as nat, lp as nat, supply as nat);
        }
        let gross_a = match mul_div(pool.outcome_a_reserve, lp, supply) {
            Ok(part) => part,
            Err(e) => {
                return Err(e);
            },
        };
        let gross_b = match mul_div(pool.outcome_b_reserve, lp, supply) {
            Ok(part) => part,
            Err(e) => {
                return Err(e);
            },
        };
        if gross_a == 0 && gross_b == 0 {
            return Err(PredictionMarketError::InvalidAmount);
        }
        let rate: u64 = if active {
            pool.fee_rate_bps as u64
        } else {
            0
        };
        let fee_a = match mul_div(gross_a, rate, BPS_DENOMINATOR) {
            Ok(fee) => fee,
            Err(_) => {
                return Err(PredictionMarketError::ArithmeticUnderflow);
            },
        };
        let fee_b = match mul_div(gross_b, rate, BPS_DENOMINATOR) {
            Ok(fee) => fee,
            Err(_) => {
                return Err(PredictionMarketError::ArithmeticUnderflow);
            },
        };
        assert(fee_a == old(self).fee_a(lp) && fee_b == old(self).fee_b(lp)) by {
            assert(gross_a as nat * 0 == 0 && gross_b as nat * 0 == 0);
        }
        if fee_a > gross_a || fee_b > gross_b {
            return Err(PredictionMarketError::ArithmeticUnderflow);
        }
        let net_a = gross_a - fee_a;
        let net_b = gross_b - fee_b;
        if (net_a as u128) + (net_b as u128) < min_out as u128 {
            return Err(PredictionMarketError::SlippageExceeded);
        }
        if self.outcome_a_vault.amount < net_a || self.outcome_b_vault.amount < net_b
            || self.provider_lp_token_account.amount < lp {
            return Err(PredictionMarketError::InsufficientTokenBalance);
        }
        if self.provider_outcome_a_account.amount > u64::MAX - net_a
            || self.provider_outcome_b_account.amount > u64::MAX - net_b
            || pool.total_fees_collected > u64::MAX - fee_a || pool.total_fees_collected + fee_a
            > u64::MAX - fee_b {
            return Err(PredictionMarketError::ArithmeticOverflow);
        }
        let empties = position.lp_tokens == lp;
        if self.lp_token_mint.supply < lp || self.market.total_liquidity < gross_a
            || self.market.total_liquidity - gross_a < gross_b || (empties
            && pool.active_providers == 0) {
            return Err(PredictionMarketError::ArithmeticUnderflow);
        }
        assert(old(self).rejection(lp, min_out) is None);

        let paid_a = transfer(&mut self.outcome_a_vault, &mut self.provider_outcome_a_account, net_a);
        let paid_b = transfer(&mut self.outcome_b_vault, &mut self.provider_outcome_b_account, net_b);
        let burned = burn(&mut self.lp_token_mint, &mut self.provider_lp_token_account, lp);
        assert(paid_a is Ok && paid_b is Ok && burned is Ok);

        self.liquidity_position = LiquidityPosition {
            owner: position.owner,
            market: position.market,
            lp_tokens: position.lp_tokens - lp,
            outcome_a_contributed: position.outcome_a_contributed,
            outcome_b_contributed: position.outcome_b_contributed,
            last_update_time: now,
            is_active: if empties {
                false
            } else {
                position.is_active
            },
        };
        let reserve_a = pool.outcome_a_reserve - gross_a;
        let reserve_b = pool.outcome_b_reserve - gross_b;
        proof {
            lemma_mul_le(reserve_a as nat, reserve_b as nat, u64::MAX as nat, u64::MAX as nat);
        }
        self.liquidity_pool = LiquidityPool {
            market: pool.market,
            outcome_a_reserve: reserve_a,
            outcome_b_reserve: reserve_b,
            total_lp_tokens: supply - lp,
            k_constant: (reserve_a as u128) * (reserve_b as u128),
            fee_rate_bps: pool.fee_rate_bps,
            total_fees_collected: pool.total_fees_collected + fee_a + fee_b,
            active_providers: if empties {
                pool.active_providers - 1
            } else {
                pool.active_providers
            },
            last_update_time: now,
        };
        self.market.total_liquidity = self.market.total_liquidity - gross_a - gross_b;

        Ok(
            LiquidityRemovedEvent {
                market: self.market.key,
                liquidity_provider: self.liquidity_provider,
                lp_tokens_burned: lp,
                outcome_a_withdrawn: net_a,
                outcome_b_withdrawn: net_b,
                fee_amount: fee_a + fee_b,
                remaining_lp_tokens: position.lp_tokens - lp,
                pool_total_liquidity: self.market.total_liquidity,
                timestamp: now,
            },
        )
    }
}

} // verus!
