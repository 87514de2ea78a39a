use vstd::prelude::*;
use crate::address::Address;
use crate::error::PredictionMarketError;
use crate::ledger::{mint_to, transfer, Mint, TokenAccount};
use crate::math::{floor_sqrt, isqrt, lemma_mul_le, mul_div_floor, mul_div_wide};
use crate::state::{liquidity_booked, market_step, reserves_backed, LiquidityPool, LiquidityPosition, Market, MarketStatus, MarketView};

verus! {

/// Fewest shares the first deposit into a pool is given.
pub const MINIMUM_LIQUIDITY: u64 = 1000;

/// Everything a deposit into the liquidity pool reads or changes.
#[derive(Clone, Debug, PartialEq, Eq)]
pub struct AddLiquidity {
    pub market: Market,
    pub liquidity_pool: LiquidityPool,
    pub user_liquidity_position: LiquidityPosition,
    pub liquidity_provider: Address,
    pub provider_outcome_a_account: TokenAccount,
    pub provider_outcome_b_account: TokenAccount,
    pub provider_lp_token_account: TokenAccount,
    pub lp_token_mint: Mint,
    pub outcome_a_vault: TokenAccount,
    pub outcome_b_vault: TokenAccount,
    /// The time at which the deposit is made.
    pub unix_timestamp: i64,
}

/// What a deposit reports back.
#[derive(Clone, Copy, Debug, PartialEq, Eq)]
pub struct LiquidityAddedEvent {
    pub market: Address,
    pub liquidity_provider: Address,
    pub outcome_a_amount: u64,
    pub outcome_b_amount: u64,
    pub lp_tokens_minted: u64,
    pub timestamp: i64,
}

/// The shares issued for a deposit of `a` and `b`.
///
/// Into a pool without shares: the geometric mean of the two amounts, but at
/// least [`MINIMUM_LIQUIDITY`]. Otherwise: the smaller of the two ratios of
/// deposit to reserve, applied to the shares outstanding, so that the scarcer
/// side binds.
pub open spec fn lp_tokens_for_deposit(
    supply: nat,
    reserve_a: nat,
    reserve_b: nat,
    a: nat,
    b: nat,
) -> nat {
    if supply == 0 {
        if floor_sqrt(a * b) < MINIMUM_LIQUIDITY {
            MINIMUM_LIQUIDITY as nat
        } else {
            floor_sqrt(a * b)
        }
    } else {
        let from_a = mul_div_floor(a, supply, reserve_a);
        let from_b = mul_div_floor(b, supply, reserve_b);
        if from_a <= from_b {
            from_a
        } else {
            from_b
        }
    }
}

impl AddLiquidity {
    /// The shares that a deposit of `a` and `b` is owed by this pool.
    pub open spec fn minted(self, a: u64, b: u64) -> nat {
        lp_tokens_for_deposit(
            self.liquidity_pool.total_lp_tokens as nat,
            self.liquidity_pool.outcome_a_reserve as nat,
            self.liquidity_pool.outcome_b_reserve as nat,
            a as nat,
            b as nat,
        )
    }

    /// Whether the position handed in may receive the provider's shares.
    pub open spec fn position_usable(self) -> bool {
        self.user_liquidity_position.is_blank() || (self.user_liquidity_position.owner
            == self.liquidity_provider && self.user_liquidity_position.market == self.market.key)
    }

    /// Whether the deposit turns an inactive position into an active one.
    pub open spec fn activates(self) -> bool {
        self.user_liquidity_position.is_blank() || !self.user_liquidity_position.is_active
    }

    /// The position as it stands before the deposit: a blank one is opened
    /// for the provider first.
    pub open spec fn opened_position(self) -> LiquidityPosition {
        if self.user_liquidity_position.is_blank() {
            LiquidityPosition {
                owner: self.liquidity_provider,
                market: self.market.key,
                lp_tokens: 0,
                outcome_a_contributed: 0,
                outcome_b_contributed: 0,
                last_update_time: self.unix_timestamp,
                is_active: false,
            }
        } else {
            self.user_liquidity_position
        }
    }

    /// Whether the deposit would take a balance or a counter out of its range.
    pub open spec fn overflows(self, a: u64, b: u64) -> bool {
        let pool = self.liquidity_pool;
        let position = self.opened_position();
        let minted = self.minted(a, b);
        ||| self.outcome_a_vault.amount + a > u64::MAX
        ||| self.outcome_b_vault.amount + b > u64::MAX
        ||| self.lp_token_mint.supply + minted > u64::MAX
        ||| self.provider_lp_token_account.amount + minted > u64::MAX
        ||| position.lp_tokens + minted > u64::MAX
        ||| position.outcome_a_contributed + a > u64::MAX
        ||| position.outcome_b_contributed + b > u64::MAX
        ||| pool.total_lp_tokens + minted > u64::MAX
        ||| pool.outcome_a_reserve + a > u64::MAX
        ||| pool.outcome_b_reserve + b > u64::MAX
        ||| (self.activates() && pool.active_providers + 1 > u32::MAX)
        ||| self.market.total_liquidity + a + b > u64::MAX
    }

    /// Why the deposit is refused, if it is; the checks in their order.
    pub open spec fn rejection(self, a: u64, b: u64, min_lp_tokens: u64) -> Option<
        PredictionMarketError,
    > {
        let pool = self.liquidity_pool;
        let minted = self.minted(a, b);
        if self.market.status != MarketStatus::Active {
            Some(PredictionMarketError::MarketNotActive)
        } else if a == 0 || b == 0 {
            Some(PredictionMarketError::InvalidAmount)
        } else if self.unix_timestamp >= self.market.end_time {
            Some(PredictionMarketError::MarketExpired)
        } else if self.liquidity_provider.is_zero() {
            Some(PredictionMarketError::InvalidAuthority)
        } else if !self.position_usable() {
            Some(PredictionMarketError::InvalidPosition)
        } else if pool.total_lp_tokens != 0 && (pool.outcome_a_reserve == 0
            || pool.outcome_b_reserve == 0) {
            Some(PredictionMarketError::DivisionByZero)
        } else if minted < min_lp_tokens {
            Some(PredictionMarketError::SlippageExceeded)
        } else if self.provider_outcome_a_account.amount < a
            || self.provider_outcome_b_account.amount < b {
            Some(PredictionMarketError::InsufficientTokenBalance)
        } else if self.overflows(a, b) {
            Some(PredictionMarketError::ArithmeticOverflow)
        } else {
            None
        }
    }

    /// The pool after an accepted deposit.
    pub open spec fn pool_after(self, a: u64, b: u64) -> LiquidityPool {
        let pool = self.liquidity_pool;
        LiquidityPool {
            outcome_a_reserve: (pool.outcome_a_reserve + a) as u64,
            outcome_b_reserve: (pool.outcome_b_reserve + b) as u64,
            total_lp_tokens: (pool.total_lp_tokens + self.minted(a, b)) as u64,
            k_constant: ((pool.outcome_a_reserve + a) * (pool.outcome_b_reserve + b)) as u128,
            active_providers: if self.activates() {
                (pool.active_providers + 1) as u32
            } else {
                pool.active_providers
            },
            last_update_time: self.unix_timestamp,
            ..pool
        }
    }

    /// The provider's position after an accepted deposit.
    pub open spec fn position_after(self, a: u64, b: u64) -> LiquidityPosition {
        let position = self.opened_position();
        LiquidityPosition {
            lp_tokens: (position.lp_tokens + self.minted(a, b)) as u64,
            outcome_a_contributed: (position.outcome_a_contributed + a) as u64,
            outcome_b_contributed: (position.outcome_b_contributed + b) as u64,
            last_update_time: self.unix_timestamp,
            is_active: true,
            ..position
        }
    }

    /// Whether `post` is this context after an accepted deposit of `a` and `b`.
    ///
    /// Both amounts go to the vaults in full, also where one side alone
    /// decided how many shares were issued: the excess is not refunded.
    pub open spec fn deposited(self, post: AddLiquidity, a: u64, b: u64) -> bool {
        &&& post.market@ == (MarketView {
            total_liquidity: (self.market.total_liquidity + a + b) as u64,
            ..self.market@
        })
        &&& post.liquidity_pool == self.pool_after(a, b)
        &&& post.user_liquidity_position == self.position_after(a, b)
        &&& post.liquidity_provider == self.liquidity_provider
        &&& post.provider_outcome_a_account.amount == self.provider_outcome_a_account.amount - a
        &&& post.provider_outcome_b_account.amount == self.provider_outcome_b_account.amount - b
        &&& post.provider_lp_token_account.amount == self.provider_lp_token_account.amount
            + self.minted(a, b)
        &&& post.lp_token_mint.supply == self.lp_token_mint.supply + self.minted(a, b)
        &&& post.outcome_a_vault.amount == self.outcome_a_vault.amount + a
        &&& post.outcome_b_vault.amount == self.outcome_b_vault.amount + b
        &&& post.unix_timestamp == self.unix_timestamp
    }
}

/// Computes the shares owed for a deposit; `None` where a reserve that must
/// divide is empty.
fn shares_for_deposit(pool: &LiquidityPool, a: u64, b: u64) -> (minted: Option<u128>)
    ensures
        minted is None <==> (pool.total_lp_tokens != 0 && (pool.outcome_a_reserve == 0
            || pool.outcome_b_reserve == 0)),
        minted matches Some(m) ==> m == lp_tokens_for_deposit(
            pool.total_lp_tokens as nat,
            pool.outcome_a_reserve as nat,
            pool.outcome_b_reserve as nat,
            a as nat,
            b as nat,
        ),
{
    let supply = pool.total_lp_tokens;
    proof {
        lemma_mul_le(a as nat, b as nat, u64::MAX as nat, u64::MAX as nat);
        lemma_mul_le(a as nat, supply as nat, u64::MAX as nat, u64::MAX as nat);
        lemma_mul_le(b as nat, supply as nat, u64::MAX as nat, u64::MAX as nat);
        assert(u64::MAX * u64::MAX < u128::MAX) by (nonlinear_arith);
    }
    if supply == 0 {
        let root = isqrt((a as u128) * (b as u128));
        if root < MINIMUM_LIQUIDITY {
            Some(MINIMUM_LIQUIDITY as u128)
        } else {
            Some(root as u128)
        }
    } else {
        let from_a = mul_div_wide(a as u128, supply as u128, pool.outcome_a_reserve as u128);
        let from_b = mul_div_wide(b as u128, supply as u128, pool.outcome_b_reserve as u128);
        match (from_a, from_b) {
            (Ok(from_a), Ok(from_b)) => if from_a <= from_b {
                Some(from_a)
            } else {
                Some(from_b)
            },
            _ => None,
        }
    }
}

/// Deposits `outcome_a_amount` and `outcome_b_amount` into the pool of an
/// active market and issues shares for them to the provider.
///
/// Either the deposit is refused, with the first reason that applies, and
/// nothing changes; or both amounts move into the vaults, the shares are
/// issued, and position, pool and market are updated together.
pub fn add_liquidity(
    ctx: &mut AddLiquidity,
    outcome_a_amount: u64,
    outcome_b_amount: u64,
    min_lp_tokens: u64,
) -> (r: Result<LiquidityAddedEvent, PredictionMarketError>)
    ensures
        match r {
            Ok(event) => {
                &&& old(ctx).rejection(outcome_a_amount, outcome_b_amount, min_lp_tokens) is None
                &&& old(ctx).deposited(*final(ctx), outcome_a_amount, outcome_b_amount)
                &&& event == (LiquidityAddedEvent {
                    market: old(ctx).market.key,
                    liquidity_provider: old(ctx).liquidity_provider,
                    outcome_a_amount,
                    outcome_b_amount,
                    lp_tokens_minted: old(ctx).minted(outcome_a_amount, outcome_b_amount) as u64,
                    timestamp: old(ctx).unix_timestamp,
                })
            },
            Err(e) => {
                &&& old(ctx).rejection(outcome_a_amount, outcome_b_amount, min_lp_tokens) == Some(e)
                &&& *final(ctx) == *old(ctx)
            },
        },
        market_step(old(ctx).market@, final(ctx).market@),
        old(ctx).market@.wf() ==> final(ctx).market@.wf(),
        liquidity_booked(old(ctx).market@, old(ctx).liquidity_pool) ==> liquidity_booked(
            final(ctx).market@,
            final(ctx).liquidity_pool,
        ),
        reserves_backed(
            old(ctx).liquidity_pool,
            old(ctx).outcome_a_vault.amount,
            old(ctx).outcome_b_vault.amount,
        ) ==> reserves_backed(
            final(ctx).liquidity_pool,
            final(ctx).outcome_a_vault.amount,
            final(ctx).outcome_b_vault.amount,
        ),
        old(ctx).liquidity_pool.wf() ==> final(ctx).liquidity_pool.wf(),
{
    let a = outcome_a_amount;
    let b = outcome_b_amount;
    let now = ctx.unix_timestamp;
    if ctx.market.status != MarketStatus::Active {
        return Err(PredictionMarketError::MarketNotActive);
    }
    if a == 0 || b == 0 {
        return Err(PredictionMarketError::InvalidAmount);
    }
    if now >= ctx.market.end_time {
        return Err(PredictionMarketError::MarketExpired);
    }
    if ctx.liquidity_provider.is_default() {
        return Err(PredictionMarketError::InvalidAuthority);
    }
    let blank = ctx.user_liquidity_position.is_default_owner();
    if !blank && !(ctx.user_liquidity_position.owner.same_as(&ctx.liquidity_provider)
        && ctx.user_liquidity_position.market.same_as(&ctx.market.key)) {
        return Err(PredictionMarketError::InvalidPosition);
    }
    let minted_wide = match shares_for_deposit(&ctx.liquidity_pool, a, b) {
        None => {
            return Err(PredictionMarketError::DivisionByZero);
        },
        Some(m) => m,
    };
    if minted_wide < min_lp_tokens as u128 {
        return Err(PredictionMarketError::SlippageExceeded);
    }
    if ctx.provider_outcome_a_account.amount < a || ctx.provider_outcome_b_account.amount < b {
        return Err(PredictionMarketError::InsufficientTokenBalance);
    }
    let position = if blank {
        LiquidityPosition {
            owner: ctx.liquidity_provider,
            market: ctx.market.key,
            lp_tokens: 0,
            outcome_a_contributed: 0,
            outcome_b_contributed: 0,
            last_update_time: now,
            is_active: false,
        }
    } else {
        ctx.user_liquidity_position
    };
    let activates = blank || !position.is_active;
    let pool = ctx.liquidity_pool;
    if minted_wide > u64::MAX as u128 {
        return Err(PredictionMarketError::ArithmeticOverflow);
    }
    let minted = minted_wide as u64;
    if ctx.outcome_a_vault.amount > u64::MAX - a || ctx.outcome_b_vault.amount > u64::MAX - b
        || ctx.lp_token_mint.supply > u64::MAX - minted || ctx.provider_lp_token_account.amount
        > u64::MAX - minted || position.lp_tokens > u64::MAX - minted
        || position.outcome_a_contributed > u64::MAX - a || position.outcome_b_contributed
        > u64::MAX - b || pool.total_lp_tokens > u64::MAX - minted || pool.outcome_a_reserve
        > u64::MAX - a || pool.outcome_b_reserve > u64::MAX - b || (activates
        && pool.active_providers == u32::MAX) || ctx.market.total_liquidity > u64::MAX - a
        || ctx.market.total_liquidity + a > u64::MAX - b {
        return Err(PredictionMarketError::ArithmeticOverflow);
    }
    assert(old(ctx).rejection(a, b, min_lp_tokens) is None);

    let moved_a = transfer(&mut ctx.provider_outcome_a_account, &mut ctx.outcome_a_vault, a);
    let moved_b = transfer(&mut ctx.provider_outcome_b_account, &mut ctx.outcome_b_vault, b);
    let issued = mint_to(&mut ctx.lp_token_mint, &mut ctx.provider_lp_token_account, minted);
    assert(moved_a is Ok && moved_b is Ok && issued is Ok);

    ctx.user_liquidity_position = LiquidityPosition {
        owner: position.owner,
        market: position.market,
        lp_tokens: position.lp_tokens + minted,
        outcome_a_contributed: position.outcome_a_contributed + a,
        outcome_b_contributed: position.outcome_b_contributed + b,
        last_update_time: now,
        is_active: true,
    };
    let reserve_a = pool.outcome_a_reserve + a;
    let reserve_b = pool.outcome_b_reserve + b;
    proof {
        lemma_mul_le(reserve_a as nat, reserve_b as nat, u64::MAX as nat, u64::MAX as nat);
        assert(u64::MAX * u64::MAX < u128::MAX) by (nonlinear_arith);
    }
    ctx.liquidity_pool = LiquidityPool {
        market: pool.market,
        outcome_a_reserve: reserve_a,
        outcome_b_reserve: reserve_b,
        total_lp_tokens: pool.total_lp_tokens + minted,
        k_constant: (reserve_a as u128) * (reserve_b as u128),
        fee_rate_bps: pool.fee_rate_bps,
        total_fees_collected: pool.total_fees_collected,
        active_providers: if activates {
            pool.active_providers + 1
        } else {
            pool.active_providers
        },
        last_update_time: now,
    };
    ctx.market.total_liquidity = ctx.market.total_liquidity + a + b;

    Ok(
        LiquidityAddedEvent {
            market: ctx.market.key,
            liquidity_provider: ctx.liquidity_provider,
            outcome_a_amount: a,
            outcome_b_amount: b,
            lp_tokens_minted: minted,
            timestamp: now,
        },
    )
}

} // verus!
