use vstd::prelude::*;
use crate::address::Address;
use crate::error::PredictionMarketError;
use crate::ledger::{transfer, TokenAccount};
use crate::math::lemma_mul_le;
use crate::state::{
    byte_len, liquidity_booked, reserves_backed, MAX_CATEGORY_LENGTH, MAX_DESCRIPTION_LENGTH, MAX_MARKET_ID_LENGTH,
    MAX_RESOLUTION_SOURCE_LENGTH, MAX_TITLE_LENGTH, LiquidityPool, Market, MarketResolution, MarketResolutionView, MarketStatus, MarketView,
    Outcome, EVEN_ODDS_BPS, MAX_CREATOR_FEE_BPS, MAX_PLATFORM_FEE_BPS,
};

verus! {

broadcast use vstd::slice::group_slice_axioms;

/// Longest time from creation to the resolution deadline: 365 days, in seconds.
pub const MAX_MARKET_DURATION: i64 = 31536000;

/// Least liquidity a creator has to bring.
pub const MIN_INITIAL_LIQUIDITY: u64 = 1000;

/// The fee a new pool charges on withdrawals, in basis points.
pub const DEFAULT_POOL_FEE_BPS: u16 = 30;

/// Everything the creation of a market reads or fills.
#[derive(Clone, Debug, PartialEq, Eq)]
pub struct CreateMarket {
    /// Where the market is written; unused until then.
    pub market: Market,
    /// Where the market's pool is written.
    pub liquidity_pool: LiquidityPool,
    /// Where the market's resolution record is written.
    pub market_resolution: MarketResolution,
    pub creator_token_account: TokenAccount,
    pub outcome_a_vault: TokenAccount,
    pub outcome_b_vault: TokenAccount,
    /// The identity the new market goes by.
    pub market_key: Address,
    pub creator: Address,
    /// The one identity that may resolve the market.
    pub oracle: Address,
    /// The identity that may pause the market.
    pub authority: Address,
    pub min_bet_amount: u64,
    pub max_bet_amount: u64,
    pub max_payout_per_bet: u64,
    /// The time at which the market is created.
    pub unix_timestamp: i64,
}

/// What the creation of a market reports back.
#[derive(Clone, Debug, PartialEq, Eq)]
pub struct MarketCreatedEvent {
    pub market: Address,
    pub market_id: String,
    pub title: String,
    pub creator: Address,
    pub end_time: i64,
    pub initial_liquidity: u64,
    pub category: String,
    pub created_at: i64,
}

/// Number of bytes that `text` takes when stored.
pub fn stored_len(text: &String) -> (n: usize)
    ensures
        n == byte_len(text@),
{
    text.as_str().as_bytes().len()
}

/// The two outcomes of a new market, Yes and No, without stakes.
pub open spec fn fresh_outcomes() -> Seq<Outcome> {
    seq![
        Outcome { id: 0, total_amount: 0, bet_count: 0, current_odds: EVEN_ODDS_BPS },
        Outcome { id: 1, total_amount: 0, bet_count: 0, current_odds: EVEN_ODDS_BPS },
    ]
}

impl CreateMarket {
    /// Whether the parameters of a new market are within bounds.
    pub open spec fn configuration_valid(
        self,
        market_id: Seq<char>,
        title: Seq<char>,
        description: Seq<char>,
        category: Seq<char>,
        end_time: i64,
        resolution_source: Seq<char>,
        initial_liquidity: u64,
        creator_fee_bps: u16,
        platform_fee_bps: u16,
    ) -> bool {
        &&& byte_len(market_id) <= MAX_MARKET_ID_LENGTH
        &&& byte_len(title) <= MAX_TITLE_LENGTH
        &&& byte_len(description) <= MAX_DESCRIPTION_LENGTH
        &&& byte_len(category) <= MAX_CATEGORY_LENGTH
        &&& byte_len(resolution_source) <= MAX_RESOLUTION_SOURCE_LENGTH
        &&& end_time > self.unix_timestamp
        &&& end_time <= self.unix_timestamp + MAX_MARKET_DURATION
        &&& initial_liquidity >= MIN_INITIAL_LIQUIDITY
        &&& creator_fee_bps <= MAX_CREATOR_FEE_BPS
        &&& platform_fee_bps <= MAX_PLATFORM_FEE_BPS
        &&& 0 < self.min_bet_amount <= self.max_bet_amount
        &&& self.market.creator.is_zero()
    }

    /// Why the creation is refused, if it is; the checks in their order.
    pub open spec fn rejection(
        self,
        market_id: Seq<char>,
        title: Seq<char>,
        description: Seq<char>,
        category: Seq<char>,
        end_time: i64,
        resolution_source: Seq<char>,
        initial_liquidity: u64,
        creator_fee_bps: u16,
        platform_fee_bps: u16,
    ) -> Option<PredictionMarketError> {
        let half = initial_liquidity / 2;
        if !self.configuration_valid(
            market_id,
            title,
            description,
            category,
            end_time,
            resolution_source,
            initial_liquidity,
            creator_fee_bps,
            platform_fee_bps,
        ) {
            Some(PredictionMarketError::InvalidConfiguration)
        } else if self.creator.is_zero() {
            Some(PredictionMarketError::InvalidAuthority)
        } else if self.creator_token_account.amount < half + half {
            Some(PredictionMarketError::InsufficientTokenBalance)
        } else if self.outcome_a_vault.amount + half > u64::MAX || self.outcome_b_vault.amount
            + half > u64::MAX {
            Some(PredictionMarketError::ArithmeticOverflow)
        } else {
            None
        }
    }

    /// The market that an accepted creation writes: active, all counters at
    /// zero, two outcomes, the creator's liquidity booked.
    pub open spec fn market_created(
        self,
        market_id: Seq<char>,
        title: Seq<char>,
        description: Seq<char>,
        category: Seq<char>,
        end_time: i64,
        resolution_source: Seq<char>,
        initial_liquidity: u64,
        creator_fee_bps: u16,
        platform_fee_bps: u16,
    ) -> MarketView {
        MarketView {
            key: self.market_key,
            market_id,
            title,
            description,
            category,
            resolution_source,
            creator: self.creator,
            oracle: self.oracle,
            authority: self.authority,
            created_at: self.unix_timestamp,
            end_time,
            status: MarketStatus::Active,
            outcomes: fresh_outcomes(),
            creator_fee_bps,
            platform_fee_bps,
            min_bet_amount: self.min_bet_amount,
            max_bet_amount: self.max_bet_amount,
            max_payout_per_bet: self.max_payout_per_bet,
            total_volume: 0,
            total_bets: 0,
            total_liquidity: (initial_liquidity / 2 + initial_liquidity / 2) as u64,
            total_claimed: 0,
            last_bet_time: 0,
            winning_outcome: None,
            resolution_timestamp: 0,
            payout_ratio: 0,
        }
    }

    /// The pool that an accepted creation writes: the creator's liquidity
    /// split evenly over the two reserves, no shares issued for it.
    pub open spec fn pool_created(self, initial_liquidity: u64) -> LiquidityPool {
        let half = initial_liquidity / 2;
        LiquidityPool {
            market: self.market_key,
            outcome_a_reserve: half,
            outcome_b_reserve: half,
            total_lp_tokens: 0,
            k_constant: (half * half) as u128,
            fee_rate_bps: DEFAULT_POOL_FEE_BPS,
            total_fees_collected: 0,
            active_providers: 0,
            last_update_time: self.unix_timestamp,
        }
    }

    /// The resolution record that an accepted creation writes.
    pub open spec fn resolution_created(self) -> MarketResolutionView {
        MarketResolutionView {
            market: self.market_key,
            resolved: false,
            resolution_time: 0,
            winning_outcome: None,
            resolver: None,
            resolution_data: Seq::empty(),
            dispute_period_end: None,
            payout_ratio: 0,
        }
    }
}

/// A market as written by an accepted creation meets the market invariants.
pub proof fn lemma_created_market_wf(
    ctx: CreateMarket,
    market_id: Seq<char>,
    title: Seq<char>,
    description: Seq<char>,
    category: Seq<char>,
    end_time: i64,
    resolution_source: Seq<char>,
    initial_liquidity: u64,
    creator_fee_bps: u16,
    platform_fee_bps: u16,
)
    requires
        ctx.configuration_valid(
            market_id,
            title,
            description,
            category,
            end_time,
            resolution_source,
            initial_liquidity,
            creator_fee_bps,
            platform_fee_bps,
        ),
    ensures
        ctx.market_created(
            market_id,
            title,
            description,
            category,
            end_time,
            resolution_source,
            initial_liquidity,
            creator_fee_bps,
            platform_fee_bps,
        ).wf(),
{
    let outcomes = fresh_outcomes();
    assert(outcomes.drop_last() =~= seq![outcomes[0]]);
    assert(outcomes.drop_last().drop_last() =~= Seq::<Outcome>::empty());
    reveal_with_fuel(crate::state::pool_total, 3);
    assert(crate::state::pool_total(outcomes) == 0);
    assert(crate::state::with_refreshed_odds(outcomes) =~= outcomes);
}

/// Creates a market with the outcomes Yes and No.
///
/// Either a parameter is out of bounds or the creator cannot pay the initial
/// liquidity, and nothing changes; or market, pool and resolution record are
/// written and the liquidity moves, half into each vault. Of an odd amount
/// the last unit stays with the creator.
pub fn handler(
    ctx: &mut CreateMarket,
    market_id: String,
    title: String,
    description: String,
    category: String,
    end_time: i64,
    resolution_source: String,
    initial_liquidity: u64,
    creator_fee_bps: u16,
    platform_fee_bps: u16,
) -> (r: Result<MarketCreatedEvent, PredictionMarketError>)
    ensures
        match r {
            Ok(event) => {
                &&& old(ctx).rejection(
                    market_id@,
                    title@,
                    description@,
                    category@,
                    end_time,
                    resolution_source@,
                    initial_liquidity,
                    creator_fee_bps,
                    platform_fee_bps,
                ) is None
                &&& final(ctx).market@ == old(ctx).market_created(
                    market_id@,
                    title@,
                    description@,
                    category@,
                    end_time,
                    resolution_source@,
                    initial_liquidity,
                    creator_fee_bps,
                    platform_fee_bps,
                )
                &&& final(ctx).market@.wf()
                &&& final(ctx).liquidity_pool == old(ctx).pool_created(initial_liquidity)
                &&& final(ctx).liquidity_pool.wf()
                &&& liquidity_booked(final(ctx).market@, final(ctx).liquidity_pool)
                &&& reserves_backed(
                    final(ctx).liquidity_pool,
                    final(ctx).outcome_a_vault.amount,
                    final(ctx).outcome_b_vault.amount,
                )
                &&& final(ctx).market_resolution@ == old(ctx).resolution_created()
                &&& final(ctx).creator_token_account.amount == old(ctx).creator_token_account.amount
                    - (initial_liquidity / 2 + initial_liquidity / 2)
                &&& final(ctx).outcome_a_vault.amount == old(ctx).outcome_a_vault.amount
                    + initial_liquidity / 2
                &&& final(ctx).outcome_b_vault.amount == old(ctx).outcome_b_vault.amount
                    + initial_liquidity / 2
                &&& final(ctx).market_key == old(ctx).market_key
                &&& final(ctx).creator == old(ctx).creator
                &&& final(ctx).oracle == old(ctx).oracle
                &&& final(ctx).authority == old(ctx).authority
                &&& final(ctx).min_bet_amount == old(ctx).min_bet_amount
                &&& final(ctx).max_bet_amount == old(ctx).max_bet_amount
                &&& final(ctx).max_payout_per_bet == old(ctx).max_payout_per_bet
                &&& final(ctx).unix_timestamp == old(ctx).unix_timestamp
                &&& event.market == old(ctx).market_key
                &&& event.market_id@ == market_id@
                &&& event.title@ == title@
                &&& event.creator == old(ctx).creator
                &&& event.end_time == end_time
                &&& event.initial_liquidity == initial_liquidity
                &&& event.category@ == category@
                &&& event.created_at == old(ctx).unix_timestamp
            },
            Err(e) => {
                &&& old(ctx).rejection(
                    market_id@,
                    title@,
                    description@,
                    category@,
                    end_time,
                    resolution_source@,
                    initial_liquidity,
                    creator_fee_bps,
                    platform_fee_bps,
                ) == Some(e)
                &&& *final(ctx) == *old(ctx)
            },
        },
{
    let now = ctx.unix_timestamp;
    if stored_len(&market_id) > MAX_MARKET_ID_LENGTH || stored_len(&title) > MAX_TITLE_LENGTH
        || stored_len(&description) > MAX_DESCRIPTION_LENGTH || stored_len(&category)
        > MAX_CATEGORY_LENGTH || stored_len(&resolution_source) > MAX_RESOLUTION_SOURCE_LENGTH {
        return Err(PredictionMarketError::InvalidConfiguration);
    }
    if end_time <= now || (end_time as i128) > (now as i128) + (MAX_MARKET_DURATION as i128) {
        return Err(PredictionMarketError::InvalidConfiguration);
    }
    if initial_liquidity < MIN_INITIAL_LIQUIDITY || creator_fee_bps > MAX_CREATOR_FEE_BPS
        || platform_fee_bps > MAX_PLATFORM_FEE_BPS || ctx.min_bet_amount == 0
        || ctx.min_bet_amount > ctx.max_bet_amount || !ctx.market.creator.is_default() {
        return Err(PredictionMarketError::InvalidConfiguration);
    }
    if ctx.creator.is_default() {
        return Err(PredictionMarketError::InvalidAuthority);
    }
    let half = initial_liquidity / 2;
    if ctx.creator_token_account.amount < half + half {
        return Err(PredictionMarketError::InsufficientTokenBalance);
    }
    if ctx.outcome_a_vault.amount > u64::MAX - half || ctx.outcome_b_vault.amount > u64::MAX
        - half {
        return Err(PredictionMarketError::ArithmeticOverflow);
    }
    let paid_a = transfer(&mut ctx.creator_token_account, &mut ctx.outcome_a_vault, half);
    let paid_b = transfer(&mut ctx.creator_token_account, &mut ctx.outcome_b_vault, half);
    assert(paid_a is Ok && paid_b is Ok);

    let event = MarketCreatedEvent {
        market: ctx.market_key,
        market_id: market_id.clone(),
        title: title.clone(),
        creator: ctx.creator,
        end_time,
        initial_liquidity,
        category: category.clone(),
        created_at: now,
    };
    let mut outcomes: Vec<Outcome> = Vec::new();
    outcomes.push(Outcome { id: 0, total_amount: 0, bet_count: 0, current_odds: EVEN_ODDS_BPS });
    outcomes.push(Outcome { id: 1, total_amount: 0, bet_count: 0, current_odds: EVEN_ODDS_BPS });
    assert(outcomes@ =~= fresh_outcomes());
    ctx.market = Market {
        key: ctx.market_key,
        market_id,
        title,
        description,
        category,
        resolution_source,
        creator: ctx.creator,
        oracle: ctx.oracle,
        authority: ctx.authority,
        created_at: now,
        end_time,
        status: MarketStatus::Active,
        outcomes,
        creator_fee_bps,
        platform_fee_bps,
        min_bet_amount: ctx.min_bet_amount,
        max_bet_amount: ctx.max_bet_amount,
        max_payout_per_bet: ctx.max_payout_per_bet,
        total_volume: 0,
        total_bets: 0,
        total_liquidity: half + half,
        total_claimed: 0,
        last_bet_time: 0,
        winning_outcome: None,
        resolution_timestamp: 0,
        payout_ratio: 0,
    };
    proof {
        lemma_mul_le(half as nat, half as nat, u64::MAX as nat, u64::MAX as nat);
        assert(u64::MAX * u64::MAX < u128::MAX) by (nonlinear_arith);
    }
    ctx.liquidity_pool = LiquidityPool {
        market: ctx.market_key,
        outcome_a_reserve: half,
        outcome_b_reserve: half,
        total_lp_tokens: 0,
        k_constant: (half as u128) * (half as u128),
        fee_rate_bps: DEFAULT_POOL_FEE_BPS,
        total_fees_collected: 0,
        active_providers: 0,
        last_update_time: now,
    };
    ctx.market_resolution = MarketResolution {
        market: ctx.market_key,
        resolved: false,
        resolution_time: 0,
        winning_outcome: None,
        resolver: None,
        resolution_data: Vec::new(),
        dispute_period_end: None,
        payout_ratio: 0,
    };
    proof {
        lemma_created_market_wf(
            *old(ctx),
            ctx.market.market_id@,
            ctx.market.title@,
            ctx.market.description@,
            ctx.market.category@,
            end_time,
            ctx.market.resolution_source@,
            initial_liquidity,
            creator_fee_bps,
            platform_fee_bps,
        );
    }
    Ok(event)
}

} // verus!
