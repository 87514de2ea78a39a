use prediction_market::address::Address;
use prediction_market::error::PredictionMarketError;
use prediction_market::instructions::add_liquidity::{
    add_liquidity, AddLiquidity, LiquidityAddedEvent,
};
use prediction_market::instructions::create_market::{handler, CreateMarket};
use prediction_market::instructions::remove_liquidity::{LiquidityRemovedEvent, RemoveLiquidity};
use prediction_market::ledger::{Mint, TokenAccount};
use prediction_market::state::{
    LiquidityPool, LiquidityPosition, Market, MarketResolution, MarketStatus,
};

fn party(tag: u8) -> Address {
    Address::new([tag; 32])
}

fn active_market() -> Market {
    let mut ctx = CreateMarket {
        market: Market::blank(),
        liquidity_pool: LiquidityPool::empty(Address::zero(), 0, 0),
        market_resolution: MarketResolution::blank(),
        creator_token_account: TokenAccount { amount: 10_000 },
        outcome_a_vault: TokenAccount { amount: 0 },
        outcome_b_vault: TokenAccount { amount: 0 },
        market_key: party(9),
        creator: party(1),
        oracle: party(2),
        authority: party(3),
        min_bet_amount: 10,
        max_bet_amount: 1_000_000,
        max_payout_per_bet: 10_000_000,
        unix_timestamp: 1_000,
    };
    handler(
        &mut ctx,
        String::from("id"),
        String::from("title"),
        String::from("description"),
        String::from("category"),
        2_000,
        String::from("source"),
        1_000,
        0,
        0,
    )
    .unwrap();
    let mut market = ctx.market;
    market.total_liquidity = 0;
    market
}

fn deposit_into(pool: LiquidityPool, position: LiquidityPosition, market: Market) -> AddLiquidity {
    AddLiquidity {
        market,
        liquidity_pool: pool,
        user_liquidity_position: position,
        liquidity_provider: party(20),
        provider_outcome_a_account: TokenAccount { amount: 100_000 },
        provider_outcome_b_account: TokenAccount { amount: 100_000 },
        provider_lp_token_account: TokenAccount { amount: position.lp_tokens },
        lp_token_mint: Mint { supply: pool.total_lp_tokens },
        outcome_a_vault: TokenAccount { amount: pool.outcome_a_reserve },
        outcome_b_vault: TokenAccount { amount: pool.outcome_b_reserve },
        unix_timestamp: 1_500,
    }
}

fn withdrawal_from(pool: LiquidityPool, position: LiquidityPosition, market: Market) -> RemoveLiquidity {
    RemoveLiquidity {
        market,
        liquidity_pool: pool,
        liquidity_position: position,
        liquidity_provider: party(20),
        outcome_a_vault: TokenAccount { amount: pool.outcome_a_reserve },
        outcome_b_vault: TokenAccount { amount: pool.outcome_b_reserve },
        provider_outcome_a_account: TokenAccount { amount: 0 },
        provider_outcome_b_account: TokenAccount { amount: 0 },
        provider_lp_token_account: TokenAccount { amount: position.lp_tokens },
        lp_token_mint: Mint { supply: pool.total_lp_tokens },
        unix_timestamp: 1_700,
    }
}

fn funded(a: u64, b: u64, shares: u64) -> (LiquidityPool, LiquidityPosition, Market) {
    let mut ctx = deposit_into(
        LiquidityPool::empty(party(9), 30, 1_000),
        LiquidityPosition::blank(),
        active_market(),
    );
    ctx.provider_outcome_a_account.amount = a;
    ctx.provider_outcome_b_account.amount = b;
    let minted = add_liquidity(&mut ctx, a, b, 0).unwrap().lp_tokens_minted;
    assert_eq!(minted, shares);
    (ctx.liquidity_pool, ctx.user_liquidity_position, ctx.market)
}

#[test]
fn first_deposit_mints_geometric_mean_and_the_next_is_proportional() {
    let mut first = deposit_into(
        LiquidityPool::empty(party(9), 30, 1_000),
        LiquidityPosition::blank(),
        active_market(),
    );
    let event = add_liquidity(&mut first, 10_000, 10_000, 10_000).unwrap();
    assert_eq!(
        event,
        LiquidityAddedEvent {
            market: party(9),
            liquidity_provider: party(20),
            outcome_a_amount: 10_000,
            outcome_b_amount: 10_000,
            lp_tokens_minted: 10_000,
            timestamp: 1_500,
        }
    );
    let pool = first.liquidity_pool;
    assert_eq!(pool.outcome_a_reserve, 10_000);
    assert_eq!(pool.outcome_b_reserve, 10_000);
    assert_eq!(pool.total_lp_tokens, 10_000);
    assert_eq!(pool.k_constant, 100_000_000);
    assert_eq!(pool.active_providers, 1);
    assert_eq!(pool.last_update_time, 1_500);
    let position = first.user_liquidity_position;
    assert_eq!(position.owner, party(20));
    assert_eq!(position.market, party(9));
    assert_eq!(position.lp_tokens, 10_000);
    assert_eq!(position.outcome_a_contributed, 10_000);
    assert_eq!(position.outcome_b_contributed, 10_000);
    assert!(position.is_active);
    assert_eq!(first.provider_outcome_a_account.amount, 90_000);
    assert_eq!(first.provider_outcome_b_account.amount, 90_000);
    assert_eq!(first.outcome_a_vault.amount, 10_000);
    assert_eq!(first.outcome_b_vault.amount, 10_000);
    assert_eq!(first.provider_lp_token_account.amount, 10_000);
    assert_eq!(first.lp_token_mint.supply, 10_000);
    assert_eq!(first.market.total_liquidity, 20_000);

    let mut second = deposit_into(pool, position, first.market.clone());
    let event = add_liquidity(&mut second, 5_000, 5_000, 5_000).unwrap();
    assert_eq!(event.lp_tokens_minted, 5_000);
    assert_eq!(second.liquidity_pool.total_lp_tokens, 15_000);
    assert_eq!(second.liquidity_pool.outcome_a_reserve, 15_000);
    assert_eq!(second.liquidity_pool.k_constant, 225_000_000);
    assert_eq!(second.liquidity_pool.active_providers, 1);
    assert_eq!(second.user_liquidity_position.lp_tokens, 15_000);
    assert_eq!(second.market.total_liquidity, 30_000);
}

#[test]
fn first_deposit_is_given_at_least_the_minimum_shares() {
    let mut ctx = deposit_into(
        LiquidityPool::empty(party(9), 30, 1_000),
        LiquidityPosition::blank(),
        active_market(),
    );
    assert_eq!(add_liquidity(&mut ctx, 10, 10, 0).unwrap().lp_tokens_minted, 1_000);
    let mut ctx = deposit_into(
        LiquidityPool::empty(party(9), 30, 1_000),
        LiquidityPosition::blank(),
        active_market(),
    );
    // sqrt(1000 * 1001) = 1000.49...
    assert_eq!(add_liquidity(&mut ctx, 1_000, 1_001, 0).unwrap().lp_tokens_minted, 1_000);
    let mut ctx = deposit_into(
        LiquidityPool::empty(party(9), 30, 1_000),
        LiquidityPosition::blank(),
        active_market(),
    );
    // sqrt(2000 * 8000) = 4000
    assert_eq!(add_liquidity(&mut ctx, 2_000, 8_000, 0).unwrap().lp_tokens_minted, 4_000);
}

#[test]
fn scarcer_side_binds_and_the_excess_is_kept() {
    let (pool, position, market) = funded(10_000, 20_000, 14_142);
    let mut ctx = deposit_into(pool, position, market);
    // from the first side 1000 * 14142 / 10000 = 1414, from the second 5000 * 14142 / 20000 = 3535
    let event = add_liquidity(&mut ctx, 1_000, 5_000, 0).unwrap();
    assert_eq!(event.lp_tokens_minted, 1_414);
    assert_eq!(ctx.liquidity_pool.outcome_a_reserve, 11_000);
    assert_eq!(ctx.liquidity_pool.outcome_b_reserve, 25_000);
    assert_eq!(ctx.provider_outcome_b_account.amount, 95_000);
    let before = pool.outcome_a_reserve as u128 * pool.outcome_b_reserve as u128;
    assert!(ctx.liquidity_pool.k_constant >= before);
    // no share is worth less than before
    let after = ctx.liquidity_pool;
    assert!(
        after.outcome_a_reserve as u128 * pool.total_lp_tokens as u128
            >= pool.outcome_a_reserve as u128 * after.total_lp_tokens as u128
    );
    assert!(
        after.outcome_b_reserve as u128 * pool.total_lp_tokens as u128
            >= pool.outcome_b_reserve as u128 * after.total_lp_tokens as u128
    );
}

#[test]
fn deposit_is_refused_with_the_first_reason_that_applies() {
    let (pool, position, market) = funded(10_000, 10_000, 10_000);
    let refused = |change: &dyn Fn(&mut AddLiquidity), a: u64, b: u64, min: u64| {
        let mut ctx = deposit_into(pool, position, market.clone());
        change(&mut ctx);
        let before = ctx.clone();
        let r = add_liquidity(&mut ctx, a, b, min).map(|e| e.lp_tokens_minted);
        if r.is_err() {
            assert_eq!(ctx, before);
        }
        r
    };
    let keep = |_: &mut AddLiquidity| {};
    assert_eq!(refused(&keep, 100, 100, 100), Ok(100));
    assert_eq!(
        refused(&|c: &mut AddLiquidity| c.market.status = MarketStatus::Resolved, 0, 100, 0),
        Err(PredictionMarketError::MarketNotActive)
    );
    assert_eq!(refused(&keep, 0, 100, 0), Err(PredictionMarketError::InvalidAmount));
    assert_eq!(refused(&keep, 100, 0, 0), Err(PredictionMarketError::InvalidAmount));
    assert_eq!(
        refused(&|c: &mut AddLiquidity| c.unix_timestamp = 2_000, 100, 100, 0),
        Err(PredictionMarketError::MarketExpired)
    );
    assert_eq!(
        refused(&|c: &mut AddLiquidity| c.liquidity_provider = Address::zero(), 100, 100, 0),
        Err(PredictionMarketError::InvalidAuthority)
    );
    assert_eq!(
        refused(&|c: &mut AddLiquidity| c.liquidity_provider = party(21), 100, 100, 0),
        Err(PredictionMarketError::InvalidPosition)
    );
    assert_eq!(
        refused(&|c: &mut AddLiquidity| c.liquidity_pool.outcome_b_reserve = 0, 100, 100, 0),
        Err(PredictionMarketError::DivisionByZero)
    );
    assert_eq!(refused(&keep, 100, 100, 101), Err(PredictionMarketError::SlippageExceeded));
    assert_eq!(refused(&keep, 100_001, 100, 0), Err(PredictionMarketError::InsufficientTokenBalance));
    assert_eq!(
        refused(&|c: &mut AddLiquidity| c.lp_token_mint.supply = u64::MAX, 100, 100, 0),
        Err(PredictionMarketError::ArithmeticOverflow)
    );
    assert_eq!(
        refused(&|c: &mut AddLiquidity| c.market.total_liquidity = u64::MAX - 199, 100, 100, 0),
        Err(PredictionMarketError::ArithmeticOverflow)
    );
    assert_eq!(
        refused(&|c: &mut AddLiquidity| c.market.total_liquidity = u64::MAX - 200, 100, 100, 0),
        Ok(100)
    );
}

#[test]
fn withdrawal_from_active_market_pays_the_share_less_the_fee() {
    let (pool, position, market) = funded(15_000, 9_000, 11_618);
    let mut ctx = withdrawal_from(pool, position, market);
    // half the shares: 15000 * 5809 / 11618 = 7500 and 9000 * 5809 / 11618 = 4500
    // fee of 30 basis points: 22 and 13
    let event = ctx.remove_liquidity(5_809, 0).unwrap();
    assert_eq!(
        event,
        LiquidityRemovedEvent {
            market: party(9),
            liquidity_provider: party(20),
            lp_tokens_burned: 5_809,
            outcome_a_withdrawn: 7_478,
            outcome_b_withdrawn: 4_487,
            fee_amount: 35,
            remaining_lp_tokens: 5_809,
            pool_total_liquidity: 12_000,
            timestamp: 1_700,
        }
    );
    assert_eq!(ctx.liquidity_pool.outcome_a_reserve, 7_500);
    assert_eq!(ctx.liquidity_pool.outcome_b_reserve, 4_500);
    assert_eq!(ctx.liquidity_pool.total_lp_tokens, 5_809);
    assert_eq!(ctx.liquidity_pool.k_constant, 33_750_000);
    assert_eq!(ctx.liquidity_pool.total_fees_collected, 35);
    assert_eq!(ctx.liquidity_pool.active_providers, 1);
    assert_eq!(ctx.liquidity_position.lp_tokens, 5_809);
    assert!(ctx.liquidity_position.is_active);
    assert_eq!(ctx.liquidity_position.outcome_a_contributed, 15_000);
    assert_eq!(ctx.liquidity_position.last_update_time, 1_700);
    assert_eq!(ctx.outcome_a_vault.amount, 15_000 - 7_478);
    assert_eq!(ctx.outcome_b_vault.amount, 9_000 - 4_487);
    assert_eq!(ctx.provider_outcome_a_account.amount, 7_478);
    assert_eq!(ctx.provider_outcome_b_account.amount, 4_487);
    assert_eq!(ctx.provider_lp_token_account.amount, 5_809);
    assert_eq!(ctx.lp_token_mint.supply, 5_809);
    assert_eq!(ctx.market.total_liquidity, 12_000);
}

#[test]
fn withdrawal_from_resolved_market_pays_the_share_in_full() {
    let (pool, position, mut market) = funded(15_000, 9_000, 11_618);
    market.status = MarketStatus::Resolved;
    market.winning_outcome = Some(0);
    let mut ctx = withdrawal_from(pool, position, market);
    let event = ctx.remove_liquidity(5_809, 12_000).unwrap();
    assert_eq!(event.outcome_a_withdrawn, 7_500);
    assert_eq!(event.outcome_b_withdrawn, 4_500);
    assert_eq!(event.fee_amount, 0);
    assert_eq!(ctx.liquidity_pool.total_fees_collected, 0);
}

#[test]
fn withdrawing_every_share_empties_the_pool_and_retires_the_position() {
    let (pool, position, mut market) = funded(15_000, 9_000, 11_618);
    market.status = MarketStatus::Resolved;
    market.winning_outcome = Some(1);
    let mut ctx = withdrawal_from(pool, position, market);
    let event = ctx.remove_liquidity(11_618, 0).unwrap();
    assert_eq!(event.outcome_a_withdrawn, 15_000);
    assert_eq!(event.outcome_b_withdrawn, 9_000);
    assert_eq!(event.remaining_lp_tokens, 0);
    assert_eq!(ctx.liquidity_pool.outcome_a_reserve, 0);
    assert_eq!(ctx.liquidity_pool.outcome_b_reserve, 0);
    assert_eq!(ctx.liquidity_pool.total_lp_tokens, 0);
    assert_eq!(ctx.liquidity_pool.active_providers, 0);
    assert!(!ctx.liquidity_position.is_active);
    assert_eq!(ctx.liquidity_position.owner, party(20));
    assert_eq!(ctx.market.total_liquidity, 0);
    // the retired position is taken up again by the next deposit
    let mut market = ctx.market.clone();
    market.status = MarketStatus::Active;
    market.winning_outcome = None;
    let mut again = deposit_into(ctx.liquidity_pool, ctx.liquidity_position, market);
    add_liquidity(&mut again, 4_000, 4_000, 0).unwrap();
    assert!(again.user_liquidity_position.is_active);
    assert_eq!(again.liquidity_pool.active_providers, 1);
    assert_eq!(again.user_liquidity_position.outcome_a_contributed, 19_000);
}

#[test]
fn withdrawal_does_not_dilute_the_shares_that_stay() {
    let (pool, position, market) = funded(10_007, 3_001, 5_480);
    for shares in [1u64, 7, 100, 999, 5_479, 5_480] {
        let mut ctx = withdrawal_from(pool, position, market.clone());
        ctx.remove_liquidity(shares, 0).unwrap();
        let after = ctx.liquidity_pool;
        assert!(
            after.outcome_a_reserve as u128 * pool.total_lp_tokens as u128
                >= pool.outcome_a_reserve as u128 * after.total_lp_tokens as u128
        );
        assert!(
            after.outcome_b_reserve as u128 * pool.total_lp_tokens as u128
                >= pool.outcome_b_reserve as u128 * after.total_lp_tokens as u128
        );
        // what left each reserve is the share rounded down
        let gross_a = pool.outcome_a_reserve - after.outcome_a_reserve;
        assert_eq!(gross_a as u128, 10_007u128 * shares as u128 / 5_480);
    }
}

#[test]
fn withdrawal_is_refused_with_the_first_reason_that_applies() {
    let (pool, position, market) = funded(15_000, 9_000, 11_618);
    let refused = |change: &dyn Fn(&mut RemoveLiquidity), shares: u64, min_out: u64| {
        let mut ctx = withdrawal_from(pool, position, market.clone());
        change(&mut ctx);
        let before = ctx.clone();
        let r = ctx.remove_liquidity(shares, min_out).map(|e| e.lp_tokens_burned);
        if r.is_err() {
            assert_eq!(ctx, before);
        }
        r
    };
    let keep = |_: &mut RemoveLiquidity| {};
    assert_eq!(refused(&keep, 5_809, 11_965), Ok(5_809));
    assert_eq!(
        refused(&|c: &mut RemoveLiquidity| c.market.status = MarketStatus::Cancelled, 0, 0),
        Err(PredictionMarketError::MarketNotActive)
    );
    assert_eq!(
        refused(&|c: &mut RemoveLiquidity| c.market.status = MarketStatus::Paused, 100, 0),
        Err(PredictionMarketError::MarketNotActive)
    );
    assert_eq!(
        refused(&|c: &mut RemoveLiquidity| c.liquidity_provider = party(21), 100, 0),
        Err(PredictionMarketError::InvalidPosition)
    );
    assert_eq!(refused(&keep, 0, 0), Err(PredictionMarketError::InvalidAmount));
    assert_eq!(refused(&keep, 11_619, 0), Err(PredictionMarketError::InsufficientLpTokens));
    assert_eq!(
        refused(&|c: &mut RemoveLiquidity| c.liquidity_pool.total_lp_tokens = 0, 100, 0),
        Err(PredictionMarketError::EmptyPool)
    );
    assert_eq!(
        refused(&|c: &mut RemoveLiquidity| c.liquidity_pool.total_lp_tokens = 99, 100, 0),
        Err(PredictionMarketError::ArithmeticUnderflow)
    );
    assert_eq!(
        refused(
            &|c: &mut RemoveLiquidity| {
                c.liquidity_pool.outcome_a_reserve = 100;
                c.liquidity_pool.outcome_b_reserve = 100;
            },
            1,
            0
        ),
        Err(PredictionMarketError::InvalidAmount)
    );
    assert_eq!(
        refused(&|c: &mut RemoveLiquidity| c.liquidity_pool.fee_rate_bps = 10_010, 5_809, 0),
        Err(PredictionMarketError::ArithmeticUnderflow)
    );
    assert_eq!(refused(&keep, 5_809, 11_966), Err(PredictionMarketError::SlippageExceeded));
    assert_eq!(
        refused(&|c: &mut RemoveLiquidity| c.outcome_a_vault.amount = 7_477, 5_809, 0),
        Err(PredictionMarketError::InsufficientTokenBalance)
    );
    assert_eq!(
        refused(&|c: &mut RemoveLiquidity| c.provider_lp_token_account.amount = 5_808, 5_809, 0),
        Err(PredictionMarketError::InsufficientTokenBalance)
    );
    assert_eq!(
        refused(&|c: &mut RemoveLiquidity| c.provider_outcome_b_account.amount = u64::MAX, 5_809, 0),
        Err(PredictionMarketError::ArithmeticOverflow)
    );
    assert_eq!(
        refused(&|c: &mut RemoveLiquidity| c.market.total_liquidity = 11_999, 5_809, 0),
        Err(PredictionMarketError::ArithmeticUnderflow)
    );
    assert_eq!(
        refused(&|c: &mut RemoveLiquidity| c.liquidity_pool.active_providers = 0, 11_618, 0),
        Err(PredictionMarketError::ArithmeticUnderflow)
    );
}
