use prediction_market::address::Address;
use prediction_market::error::PredictionMarketError;
use prediction_market::instructions::claim_winnings::ClaimWinnings;
use prediction_market::instructions::create_market::{handler, CreateMarket};
use prediction_market::instructions::place_bet::{place_bet, BetPlacedEvent, PlaceBet};
use prediction_market::instructions::resolve_market::{MarketResolvedEvent, ResolveMarket};
use prediction_market::instructions::update_market::RefundBet;
use prediction_market::ledger::TokenAccount;
use prediction_market::state::{
    LiquidityPool, Market, MarketResolution, MarketStatus, Position,
};

fn who(tag: u8) -> Address {
    Address::new([tag; 32])
}

fn creation(now: i64) -> CreateMarket {
    CreateMarket {
        market: Market::blank(),
        liquidity_pool: LiquidityPool::empty(Address::zero(), 0, 0),
        market_resolution: MarketResolution::blank(),
        creator_token_account: TokenAccount { amount: 10_000 },
        outcome_a_vault: TokenAccount { amount: 0 },
        outcome_b_vault: TokenAccount { amount: 0 },
        market_key: who(9),
        creator: who(1),
        oracle: who(2),
        authority: who(3),
        min_bet_amount: 10,
        max_bet_amount: 1_000_000,
        max_payout_per_bet: 10_000_000,
        unix_timestamp: now,
    }
}

fn create(ctx: &mut CreateMarket, end_time: i64, platform_fee_bps: u16) -> Result<(), PredictionMarketError> {
    handler(
        ctx,
        String::from("rain-2031"),
        String::from("Will it rain?"),
        String::from("Resolves Yes if it rains."),
        String::from("weather"),
        end_time,
        String::from("met office"),
        1000,
        100,
        platform_fee_bps,
    )
    .map(|_| ())
}

fn new_market(platform_fee_bps: u16) -> Market {
    let mut ctx = creation(1_000);
    create(&mut ctx, 2_000, platform_fee_bps).unwrap();
    ctx.market
}

fn bet(market: Market, position: Position, vault: u64, bettor: Address, now: i64) -> PlaceBet {
    PlaceBet {
        market,
        bet: position,
        bettor_token_account: TokenAccount { amount: 5_000 },
        market_vault: TokenAccount { amount: vault },
        bettor,
        unix_timestamp: now,
    }
}

fn resolution(market: Market, vault: u64, oracle: Address, now: i64) -> ResolveMarket {
    ResolveMarket {
        market,
        market_resolution: MarketResolution::blank(),
        oracle,
        vault: TokenAccount { amount: vault },
        protocol_fee_account: TokenAccount { amount: 0 },
        unix_timestamp: now,
    }
}

fn claim(market: Market, position: Position, vault: u64, user: Address) -> ClaimWinnings {
    ClaimWinnings {
        market,
        position,
        market_vault: TokenAccount { amount: vault },
        user_token_account: TokenAccount { amount: 0 },
        user,
        unix_timestamp: 3_000,
    }
}

#[test]
fn created_market_is_active_with_zeroed_counters() {
    let mut ctx = creation(1_000);
    let event = handler(
        &mut ctx,
        String::from("rain-2031"),
        String::from("Will it rain?"),
        String::from("Resolves Yes if it rains."),
        String::from("weather"),
        2_000,
        String::from("met office"),
        1001,
        100,
        200,
    )
    .unwrap();
    assert_eq!(event.market, who(9));
    assert_eq!(event.market_id, "rain-2031");
    assert_eq!(event.end_time, 2_000);
    assert_eq!(event.initial_liquidity, 1001);
    assert_eq!(event.created_at, 1_000);
    let market = &ctx.market;
    assert_eq!(market.status, MarketStatus::Active);
    assert_eq!(market.key, who(9));
    assert_eq!(market.creator, who(1));
    assert_eq!(market.oracle, who(2));
    assert_eq!(market.authority, who(3));
    assert_eq!(market.outcomes.len(), 2);
    assert_eq!(market.outcomes[0].id, 0);
    assert_eq!(market.outcomes[1].id, 1);
    assert_eq!(market.outcomes[0].total_amount, 0);
    assert_eq!(market.outcomes[1].current_odds, 10_000);
    assert_eq!(market.total_volume, 0);
    assert_eq!(market.total_bets, 0);
    assert_eq!(market.total_claimed, 0);
    assert_eq!(market.winning_outcome, None);
    assert_eq!(market.payout_ratio, 0);
    assert_eq!(market.creator_fee_bps, 100);
    assert_eq!(market.platform_fee_bps, 200);
    // 1001 is split 500 and 500; the odd unit stays with the creator
    assert_eq!(market.total_liquidity, 1000);
    assert_eq!(ctx.liquidity_pool.outcome_a_reserve, 500);
    assert_eq!(ctx.liquidity_pool.outcome_b_reserve, 500);
    assert_eq!(ctx.liquidity_pool.k_constant, 250_000);
    assert_eq!(ctx.liquidity_pool.total_lp_tokens, 0);
    assert_eq!(ctx.liquidity_pool.fee_rate_bps, 30);
    assert_eq!(ctx.creator_token_account.amount, 9_000);
    assert_eq!(ctx.outcome_a_vault.amount, 500);
    assert_eq!(ctx.outcome_b_vault.amount, 500);
    assert!(!ctx.market_resolution.resolved);
    assert_eq!(ctx.market_resolution.market, who(9));
}

#[test]
fn creation_rejects_parameters_out_of_bounds() {
    let invalid = Err(PredictionMarketError::InvalidConfiguration);
    let attempt = |change: &dyn Fn(&mut CreateMarket), title: String, end: i64, liquidity: u64, creator_fee: u16, platform_fee: u16| {
        let mut ctx = creation(1_000);
        change(&mut ctx);
        let before = ctx.clone();
        let r = handler(
            &mut ctx,
            String::from("id"),
            title,
            String::from("d"),
            String::from("c"),
            end,
            String::from("s"),
            liquidity,
            creator_fee,
            platform_fee,
        )
        .map(|_| ());
        if r.is_err() {
            assert_eq!(ctx, before);
        }
        r
    };
    let keep = |_: &mut CreateMarket| {};
    let ok_title = || String::from("t");
    assert_eq!(attempt(&keep, ok_title(), 2_000, 1000, 1000, 500), Ok(()));
    assert_eq!(attempt(&keep, "x".repeat(129), 2_000, 1000, 0, 0), invalid);
    assert_eq!(attempt(&keep, "x".repeat(128), 2_000, 1000, 0, 0), Ok(()));
    // 43 characters of three bytes each are 129 bytes
    assert_eq!(attempt(&keep, "\u{20ac}".repeat(43), 2_000, 1000, 0, 0), invalid);
    assert_eq!(attempt(&keep, ok_title(), 1_000, 1000, 0, 0), invalid);
    assert_eq!(attempt(&keep, ok_title(), 999, 1000, 0, 0), invalid);
    assert_eq!(attempt(&keep, ok_title(), 1_000 + 31_536_000, 1000, 0, 0), Ok(()));
    assert_eq!(attempt(&keep, ok_title(), 1_001 + 31_536_000, 1000, 0, 0), invalid);
    assert_eq!(attempt(&keep, ok_title(), 2_000, 999, 0, 0), invalid);
    assert_eq!(attempt(&keep, ok_title(), 2_000, 1000, 1001, 0), invalid);
    assert_eq!(attempt(&keep, ok_title(), 2_000, 1000, 0, 501), invalid);
    assert_eq!(attempt(&|c: &mut CreateMarket| c.min_bet_amount = 0, ok_title(), 2_000, 1000, 0, 0), invalid);
    assert_eq!(
        attempt(&|c: &mut CreateMarket| c.max_bet_amount = 5, ok_title(), 2_000, 1000, 0, 0),
        invalid
    );
    assert_eq!(
        attempt(&|c: &mut CreateMarket| c.creator = Address::zero(), ok_title(), 2_000, 1000, 0, 0),
        Err(PredictionMarketError::InvalidAuthority)
    );
    assert_eq!(
        attempt(&|c: &mut CreateMarket| c.creator_token_account.amount = 999, ok_title(), 2_000, 1000, 0, 0),
        Err(PredictionMarketError::InsufficientTokenBalance)
    );
    assert_eq!(
        attempt(&|c: &mut CreateMarket| c.outcome_b_vault.amount = u64::MAX, ok_title(), 2_000, 1000, 0, 0),
        Err(PredictionMarketError::ArithmeticOverflow)
    );
}

#[test]
fn a_market_is_created_only_once() {
    let mut ctx = creation(1_000);
    create(&mut ctx, 2_000, 200).unwrap();
    let before = ctx.clone();
    assert_eq!(create(&mut ctx, 2_000, 200), Err(PredictionMarketError::InvalidConfiguration));
    assert_eq!(ctx, before);
}

#[test]
fn sole_winner_receives_pool_net_of_protocol_fee() {
    let market = new_market(200);

    let mut yes = bet(market, Position::blank(), 0, who(10), 1_500);
    let placed = place_bet(&mut yes, 0, 1000).unwrap();
    assert_eq!(
        placed,
        BetPlacedEvent {
            market: who(9),
            bettor: who(10),
            outcome: 0,
            amount: 1000,
            odds: 20_000,
            timestamp: 1_500,
            total_market_volume: 1000,
        }
    );
    assert_eq!(yes.bettor_token_account.amount, 4_000);
    assert_eq!(yes.market_vault.amount, 1_000);
    assert_eq!(yes.market.outcomes[0].current_odds, 10_000);
    assert_eq!(yes.market.outcomes[1].current_odds, u64::MAX);

    let mut no = bet(yes.market.clone(), Position::blank(), 1_000, who(11), 1_600);
    let placed = place_bet(&mut no, 1, 1000).unwrap();
    assert_eq!(placed.odds, 10_000);
    assert_eq!(placed.total_market_volume, 2000);
    assert_eq!(no.market_vault.amount, 2_000);
    assert_eq!(no.market.total_bets, 2);
    assert_eq!(no.market.outcomes[0].total_amount, 1000);
    assert_eq!(no.market.outcomes[1].total_amount, 1000);
    assert_eq!(no.market.outcomes[0].current_odds, 20_000);
    assert_eq!(no.market.outcomes[1].current_odds, 20_000);

    let mut resolve = resolution(no.market.clone(), 2_000, who(2), 2_000);
    let resolved = resolve.resolve_market(0, vec![1, 2, 3]).unwrap();
    assert_eq!(
        resolved,
        MarketResolvedEvent {
            market: who(9),
            winning_outcome: 0,
            total_pool: 2000,
            winning_pool: 1000,
            payout_ratio: 19_600,
            protocol_fee: 40,
            resolution_timestamp: 2_000,
        }
    );
    assert_eq!(resolve.vault.amount, 1_960);
    assert_eq!(resolve.protocol_fee_account.amount, 40);
    assert_eq!(resolve.market.status, MarketStatus::Resolved);
    assert_eq!(resolve.market.winning_outcome, Some(0));
    assert_eq!(resolve.market.payout_ratio, 19_600);
    assert_eq!(resolve.market.resolution_timestamp, 2_000);
    assert!(resolve.market_resolution.resolved);
    assert_eq!(resolve.market_resolution.resolver, Some(who(2)));
    assert_eq!(resolve.market_resolution.resolution_data, vec![1, 2, 3]);
    assert_eq!(resolve.market_resolution.payout_ratio, 19_600);

    let mut winner = claim(resolve.market.clone(), yes.bet.clone(), 1_960, who(10));
    assert_eq!(winner.calculate_winnings(), Ok(1960));
    let claimed = winner.claim_winnings().unwrap();
    assert_eq!(claimed.amount, 1960);
    assert_eq!(claimed.outcome, 0);
    assert_eq!(claimed.user, who(10));
    assert_eq!(winner.user_token_account.amount, 1_960);
    assert_eq!(winner.market_vault.amount, 0);
    assert_eq!(winner.market.total_claimed, 1_960);
    assert!(winner.position.claimed);
    assert_eq!(winner.position.claimed_at, 3_000);

    // what was paid and the fee make up the pool
    assert_eq!(claimed.amount + resolved.protocol_fee, resolved.total_pool);
}

#[test]
fn losing_position_is_marked_claimed_and_paid_nothing() {
    let market = new_market(200);
    let mut yes = bet(market, Position::blank(), 0, who(10), 1_500);
    place_bet(&mut yes, 0, 1000).unwrap();
    let mut no = bet(yes.market.clone(), Position::blank(), 1_000, who(11), 1_600);
    place_bet(&mut no, 1, 1000).unwrap();
    let mut resolve = resolution(no.market.clone(), 2_000, who(2), 2_000);
    resolve.resolve_market(0, Vec::new()).unwrap();

    let mut loser = claim(resolve.market.clone(), no.bet.clone(), 1_960, who(11));
    assert_eq!(loser.calculate_winnings(), Ok(0));
    let claimed = loser.claim_winnings().unwrap();
    assert_eq!(claimed.amount, 0);
    assert!(loser.position.claimed);
    assert_eq!(loser.market_vault.amount, 1_960);
    assert_eq!(loser.user_token_account.amount, 0);
    assert_eq!(loser.market.total_claimed, 0);
}

#[test]
fn second_claim_is_refused_and_moves_nothing() {
    let market = new_market(200);
    let mut yes = bet(market, Position::blank(), 0, who(10), 1_500);
    place_bet(&mut yes, 0, 1000).unwrap();
    let mut resolve = resolution(yes.market.clone(), 1_000, who(2), 2_000);
    resolve.resolve_market(0, Vec::new()).unwrap();
    let mut winner = claim(resolve.market.clone(), yes.bet.clone(), 980, who(10));
    assert_eq!(winner.claim_winnings().unwrap().amount, 980);
    let before = winner.clone();
    assert_eq!(winner.claim_winnings(), Err(PredictionMarketError::AlreadyClaimed));
    assert_eq!(winner, before);
    // also with a refilled vault
    let mut again = claim(winner.market.clone(), winner.position.clone(), 5_000, who(10));
    assert_eq!(again.claim_winnings(), Err(PredictionMarketError::AlreadyClaimed));
    assert_eq!(again.market_vault.amount, 5_000);
    assert_eq!(again.user_token_account.amount, 0);
}

#[test]
fn resolution_without_winning_stakes_pays_nobody() {
    let market = new_market(200);
    let mut no = bet(market, Position::blank(), 0, who(11), 1_500);
    place_bet(&mut no, 1, 1000).unwrap();
    let mut resolve = resolution(no.market.clone(), 1_000, who(2), 2_000);
    let resolved = resolve.resolve_market(0, Vec::new()).unwrap();
    assert_eq!(resolved.winning_pool, 0);
    assert_eq!(resolved.payout_ratio, 0);
    assert_eq!(resolved.protocol_fee, 20);
    assert_eq!(resolve.market.payout_ratio, 0);
    assert_eq!(resolve.vault.amount, 980);

    let mut only = claim(resolve.market.clone(), no.bet.clone(), 980, who(11));
    assert_eq!(only.calculate_winnings(), Ok(0));
    let claimed = only.claim_winnings().unwrap();
    assert_eq!(claimed.amount, 0);
    // what is left of the pool stays in the vault
    assert_eq!(only.market_vault.amount, 980);
    assert_eq!(only.user_token_account.amount, 0);
}

#[test]
fn bet_of_zero_is_refused_and_changes_nothing() {
    let market = new_market(200);
    let mut ctx = bet(market, Position::blank(), 0, who(10), 1_500);
    let before = ctx.clone();
    assert_eq!(place_bet(&mut ctx, 0, 0), Err(PredictionMarketError::InvalidBetAmount));
    assert_eq!(ctx, before);
}

#[test]
fn bet_is_refused_with_the_first_reason_that_applies() {
    let market = new_market(200);
    let refused = |change: &dyn Fn(&mut PlaceBet), outcome: u8, amount: u64| {
        let mut ctx = bet(market.clone(), Position::blank(), 0, who(10), 1_500);
        change(&mut ctx);
        let before = ctx.clone();
        let r = place_bet(&mut ctx, outcome, amount).map(|_| ());
        if r.is_err() {
            assert_eq!(ctx, before);
        }
        r
    };
    let keep = |_: &mut PlaceBet| {};
    assert_eq!(refused(&keep, 0, 100), Ok(()));
    assert_eq!(
        refused(&|c: &mut PlaceBet| c.market.status = MarketStatus::Paused, 0, 100),
        Err(PredictionMarketError::MarketNotActive)
    );
    assert_eq!(
        refused(&|c: &mut PlaceBet| c.market.status = MarketStatus::Resolved, 7, 0),
        Err(PredictionMarketError::MarketNotActive)
    );
    assert_eq!(
        refused(&|c: &mut PlaceBet| c.unix_timestamp = 2_000, 0, 100),
        Err(PredictionMarketError::MarketExpired)
    );
    assert_eq!(refused(&keep, 2, 100), Err(PredictionMarketError::InvalidOutcome));
    assert_eq!(refused(&keep, 1, 9), Err(PredictionMarketError::BetBelowMinimum));
    assert_eq!(refused(&keep, 1, 10), Ok(()));
    assert_eq!(refused(&keep, 1, 1_000_001), Err(PredictionMarketError::BetAboveMaximum));
    assert_eq!(
        refused(&|c: &mut PlaceBet| c.bettor = Address::zero(), 0, 100),
        Err(PredictionMarketError::InvalidAuthority)
    );
    assert_eq!(
        refused(
            &|c: &mut PlaceBet| {
                c.bet.owner = who(12);
                c.bet.market = who(9);
                c.bet.outcomes = prediction_market::state::zeroed_stakes(2);
            },
            0,
            100
        ),
        Err(PredictionMarketError::InvalidPosition)
    );
    assert_eq!(
        refused(
            &|c: &mut PlaceBet| {
                c.bet.owner = who(10);
                c.bet.market = who(9);
                c.bet.outcomes = prediction_market::state::zeroed_stakes(2);
                c.bet.claimed = true;
            },
            0,
            100
        ),
        Err(PredictionMarketError::AlreadyClaimed)
    );
    assert_eq!(
        refused(&|c: &mut PlaceBet| c.market.max_payout_per_bet = 199, 0, 100),
        Err(PredictionMarketError::PayoutTooHigh)
    );
    assert_eq!(refused(&|c: &mut PlaceBet| c.market.max_payout_per_bet = 200, 0, 100), Ok(()));
    assert_eq!(refused(&keep, 0, 5_001), Err(PredictionMarketError::InsufficientTokenBalance));
    assert_eq!(
        refused(&|c: &mut PlaceBet| c.market_vault.amount = u64::MAX, 0, 100),
        Err(PredictionMarketError::ArithmeticOverflow)
    );
}

#[test]
fn potential_payout_goes_by_the_opposing_pool() {
    let market = new_market(0);
    let mut first = bet(market, Position::blank(), 0, who(10), 1_500);
    place_bet(&mut first, 0, 300).unwrap();
    let mut second = bet(first.market.clone(), Position::blank(), 300, who(11), 1_500);
    place_bet(&mut second, 1, 100).unwrap();
    // pool 400, on Yes 300, against Yes 100: a bet of 50 on Yes could pay 50 * 400 / 100
    let mut capped = bet(second.market.clone(), first.bet.clone(), 400, who(10), 1_500);
    capped.market.max_payout_per_bet = 199;
    assert_eq!(place_bet(&mut capped, 0, 50), Err(PredictionMarketError::PayoutTooHigh));
    capped.market.max_payout_per_bet = 200;
    let placed = place_bet(&mut capped, 0, 50).unwrap();
    // odds recorded: 400 / 100
    assert_eq!(placed.odds, 40_000);
    assert_eq!(capped.bet.outcomes[0].amount, 350);
    assert_eq!(capped.bet.outcomes[0].odds_at_bet, 40_000);
    assert_eq!(capped.bet.outcomes[1].amount, 0);
    assert_eq!(capped.bet.total_amount, 350);
    assert_eq!(capped.bet.created_at, 1_500);
    assert_eq!(capped.market.outcomes[0].bet_count, 2);
    // odds now: 450 / 350 and 450 / 100, rounded down
    assert_eq!(capped.market.outcomes[0].current_odds, 12_857);
    assert_eq!(capped.market.outcomes[1].current_odds, 45_000);
}

#[test]
fn recomputing_odds_without_a_bet_changes_nothing() {
    let market = new_market(0);
    let mut first = bet(market, Position::blank(), 0, who(10), 1_500);
    place_bet(&mut first, 0, 300).unwrap();
    let mut second = bet(first.market.clone(), Position::blank(), 300, who(11), 1_500);
    place_bet(&mut second, 1, 700).unwrap();
    let mut market = second.market.clone();
    market.refresh_odds();
    assert_eq!(market, second.market);
    assert_eq!(market.outcomes[0].current_odds, 33_333);
    assert_eq!(market.outcomes[1].current_odds, 14_285);
    market.refresh_odds();
    assert_eq!(market, second.market);
    assert_eq!(market.total_pool(), 1000);
}

#[test]
fn resolution_is_refused_with_the_first_reason_that_applies() {
    let market = new_market(200);
    let mut staked = bet(market, Position::blank(), 0, who(10), 1_500);
    place_bet(&mut staked, 0, 1000).unwrap();
    let refused = |change: &dyn Fn(&mut ResolveMarket), outcome: u8, evidence: Vec<u8>| {
        let mut ctx = resolution(staked.market.clone(), 1_000, who(2), 2_000);
        change(&mut ctx);
        let before = ctx.clone();
        let r = ctx.resolve_market(outcome, evidence).map(|_| ());
        if r.is_err() {
            assert_eq!(ctx, before);
        }
        r
    };
    let keep = |_: &mut ResolveMarket| {};
    assert_eq!(refused(&keep, 1, vec![0; 256]), Ok(()));
    assert_eq!(
        refused(&|c: &mut ResolveMarket| c.oracle = who(1), 1, Vec::new()),
        Err(PredictionMarketError::UnauthorizedResolver)
    );
    assert_eq!(
        refused(&|c: &mut ResolveMarket| c.market.status = MarketStatus::Paused, 1, Vec::new()),
        Err(PredictionMarketError::MarketNotActive)
    );
    assert_eq!(
        refused(&|c: &mut ResolveMarket| c.unix_timestamp = 1_999, 1, Vec::new()),
        Err(PredictionMarketError::MarketNotExpired)
    );
    assert_eq!(refused(&keep, 2, Vec::new()), Err(PredictionMarketError::InvalidOutcome));
    assert_eq!(refused(&keep, 1, vec![0; 257]), Err(PredictionMarketError::InvalidResolutionData));
    assert_eq!(
        refused(&|c: &mut ResolveMarket| c.market.platform_fee_bps = 10_010, 1, Vec::new()),
        Err(PredictionMarketError::ArithmeticUnderflow)
    );
    assert_eq!(
        refused(&|c: &mut ResolveMarket| c.vault.amount = 19, 1, Vec::new()),
        Err(PredictionMarketError::InsufficientTokenBalance)
    );
    assert_eq!(
        refused(&|c: &mut ResolveMarket| c.protocol_fee_account.amount = u64::MAX, 1, Vec::new()),
        Err(PredictionMarketError::ArithmeticOverflow)
    );
    assert_eq!(
        refused(
            &|c: &mut ResolveMarket| {
                c.market.total_volume = u64::MAX;
                c.market.platform_fee_bps = 0;
                c.market.outcomes[0].total_amount = 1;
            },
            0,
            Vec::new()
        ),
        Err(PredictionMarketError::ArithmeticOverflow)
    );
}

#[test]
fn a_resolved_market_cannot_be_resolved_again() {
    let market = new_market(200);
    let mut ctx = resolution(market, 0, who(2), 2_000);
    ctx.resolve_market(1, Vec::new()).unwrap();
    let before = ctx.clone();
    assert_eq!(ctx.resolve_market(0, Vec::new()), Err(PredictionMarketError::MarketNotActive));
    assert_eq!(ctx, before);
    assert_eq!(ctx.market.winning_outcome, Some(1));
}

#[test]
fn claim_is_refused_with_the_first_reason_that_applies() {
    let market = new_market(200);
    let mut yes = bet(market, Position::blank(), 0, who(10), 1_500);
    place_bet(&mut yes, 0, 1000).unwrap();
    let unresolved = yes.market.clone();
    let mut resolve = resolution(yes.market.clone(), 1_000, who(2), 2_000);
    resolve.resolve_market(0, Vec::new()).unwrap();
    let refused = |change: &dyn Fn(&mut ClaimWinnings)| {
        let mut ctx = claim(resolve.market.clone(), yes.bet.clone(), 980, who(10));
        change(&mut ctx);
        let before = ctx.clone();
        let r = ctx.claim_winnings().map(|e| e.amount);
        if r.is_err() {
            assert_eq!(ctx, before);
        }
        r
    };
    assert_eq!(refused(&|_: &mut ClaimWinnings| {}), Ok(980));
    assert_eq!(
        refused(&|c: &mut ClaimWinnings| c.market = unresolved.clone()),
        Err(PredictionMarketError::MarketNotResolved)
    );
    assert_eq!(
        refused(&|c: &mut ClaimWinnings| c.position.claimed = true),
        Err(PredictionMarketError::AlreadyClaimed)
    );
    assert_eq!(
        refused(&|c: &mut ClaimWinnings| c.user = who(11)),
        Err(PredictionMarketError::InvalidPosition)
    );
    assert_eq!(
        refused(&|c: &mut ClaimWinnings| c.position.market = who(8)),
        Err(PredictionMarketError::InvalidPosition)
    );
    assert_eq!(
        refused(&|c: &mut ClaimWinnings| {
            c.position.outcomes[0].amount = 1;
        }),
        Err(PredictionMarketError::NoWinnings)
    );
    assert_eq!(
        refused(&|c: &mut ClaimWinnings| c.market_vault.amount = 979),
        Err(PredictionMarketError::InsufficientTokenBalance)
    );
    assert_eq!(
        refused(&|c: &mut ClaimWinnings| c.user_token_account.amount = u64::MAX),
        Err(PredictionMarketError::ArithmeticOverflow)
    );
    assert_eq!(
        refused(&|c: &mut ClaimWinnings| {
            c.position.outcomes[0].amount = u64::MAX;
            c.market.payout_ratio = 19_600;
        }),
        Err(PredictionMarketError::ArithmeticOverflow)
    );
}

#[test]
fn claims_and_fee_never_exceed_the_pool() {
    // stakes 30000 on Yes by one bettor, 20000 on No, no fee: the ratio
    // 16666 loses two units to rounding
    let mut market = new_market(0);
    market.max_bet_amount = 100_000;
    let mut yes = bet(market, Position::blank(), 0, who(10), 1_500);
    yes.bettor_token_account.amount = 30_000;
    place_bet(&mut yes, 0, 30_000).unwrap();
    let mut no = bet(yes.market.clone(), Position::blank(), 30_000, who(11), 1_500);
    no.bettor_token_account.amount = 20_000;
    place_bet(&mut no, 1, 20_000).unwrap();
    let mut resolve = resolution(no.market.clone(), 50_000, who(2), 2_000);
    let resolved = resolve.resolve_market(0, Vec::new()).unwrap();
    assert_eq!(resolved.payout_ratio, 16_666);
    let mut winner = claim(resolve.market.clone(), yes.bet.clone(), 50_000, who(10));
    let paid = winner.claim_winnings().unwrap().amount;
    assert_eq!(paid, 49_998);
    assert!(paid + resolved.protocol_fee <= resolved.total_pool);
    assert_eq!(winner.market_vault.amount, 2);
}

#[test]
fn three_winners_share_the_pool_within_one_unit_each() {
    let mut market = new_market(500);
    market.max_payout_per_bet = u64::MAX;
    let stakes: [(u8, u8, u64); 4] = [(10, 0, 333), (11, 0, 334), (12, 0, 333), (13, 1, 1_001)];
    let mut vault = 0;
    let mut positions = Vec::new();
    for (tag, outcome, amount) in stakes {
        let mut ctx = bet(market, Position::blank(), vault, who(tag), 1_500);
        place_bet(&mut ctx, outcome, amount).unwrap();
        vault = ctx.market_vault.amount;
        market = ctx.market;
        positions.push((tag, ctx.bet));
    }
    assert_eq!(vault, 2_001);
    assert_eq!(market.total_volume, 2_001);
    let mut resolve = resolution(market, vault, who(2), 2_000);
    let resolved = resolve.resolve_market(0, Vec::new()).unwrap();
    // fee 2001 * 5% = 100, left 1901, ratio 1901 * 10000 / 1000
    assert_eq!(resolved.protocol_fee, 100);
    assert_eq!(resolved.payout_ratio, 19_010);
    let mut market = resolve.market;
    let mut vault = resolve.vault.amount;
    let mut paid = 0;
    for (tag, position) in positions {
        let mut ctx = claim(market, position, vault, who(tag));
        paid += ctx.claim_winnings().unwrap().amount;
        vault = ctx.market_vault.amount;
        market = ctx.market;
    }
    // 333 * 1.901 = 633.033, 334 * 1.901 = 634.934
    assert_eq!(paid, 633 + 634 + 633);
    assert_eq!(market.total_claimed, paid);
    assert!(paid + resolved.protocol_fee <= resolved.total_pool);
    assert!(resolved.total_pool - (paid + resolved.protocol_fee) <= 3);
    assert_eq!(vault, resolved.total_pool - resolved.protocol_fee - paid);
}

#[test]
fn only_the_authority_pauses_and_resumes() {
    let mut market = new_market(200);
    let before = market.clone();
    assert_eq!(market.pause(&who(1)), Err(PredictionMarketError::Unauthorized));
    assert_eq!(market.unpause(&who(3)), Err(PredictionMarketError::MarketNotActive));
    assert_eq!(market, before);
    assert_eq!(market.pause(&who(3)), Ok(()));
    assert_eq!(market.status, MarketStatus::Paused);
    assert_eq!(market.pause(&who(3)), Err(PredictionMarketError::MarketNotActive));
    assert_eq!(market.unpause(&who(2)), Err(PredictionMarketError::Unauthorized));
    assert_eq!(market.unpause(&who(3)), Ok(()));
    assert_eq!(market, before);
}

#[test]
fn cancelled_market_refunds_each_position_once() {
    let market = new_market(200);
    let mut staked = bet(market, Position::blank(), 0, who(10), 1_500);
    place_bet(&mut staked, 0, 700).unwrap();
    place_bet(&mut staked, 1, 300).unwrap();
    let mut market = staked.market.clone();
    assert_eq!(market.cancel(&who(3), 1_600), Err(PredictionMarketError::InvalidAuthority));
    assert_eq!(market.cancel(&who(1), 2_000), Err(PredictionMarketError::MarketExpired));
    assert_eq!(market.status, MarketStatus::Active);
    let mut refund = RefundBet {
        market: market.clone(),
        position: staked.bet.clone(),
        market_vault: TokenAccount { amount: 1_000 },
        bettor_token_account: TokenAccount { amount: 0 },
        bettor: who(10),
        unix_timestamp: 1_700,
    };
    assert_eq!(refund.refund_bet(), Err(PredictionMarketError::MarketNotCancelled));
    assert_eq!(market.cancel(&who(2), 1_600), Ok(()));
    assert_eq!(market.status, MarketStatus::Cancelled);
    assert_eq!(market.cancel(&who(1), 1_600), Err(PredictionMarketError::MarketNotActive));
    assert_eq!(market.unpause(&who(3)), Err(PredictionMarketError::MarketNotActive));
    refund.market = market.clone();
    refund.bettor = who(11);
    assert_eq!(refund.refund_bet(), Err(PredictionMarketError::InvalidPosition));
    refund.bettor = who(10);
    assert_eq!(refund.refund_bet(), Ok(1_000));
    assert_eq!(refund.bettor_token_account.amount, 1_000);
    assert_eq!(refund.market_vault.amount, 0);
    assert!(refund.position.claimed);
    assert_eq!(refund.refund_bet(), Err(PredictionMarketError::AlreadyClaimed));
    // no bets and no resolution on a cancelled market
    let mut late = bet(market.clone(), Position::blank(), 0, who(12), 1_650);
    assert_eq!(place_bet(&mut late, 0, 100), Err(PredictionMarketError::MarketNotActive));
    let mut resolve = resolution(market, 0, who(2), 2_000);
    assert_eq!(resolve.resolve_market(0, Vec::new()), Err(PredictionMarketError::MarketNotActive));
}
