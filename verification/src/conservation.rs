use vstd::prelude::*;
use crate::instructions::claim_winnings::{
    claim_amount, is_resolved, payout_of, winning_stake, ClaimWinnings,
};
use crate::instructions::place_bet::PlaceBet;
use crate::instructions::resolve_market::ResolveMarket;
use crate::math::{lemma_div_bounds, BPS_DENOMINATOR};
use crate::state::{market_step, MarketStatus, MarketView, PositionView};

verus! {

/// What all of `positions` together stake on `outcome`.
pub open spec fn staked_on(positions: Seq<PositionView>, outcome: int) -> nat
    decreases positions.len(),
{
    if positions.len() == 0 {
        0
    } else {
        staked_on(positions.drop_last(), outcome) + positions.last().stake_on(outcome)
    }
}

/// The books of a market balance: what the positions stake on each outcome
/// is what the market has pooled on it.
pub open spec fn books_balanced(market: MarketView, positions: Seq<PositionView>) -> bool {
    forall|outcome: int|
        0 <= outcome < market.outcomes.len() ==> #[trigger] staked_on(positions, outcome)
            == market.outcomes[outcome].total_amount
}

/// What the claims on all of `positions` pay out of a resolved market.
pub open spec fn total_payout(market: MarketView, positions: Seq<PositionView>) -> nat
    decreases positions.len(),
{
    if positions.len() == 0 {
        0
    } else {
        total_payout(market, positions.drop_last()) + payout_of(market, positions.last())
    }
}

/// How many of `positions` hold a stake on the outcome that won.
pub open spec fn claimants(market: MarketView, positions: Seq<PositionView>) -> nat
    decreases positions.len(),
{
    if positions.len() == 0 {
        0
    } else {
        claimants(market, positions.drop_last()) + if winning_stake(market, positions.last())
            > 0 {
            1nat
        } else {
            0nat
        }
    }
}

/// Replacing one position changes the stakes on an outcome by the difference.
pub proof fn lemma_staked_on_update(
    positions: Seq<PositionView>,
    who: int,
    next: PositionView,
    outcome: int,
)
    requires
        0 <= who < positions.len(),
    ensures
        staked_on(positions.update(who, next), outcome) == staked_on(positions, outcome)
            - positions[who].stake_on(outcome) + next.stake_on(outcome),
    decreases positions.len(),
{
    let updated = positions.update(who, next);
    if who < positions.len() - 1 {
        lemma_staked_on_update(positions.drop_last(), who, next, outcome);
        assert(updated.drop_last() =~= positions.drop_last().update(who, next));
    } else {
        assert(updated.drop_last() =~= positions.drop_last());
    }
}

/// An accepted bet keeps the books balanced: the stake joins the bettor's
/// position and the outcome's pool alike.
pub proof fn lemma_bet_keeps_books_balanced(
    ctx: PlaceBet,
    outcome: u8,
    amount: u64,
    positions: Seq<PositionView>,
    who: int,
)
    requires
        ctx.rejection(outcome, amount) is None,
        books_balanced(ctx.market@, positions),
        0 <= who < positions.len(),
        positions[who] == ctx.bet@,
        ctx.bet@.is_blank() ==> forall|o: int| ctx.bet@.stake_on(o) == 0,
    ensures
        books_balanced(
            ctx.market_after(outcome, amount),
            positions.update(who, ctx.position_after(outcome, amount)),
        ),
{
    let after = ctx.market_after(outcome, amount);
    let next = ctx.position_after(outcome, amount);
    assert forall|o: int| 0 <= o < after.outcomes.len() implies #[trigger] staked_on(
        positions.update(who, next),
        o,
    ) == after.outcomes[o].total_amount by {
        lemma_staked_on_update(positions, who, next, o);
        assert(staked_on(positions, o) == ctx.market@.outcomes[o].total_amount);
    }
}

/// One claim pays the stake's share at the ratio, short of it by less than
/// one unit.
proof fn lemma_claim_bounds(stake: nat, ratio: nat)
    ensures
        BPS_DENOMINATOR * claim_amount(stake, ratio) <= ratio * stake,
        ratio * stake <= BPS_DENOMINATOR * claim_amount(stake, ratio) + 9999,
        stake == 0 ==> claim_amount(stake, ratio) == 0,
{
    lemma_div_bounds(stake * ratio, BPS_DENOMINATOR as nat);
    assert(stake * ratio == ratio * stake) by (nonlinear_arith);
    if stake == 0 {
        assert(stake * ratio == 0) by (nonlinear_arith)
            requires stake == 0;
    }
}

/// All claims together pay the winning stakes' share at the ratio, short of
/// it by less than one unit for each claimant.
pub proof fn lemma_total_payout_bounds(market: MarketView, positions: Seq<PositionView>)
    requires
        market.winning_outcome is Some,
    ensures
        BPS_DENOMINATOR * total_payout(market, positions) <= market.payout_ratio * staked_on(
            positions,
            market.winning_outcome->0 as int,
        ),
        market.payout_ratio * staked_on(positions, market.winning_outcome->0 as int)
            <= BPS_DENOMINATOR * total_payout(market, positions) + 9999 * claimants(
            market,
            positions,
        ),
    decreases positions.len(),
{
    let winner = market.winning_outcome->0 as int;
    let ratio = market.payout_ratio as nat;
    if positions.len() > 0 {
        let rest = positions.drop_last();
        let stake = winning_stake(market, positions.last());
        lemma_total_payout_bounds(market, rest);
        lemma_claim_bounds(stake, ratio);
        assert(ratio * (staked_on(rest, winner) + stake) == ratio * staked_on(rest, winner)
            + ratio * stake) by (nonlinear_arith);
        assert(BPS_DENOMINATOR * (total_payout(market, rest) + claim_amount(stake, ratio))
            == BPS_DENOMINATOR * total_payout(market, rest) + BPS_DENOMINATOR * claim_amount(
            stake,
            ratio,
        )) by (nonlinear_arith);
        assert(9999 * (claimants(market, rest) + 1) == 9999 * claimants(market, rest) + 9999);
    } else {
        assert(market.payout_ratio * 0 == 0);
    }
}

/// Conservation. Take any market whose books balance, resolve it, and let
/// every position claim. Then what the claims pay and the protocol's fee
/// never exceed the pool. Where the winning outcome holds stakes, they fall
/// short of the pool by no more than one unit for each claimant plus what
/// rounding the payout ratio lost, which is nothing where that remainder is
/// under one basis-point denominator. Where nobody staked on the winning
/// outcome, nothing is paid and what is left of the pool stays in the vault.
pub proof fn lemma_conservation(
    ctx: ResolveMarket,
    outcome: u8,
    oracle_data: Seq<u8>,
    positions: Seq<PositionView>,
)
    requires
        ctx.rejection(outcome, oracle_data) is None,
        books_balanced(ctx.market@, positions),
    ensures
        ({
            let resolved = ctx.market_after(outcome);
            let paid = total_payout(resolved, positions);
            let lost = ((ctx.remaining_pool() * BPS_DENOMINATOR) % (ctx.winning_pool(
                outcome,
            ) as int)) as nat;
            &&& paid + ctx.fee() <= ctx.total_pool()
            &&& ctx.winning_pool(outcome) == 0 ==> paid == 0
            &&& ctx.winning_pool(outcome) > 0 ==> ctx.total_pool() - (paid + ctx.fee())
                <= claimants(resolved, positions) + lost / (BPS_DENOMINATOR as nat)
            &&& ctx.winning_pool(outcome) > 0 && lost < BPS_DENOMINATOR ==> ctx.total_pool()
                - (paid + ctx.fee()) <= claimants(resolved, positions)
        }),
{
    let resolved = ctx.market_after(outcome);
    let paid = total_payout(resolved, positions);
    let winning = ctx.winning_pool(outcome);
    let remaining = ctx.remaining_pool() as nat;
    let ratio = ctx.ratio(outcome);
    let n = claimants(resolved, positions);
    assert(staked_on(positions, outcome as int) == winning);
    assert(resolved.payout_ratio == ratio);
    lemma_total_payout_bounds(resolved, positions);
    if winning == 0 {
        assert(ratio == 0);
        assert(BPS_DENOMINATOR * paid <= 0) by (nonlinear_arith)
            requires
                BPS_DENOMINATOR * paid <= ratio * winning,
                ratio == 0,
        ;
    } else {
        let scaled = remaining * (BPS_DENOMINATOR as nat);
        let lost = scaled % winning;
        lemma_div_bounds(scaled, winning);
        assert(scaled == winning * (scaled / winning) + scaled % winning) by (nonlinear_arith)
            requires winning > 0;
        assert(ratio == scaled / winning);
        assert(ratio * winning == scaled - lost) by (nonlinear_arith)
            requires
                scaled == winning * ratio + lost,
        ;
        assert(lost == 10000 * (lost / 10000) + lost % 10000);
        assert(BPS_DENOMINATOR * paid <= BPS_DENOMINATOR * remaining);
        assert(BPS_DENOMINATOR * remaining - lost <= BPS_DENOMINATOR * paid + 9999 * n);
    }
}

/// What a claim pays is fixed at resolution: no later operation on the
/// market changes it.
pub proof fn lemma_payout_is_stable(before: MarketView, after: MarketView, position: PositionView)
    requires
        is_resolved(before),
        market_step(before, after),
    ensures
        is_resolved(after),
        payout_of(after, position) == payout_of(before, position),
{
}

/// What the claims already made on `positions` have paid.
pub open spec fn claimed_payout(market: MarketView, positions: Seq<PositionView>) -> nat
    decreases positions.len(),
{
    if positions.len() == 0 {
        0
    } else {
        claimed_payout(market, positions.drop_last()) + if positions.last().claimed {
            payout_of(market, positions.last())
        } else {
            0
        }
    }
}

/// The market's figure of what was claimed is what the claimed positions
/// were paid.
pub open spec fn claims_booked(market: MarketView, positions: Seq<PositionView>) -> bool {
    market.total_claimed == claimed_payout(market, positions)
}

/// The vault holds what the market still owes: all stakes while it is open,
/// and after resolution what was left for the winners less what they have
/// claimed.
pub open spec fn vault_covers(market: MarketView, vault: u64) -> bool {
    match market.status {
        MarketStatus::Active | MarketStatus::Paused => vault >= market.total_volume,
        MarketStatus::Resolved => vault + market.total_claimed >= market.remaining_pool(),
        MarketStatus::Cancelled => true,
    }
}

/// What one unclaimed position is owed, and what the claimed ones were paid,
/// are within what all positions are owed together.
pub proof fn lemma_unclaimed_within_total(
    market: MarketView,
    positions: Seq<PositionView>,
    who: int,
)
    requires
        0 <= who < positions.len(),
        !positions[who].claimed,
    ensures
        payout_of(market, positions[who]) + claimed_payout(market, positions) <= total_payout(
            market,
            positions,
        ),
    decreases positions.len(),
{
    if who < positions.len() - 1 {
        lemma_unclaimed_within_total(market, positions.drop_last(), who);
    } else {
        lemma_claimed_within_total(market, positions.drop_last());
    }
}

/// What the claimed positions were paid is within what all are owed.
pub proof fn lemma_claimed_within_total(market: MarketView, positions: Seq<PositionView>)
    ensures
        claimed_payout(market, positions) <= total_payout(market, positions),
    decreases positions.len(),
{
    if positions.len() > 0 {
        lemma_claimed_within_total(market, positions.drop_last());
    }
}

/// An accepted bet keeps the vault covering the stakes.
pub proof fn lemma_bet_keeps_vault_covering(ctx: PlaceBet, outcome: u8, amount: u64)
    requires
        ctx.rejection(outcome, amount) is None,
        vault_covers(ctx.market@, ctx.market_vault.amount),
    ensures
        vault_covers(ctx.market_after(outcome, amount), (ctx.market_vault.amount + amount) as u64),
{
}

/// An accepted resolution keeps the vault covering what is left for the
/// winners: only the fee leaves it.
pub proof fn lemma_resolution_keeps_vault_covering(
    ctx: ResolveMarket,
    outcome: u8,
    oracle_data: Seq<u8>,
)
    requires
        ctx.rejection(outcome, oracle_data) is None,
        vault_covers(ctx.market@, ctx.vault.amount),
    ensures
        vault_covers(ctx.market_after(outcome), (ctx.vault.amount - ctx.fee()) as u64),
{
}

/// Solvency. In a resolved market that meets its invariants, whose books
/// balance and whose vault covers what it owes, every position that has not
/// claimed yet can be paid in full out of the vault.
pub proof fn lemma_every_claim_can_be_paid(
    market: MarketView,
    vault: u64,
    positions: Seq<PositionView>,
    who: int,
)
    requires
        market.wf(),
        is_resolved(market),
        books_balanced(market, positions),
        claims_booked(market, positions),
        vault_covers(market, vault),
        0 <= who < positions.len(),
        !positions[who].claimed,
    ensures
        payout_of(market, positions[who]) <= vault,
{
    let winner = market.winning_outcome->0 as int;
    let winning = market.outcomes[winner].total_amount as nat;
    let remaining = market.remaining_pool();
    let paid = total_payout(market, positions);
    lemma_unclaimed_within_total(market, positions, who);
    lemma_total_payout_bounds(market, positions);
    assert(staked_on(positions, winner) == winning);
    if winning == 0 {
        assert(BPS_DENOMINATOR * paid <= 0) by (nonlinear_arith)
            requires
                BPS_DENOMINATOR * paid <= market.payout_ratio * winning,
                winning == 0,
        ;
    } else {
        lemma_div_bounds(remaining * (BPS_DENOMINATOR as nat), winning);
        assert(market.payout_ratio * winning <= remaining * BPS_DENOMINATOR) by (nonlinear_arith)
            requires
                market.payout_ratio == (remaining * (BPS_DENOMINATOR as nat)) / winning,
                ((remaining * (BPS_DENOMINATOR as nat)) / winning) * winning <= remaining * (
                BPS_DENOMINATOR as nat),
        ;
    }
    assert(paid <= remaining);
}

/// An accepted claim keeps the vault covering what is still owed, and keeps
/// the market's figure of what was claimed in step with the positions.
pub proof fn lemma_claim_keeps_accounts(
    ctx: ClaimWinnings,
    after: ClaimWinnings,
    positions: Seq<PositionView>,
    who: int,
)
    requires
        ctx.rejection() is None,
        ctx.claimed(after),
        vault_covers(ctx.market@, ctx.market_vault.amount),
        claims_booked(ctx.market@, positions),
        0 <= who < positions.len(),
        positions[who] == ctx.position@,
    ensures
        vault_covers(after.market@, after.market_vault.amount),
        claims_booked(after.market@, positions.update(who, after.position@)),
        books_balanced(ctx.market@, positions) ==> books_balanced(
            after.market@,
            positions.update(who, after.position@),
        ),
{
    let before = ctx.market@;
    let next = after.market@;
    lemma_claimed_payout_update(before, positions, who, after.position@);
    lemma_claimed_payout_same_terms(before, next, positions.update(who, after.position@));
    if books_balanced(before, positions) {
        assert forall|o: int| 0 <= o < next.outcomes.len() implies #[trigger] staked_on(
            positions.update(who, after.position@),
            o,
        ) == next.outcomes[o].total_amount by {
            lemma_staked_on_update(positions, who, after.position@, o);
            assert(staked_on(positions, o) == before.outcomes[o].total_amount);
        }
    }
}

/// Marking one unclaimed position as claimed adds what it is owed to what
/// was paid.
proof fn lemma_claimed_payout_update(
    market: MarketView,
    positions: Seq<PositionView>,
    who: int,
    next: PositionView,
)
    requires
        0 <= who < positions.len(),
        !positions[who].claimed,
        next.claimed,
        next.outcomes == positions[who].outcomes,
    ensures
        claimed_payout(market, positions.update(who, next)) == claimed_payout(market, positions)
            + payout_of(market, positions[who]),
    decreases positions.len(),
{
    let updated = positions.update(who, next);
    if who < positions.len() - 1 {
        lemma_claimed_payout_update(market, positions.drop_last(), who, next);
        assert(updated.drop_last() =~= positions.drop_last().update(who, next));
    } else {
        assert(updated.drop_last() =~= positions.drop_last());
    }
}

/// What was paid goes by the winning outcome and the payout ratio alone.
proof fn lemma_claimed_payout_same_terms(
    before: MarketView,
    after: MarketView,
    positions: Seq<PositionView>,
)
    requires
        before.winning_outcome == after.winning_outcome,
        before.payout_ratio == after.payout_ratio,
    ensures
        claimed_payout(before, positions) == claimed_payout(after, positions),
    decreases positions.len(),
{
    if positions.len() > 0 {
        lemma_claimed_payout_same_terms(before, after, positions.drop_last());
    }
}

} // verus!
