use vstd::prelude::*;
use crate::instructions::add_liquidity::AddLiquidity;
use crate::instructions::remove_liquidity::{
    lemma_share_within_reserve, withdrawal_share, RemoveLiquidity,
};
use crate::math::{lemma_div_bounds, mul_div_floor, BPS_DENOMINATOR};
use crate::state::{LiquidityPool, LiquidityPosition, MarketStatus};

verus! {

/// A change of liquidity does not dilute the shares: each reserve, taken per
/// share outstanding, is after the change at least what it was before.
/// Stated without division: `reserve' * supply >= reserve * supply'`.
pub open spec fn share_value_kept(before: LiquidityPool, after: LiquidityPool) -> bool {
    &&& after.outcome_a_reserve * before.total_lp_tokens >= before.outcome_a_reserve
        * after.total_lp_tokens
    &&& after.outcome_b_reserve * before.total_lp_tokens >= before.outcome_b_reserve
        * after.total_lp_tokens
}

/// The product of the reserves of a pool.
pub open spec fn reserve_product(pool: LiquidityPool) -> nat {
    (pool.outcome_a_reserve * pool.outcome_b_reserve) as nat
}

/// An accepted deposit never lowers the product of the reserves, and into a
/// pool that has shares outstanding it does not dilute them.
pub proof fn lemma_deposit_keeps_invariant(ctx: AddLiquidity, a: u64, b: u64, min_lp_tokens: u64)
    requires
        ctx.rejection(a, b, min_lp_tokens) is None,
    ensures
        reserve_product(ctx.pool_after(a, b)) >= reserve_product(ctx.liquidity_pool),
        ctx.liquidity_pool.total_lp_tokens > 0 ==> share_value_kept(
            ctx.liquidity_pool,
            ctx.pool_after(a, b),
        ),
{
    let pool = ctx.liquidity_pool;
    let after = ctx.pool_after(a, b);
    let ra = pool.outcome_a_reserve as nat;
    let rb = pool.outcome_b_reserve as nat;
    let supply = pool.total_lp_tokens as nat;
    let minted = ctx.minted(a, b);
    assert((ra + a) * (rb + b) >= ra * rb) by (nonlinear_arith);
    if supply > 0 {
        lemma_div_bounds(a as nat * supply, ra);
        lemma_div_bounds(b as nat * supply, rb);
        assert(minted <= mul_div_floor(a as nat, supply, ra));
        assert(minted <= mul_div_floor(b as nat, supply, rb));
        assert((ra + a) * supply >= ra * (supply + minted)) by (nonlinear_arith)
            requires
                minted <= (a as nat * supply) / ra,
                ((a as nat * supply) / ra) * ra <= a as nat * supply,
        ;
        assert((rb + b) * supply >= rb * (supply + minted)) by (nonlinear_arith)
            requires
                minted <= (b as nat * supply) / rb,
                ((b as nat * supply) / rb) * rb <= b as nat * supply,
        ;
    }
}

/// An accepted withdrawal does not dilute the shares that stay: each reserve
/// gives up at most the part that the redeemed shares stand for.
pub proof fn lemma_withdrawal_keeps_invariant(ctx: RemoveLiquidity, lp: u64, min_out: u64)
    requires
        ctx.rejection(lp, min_out) is None,
    ensures
        share_value_kept(ctx.liquidity_pool, ctx.pool_after(lp)),
{
    let pool = ctx.liquidity_pool;
    let ra = pool.outcome_a_reserve as nat;
    let rb = pool.outcome_b_reserve as nat;
    let supply = pool.total_lp_tokens as nat;
    lemma_div_bounds(ra * lp as nat, supply);
    lemma_div_bounds(rb * lp as nat, supply);
    lemma_share_within_reserve(ra, lp as nat, supply);
    lemma_share_within_reserve(rb, lp as nat, supply);
    let ga = ctx.gross_a(lp);
    let gb = ctx.gross_b(lp);
    assert((ra - ga) * supply >= ra * (supply - lp)) by (nonlinear_arith)
        requires
            ga * supply <= ra * lp as nat,
    ;
    assert((rb - gb) * supply >= rb * (supply - lp)) by (nonlinear_arith)
        requires
            gb * supply <= rb * lp as nat,
    ;
}

/// Where the shares are not diluted, the product of the reserves per square
/// of the shares outstanding does not fall.
pub proof fn lemma_share_value_bounds_product(before: LiquidityPool, after: LiquidityPool)
    requires
        share_value_kept(before, after),
    ensures
        reserve_product(after) * (before.total_lp_tokens * before.total_lp_tokens)
            >= reserve_product(before) * (after.total_lp_tokens * after.total_lp_tokens),
{
    let a0 = before.outcome_a_reserve as nat;
    let b0 = before.outcome_b_reserve as nat;
    let s0 = before.total_lp_tokens as nat;
    let a1 = after.outcome_a_reserve as nat;
    let b1 = after.outcome_b_reserve as nat;
    let s1 = after.total_lp_tokens as nat;
    let x = a1 * s0;
    let y = b1 * s0;
    let u = a0 * s1;
    let v = b0 * s1;
    assert(x * y >= u * v) by (nonlinear_arith)
        requires
            x >= u,
            y >= v,
    ;
    assert(x * y == (a1 * b1) * (s0 * s0)) by (nonlinear_arith)
        requires
            x == a1 * s0,
            y == b1 * s0,
    ;
    assert(u * v == (a0 * b0) * (s1 * s1)) by (nonlinear_arith)
        requires
            u == a0 * s1,
            v == b0 * s1,
    ;
}

/// Not diluting carries over a sequence of changes, as long as shares are
/// outstanding in between.
pub proof fn lemma_share_value_kept_transitive(
    first: LiquidityPool,
    second: LiquidityPool,
    third: LiquidityPool,
)
    requires
        share_value_kept(first, second),
        share_value_kept(second, third),
        second.total_lp_tokens > 0,
    ensures
        share_value_kept(first, third),
{
    lemma_cross_chain(
        first.outcome_a_reserve as nat,
        first.total_lp_tokens as nat,
        second.outcome_a_reserve as nat,
        second.total_lp_tokens as nat,
        third.outcome_a_reserve as nat,
        third.total_lp_tokens as nat,
    );
    lemma_cross_chain(
        first.outcome_b_reserve as nat,
        first.total_lp_tokens as nat,
        second.outcome_b_reserve as nat,
        second.total_lp_tokens as nat,
        third.outcome_b_reserve as nat,
        third.total_lp_tokens as nat,
    );
}

proof fn lemma_cross_chain(r0: nat, s0: nat, r1: nat, s1: nat, r2: nat, s2: nat)
    requires
        r1 * s0 >= r0 * s1,
        r2 * s1 >= r1 * s2,
        s1 > 0,
    ensures
        r2 * s0 >= r0 * s2,
{
    assert((r2 * s0) * s1 >= (r0 * s2) * s1) by (nonlinear_arith)
        requires
            r1 * s0 >= r0 * s1,
            r2 * s1 >= r1 * s2,
    {
        assert((r2 * s1) * s0 >= (r1 * s2) * s0);
        assert((r1 * s0) * s2 >= (r0 * s1) * s2);
    }
    assert(r2 * s0 >= r0 * s2) by (nonlinear_arith)
        requires
            (r2 * s0) * s1 >= (r0 * s2) * s1,
            s1 > 0,
    ;
}

/// Proportionality. Redeeming `lp` of `supply` shares takes from a reserve
/// the same fraction of it, rounded down to whole units; redeeming all shares
/// takes the whole reserve.
pub proof fn lemma_withdrawal_proportional(reserve: nat, lp: nat, supply: nat)
    requires
        0 < lp <= supply,
    ensures
        withdrawal_share(reserve, lp, supply) * supply <= reserve * lp,
        reserve * lp < (withdrawal_share(reserve, lp, supply) + 1) * supply,
        withdrawal_share(reserve, lp, supply) <= reserve,
        lp == supply ==> withdrawal_share(reserve, lp, supply) == reserve,
{
    lemma_div_bounds(reserve * lp, supply);
    lemma_share_within_reserve(reserve, lp, supply);
    if lp == supply {
        assert(withdrawal_share(reserve, lp, supply) == reserve) by (nonlinear_arith)
            requires
                supply > 0,
                lp == supply,
                withdrawal_share(reserve, lp, supply) * supply <= reserve * lp,
                reserve * lp < (withdrawal_share(reserve, lp, supply) + 1) * supply,
        ;
    }
}

/// What an accepted withdrawal pays from each reserve: the proportional part
/// of it, less the pool's fee on that part while the market is active, and
/// all of that part once the market is resolved.
pub proof fn lemma_withdrawal_pays_share(ctx: RemoveLiquidity, lp: u64, min_out: u64)
    requires
        ctx.rejection(lp, min_out) is None,
    ensures
        ctx.gross_a(lp) == withdrawal_share(
            ctx.liquidity_pool.outcome_a_reserve as nat,
            lp as nat,
            ctx.liquidity_pool.total_lp_tokens as nat,
        ),
        ctx.gross_b(lp) == withdrawal_share(
            ctx.liquidity_pool.outcome_b_reserve as nat,
            lp as nat,
            ctx.liquidity_pool.total_lp_tokens as nat,
        ),
        ctx.market.status == MarketStatus::Resolved ==> ctx.net_a(lp) == ctx.gross_a(lp)
            && ctx.net_b(lp) == ctx.gross_b(lp),
        ctx.market.status == MarketStatus::Active ==> ctx.net_a(lp) == ctx.gross_a(lp)
            - mul_div_floor(
            ctx.gross_a(lp),
            ctx.liquidity_pool.fee_rate_bps as nat,
            BPS_DENOMINATOR as nat,
        ) && ctx.net_b(lp) == ctx.gross_b(lp) - mul_div_floor(
            ctx.gross_b(lp),
            ctx.liquidity_pool.fee_rate_bps as nat,
            BPS_DENOMINATOR as nat,
        ),
        0 <= ctx.net_a(lp) <= ctx.gross_a(lp) <= ctx.liquidity_pool.outcome_a_reserve,
        0 <= ctx.net_b(lp) <= ctx.gross_b(lp) <= ctx.liquidity_pool.outcome_b_reserve,
        lp == ctx.liquidity_pool.total_lp_tokens ==> ctx.gross_a(lp)
            == ctx.liquidity_pool.outcome_a_reserve && ctx.gross_b(lp)
            == ctx.liquidity_pool.outcome_b_reserve,
{
    let pool = ctx.liquidity_pool;
    lemma_withdrawal_proportional(
        pool.outcome_a_reserve as nat,
        lp as nat,
        pool.total_lp_tokens as nat,
    );
    lemma_withdrawal_proportional(
        pool.outcome_b_reserve as nat,
        lp as nat,
        pool.total_lp_tokens as nat,
    );
}

/// The shares that all of `positions` hold together.
pub open spec fn shares_held(positions: Seq<LiquidityPosition>) -> nat
    decreases positions.len(),
{
    if positions.len() == 0 {
        0
    } else {
        shares_held(positions.drop_last()) + positions.last().lp_tokens as nat
    }
}

/// The shares of a pool balance: what the positions hold is what the pool
/// has outstanding.
pub open spec fn shares_balanced(pool: LiquidityPool, positions: Seq<LiquidityPosition>) -> bool {
    shares_held(positions) == pool.total_lp_tokens
}

/// Replacing one position changes the shares held by the difference.
pub proof fn lemma_shares_held_update(
    positions: Seq<LiquidityPosition>,
    who: int,
    next: LiquidityPosition,
)
    requires
        0 <= who < positions.len(),
    ensures
        shares_held(positions.update(who, next)) == shares_held(positions)
            - positions[who].lp_tokens + next.lp_tokens,
        positions[who].lp_tokens <= shares_held(positions),
    decreases positions.len(),
{
    let updated = positions.update(who, next);
    if who < positions.len() - 1 {
        lemma_shares_held_update(positions.drop_last(), who, next);
        assert(updated.drop_last() =~= positions.drop_last().update(who, next));
    } else {
        assert(updated.drop_last() =~= positions.drop_last());
    }
}

/// Where the shares balance, no position holds more than the pool has
/// outstanding.
pub proof fn lemma_position_within_supply(
    pool: LiquidityPool,
    positions: Seq<LiquidityPosition>,
    who: int,
)
    requires
        shares_balanced(pool, positions),
        0 <= who < positions.len(),
    ensures
        positions[who].lp_tokens <= pool.total_lp_tokens,
{
    lemma_shares_held_update(positions, who, positions[who]);
}

/// An accepted deposit keeps the shares balanced.
pub proof fn lemma_deposit_keeps_shares_balanced(
    ctx: AddLiquidity,
    a: u64,
    b: u64,
    min_lp_tokens: u64,
    positions: Seq<LiquidityPosition>,
    who: int,
)
    requires
        ctx.rejection(a, b, min_lp_tokens) is None,
        shares_balanced(ctx.liquidity_pool, positions),
        0 <= who < positions.len(),
        positions[who] == ctx.user_liquidity_position,
        ctx.user_liquidity_position.is_blank() ==> ctx.user_liquidity_position.lp_tokens == 0,
    ensures
        shares_balanced(ctx.pool_after(a, b), positions.update(who, ctx.position_after(a, b))),
{
    lemma_shares_held_update(positions, who, ctx.position_after(a, b));
}

/// An accepted withdrawal keeps the shares balanced.
pub proof fn lemma_withdrawal_keeps_shares_balanced(
    ctx: RemoveLiquidity,
    lp: u64,
    min_out: u64,
    positions: Seq<LiquidityPosition>,
    who: int,
)
    requires
        ctx.rejection(lp, min_out) is None,
        shares_balanced(ctx.liquidity_pool, positions),
        0 <= who < positions.len(),
        positions[who] == ctx.liquidity_position,
    ensures
        shares_balanced(ctx.pool_after(lp), positions.update(who, ctx.position_after(lp))),
{
    lemma_shares_held_update(positions, who, ctx.position_after(lp));
}

} // verus!
