use vstd::prelude::*;
use crate::address::Address;
pub use crate::records::{
    GlobalState, Oracle, PriceHistory, Trade, TradeType, UserProfile,
};
use crate::math::{mul_div_floor, ratio_bps, ratio_bps_saturating, BPS_DENOMINATOR};

verus! {

/// Most outcomes a market may have.
pub const MAX_OUTCOMES: usize = 10;

/// Most bytes of a market's identifier.
pub const MAX_MARKET_ID_LENGTH: usize = 32;

/// Most bytes of a market's title.
pub const MAX_TITLE_LENGTH: usize = 128;

/// Most bytes of a market's description.
pub const MAX_DESCRIPTION_LENGTH: usize = 512;

/// Most bytes of a market's category.
pub const MAX_CATEGORY_LENGTH: usize = 32;

/// Most bytes of the name of the source a market resolves by.
pub const MAX_RESOLUTION_SOURCE_LENGTH: usize = 128;

/// Most bytes of evidence a resolution may carry.
pub const MAX_RESOLUTION_DATA: usize = 256;

/// Number of bytes that a text takes when stored.
pub open spec fn byte_len(text: Seq<char>) -> nat {
    vstd::utf8::encode_utf8(text).len()
}

/// Largest creator fee, in basis points.
pub const MAX_CREATOR_FEE_BPS: u16 = 1000;

/// Largest platform fee, in basis points.
pub const MAX_PLATFORM_FEE_BPS: u16 = 500;

/// Odds of an outcome that holds the whole pool: 1.0x.
pub const EVEN_ODDS_BPS: u64 = 10000;

/// Odds recorded for a bet that no stake opposes: 2.0x.
pub const UNOPPOSED_ODDS_BPS: u64 = 20000;

/// Where a market stands in its life. `Resolved` and `Cancelled` are final.
#[derive(Clone, Copy, Debug, PartialEq, Eq, Structural)]
pub enum MarketStatus {
    Active,
    Paused,
    Resolved,
    Cancelled,
}

/// The stakes pooled on one outcome of a market.
#[derive(Clone, Copy, Debug, PartialEq, Eq)]
pub struct Outcome {
    pub id: u8,
    /// Sum of all stakes on this outcome.
    pub total_amount: u64,
    pub bet_count: u64,
    /// Informational multiplier in basis points; see [`odds_for`].
    pub current_odds: u64,
}

/// One wagering event.
#[derive(Clone, Debug, PartialEq, Eq)]
pub struct Market {
    pub key: Address,
    pub market_id: String,
    pub title: String,
    pub description: String,
    pub category: String,
    pub resolution_source: String,
    pub creator: Address,
    pub oracle: Address,
    pub authority: Address,
    pub created_at: i64,
    /// The resolution deadline; fixed at creation.
    pub end_time: i64,
    pub status: MarketStatus,
    pub outcomes: Vec<Outcome>,
    pub creator_fee_bps: u16,
    pub platform_fee_bps: u16,
    pub min_bet_amount: u64,
    pub max_bet_amount: u64,
    pub max_payout_per_bet: u64,
    pub total_volume: u64,
    pub total_bets: u64,
    pub total_liquidity: u64,
    pub total_claimed: u64,
    pub last_bet_time: i64,
    pub winning_outcome: Option<u8>,
    pub resolution_timestamp: i64,
    /// Multiplier in basis points applied to a winning stake; set at resolution.
    pub payout_ratio: u64,
}

/// The mathematical value of a [`Market`].
pub struct MarketView {
    pub key: Address,
    pub market_id: Seq<char>,
    pub title: Seq<char>,
    pub description: Seq<char>,
    pub category: Seq<char>,
    pub resolution_source: Seq<char>,
    pub creator: Address,
    pub oracle: Address,
    pub authority: Address,
    pub created_at: i64,
    pub end_time: i64,
    pub status: MarketStatus,
    pub outcomes: Seq<Outcome>,
    pub creator_fee_bps: u16,
    pub platform_fee_bps: u16,
    pub min_bet_amount: u64,
    pub max_bet_amount: u64,
    pub max_payout_per_bet: u64,
    pub total_volume: u64,
    pub total_bets: u64,
    pub total_liquidity: u64,
    pub total_claimed: u64,
    pub last_bet_time: i64,
    pub winning_outcome: Option<u8>,
    pub resolution_timestamp: i64,
    pub payout_ratio: u64,
}

impl View for Market {
    type V = MarketView;

    open spec fn view(&self) -> MarketView {
        MarketView {
            key: self.key,
            market_id: self.market_id@,
            title: self.title@,
            description: self.description@,
            category: self.category@,
            resolution_source: self.resolution_source@,
            creator: self.creator,
            oracle: self.oracle,
            authority: self.authority,
            created_at: self.created_at,
            end_time: self.end_time,
            status: self.status,
            outcomes: self.outcomes@,
            creator_fee_bps: self.creator_fee_bps,
            platform_fee_bps: self.platform_fee_bps,
            min_bet_amount: self.min_bet_amount,
            max_bet_amount: self.max_bet_amount,
            max_payout_per_bet: self.max_payout_per_bet,
            total_volume: self.total_volume,
            total_bets: self.total_bets,
            total_liquidity: self.total_liquidity,
            total_claimed: self.total_claimed,
            last_bet_time: self.last_bet_time,
            winning_outcome: self.winning_outcome,
            resolution_timestamp: self.resolution_timestamp,
            payout_ratio: self.payout_ratio,
        }
    }
}

/// Sum of the stakes pooled on all of `outcomes`.
pub open spec fn pool_total(outcomes: Seq<Outcome>) -> nat
    decreases outcomes.len(),
{
    if outcomes.len() == 0 {
        0
    } else {
        pool_total(outcomes.drop_last()) + outcomes.last().total_amount as nat
    }
}

/// The informational odds of an outcome that holds `part` of a pool of
/// `total`: the pool over the part in basis points, saturated; 1.0x once the
/// outcome holds the whole pool.
pub open spec fn odds_for(total: nat, part: nat) -> u64 {
    if total > part {
        ratio_bps_saturating(total, part) as u64
    } else {
        EVEN_ODDS_BPS
    }
}

/// The protocol's fee on a pool of `total_pool`, rounded down.
pub open spec fn protocol_fee(total_pool: nat, fee_rate_bps: nat) -> nat {
    mul_div_floor(total_pool, fee_rate_bps, BPS_DENOMINATOR as nat)
}

/// The multiplier in basis points that a winning stake is paid at: what is
/// left of the pool over the winning stakes, rounded down. Where nobody
/// staked on the winning outcome it is zero and what is left stays in the
/// vault.
pub open spec fn payout_ratio(remaining_pool: nat, winning_pool: nat) -> nat {
    if winning_pool > 0 {
        mul_div_floor(remaining_pool, BPS_DENOMINATOR as nat, winning_pool)
    } else {
        0
    }
}

/// `outcomes` with the odds of each recomputed from the stakes.
pub open spec fn with_refreshed_odds(outcomes: Seq<Outcome>) -> Seq<Outcome> {
    Seq::new(
        outcomes.len(),
        |i: int|
            Outcome {
                current_odds: odds_for(pool_total(outcomes), outcomes[i].total_amount as nat),
                ..outcomes[i]
            },
    )
}

impl MarketView {
    /// The invariants of a market that every operation keeps.
    pub open spec fn wf(self) -> bool {
        &&& 2 <= self.outcomes.len() <= MAX_OUTCOMES
        &&& forall|i: int| 0 <= i < self.outcomes.len() ==> (#[trigger] self.outcomes[i]).id == i
        &&& pool_total(self.outcomes) == self.total_volume
        &&& self.outcomes == with_refreshed_odds(self.outcomes)
        &&& self.creator_fee_bps <= MAX_CREATOR_FEE_BPS
        &&& self.platform_fee_bps <= MAX_PLATFORM_FEE_BPS
        &&& (self.status == MarketStatus::Resolved <==> self.winning_outcome is Some)
        &&& (self.winning_outcome matches Some(w) ==> w < self.outcomes.len())
        &&& (self.status != MarketStatus::Resolved ==> self.total_claimed == 0)
        &&& (self.winning_outcome matches Some(w) ==> self.payout_ratio == payout_ratio(
            self.remaining_pool(),
            self.outcomes[w as int].total_amount as nat,
        ))
    }

    /// The fee that the protocol takes at resolution.
    pub open spec fn fee(self) -> nat {
        protocol_fee(self.total_volume as nat, self.platform_fee_bps as nat)
    }

    /// What resolution leaves of the pool for the winners.
    pub open spec fn remaining_pool(self) -> nat {
        (self.total_volume - self.fee()) as nat
    }
}

/// Whether a market may go from status `from` to status `to`: a resolved or
/// cancelled market stays as it is, and a paused one can only resume.
pub open spec fn status_step(from: MarketStatus, to: MarketStatus) -> bool {
    match from {
        MarketStatus::Active => true,
        MarketStatus::Paused => to == MarketStatus::Paused || to == MarketStatus::Active,
        MarketStatus::Resolved => to == MarketStatus::Resolved,
        MarketStatus::Cancelled => to == MarketStatus::Cancelled,
    }
}

/// What holds between a market before and after any operation on it: the
/// status moves forward only, deadline and identities are those of its
/// creation, and once resolved the winning outcome and the payout ratio stay.
pub open spec fn market_step(before: MarketView, after: MarketView) -> bool {
    &&& status_step(before.status, after.status)
    &&& after.end_time == before.end_time
    &&& after.key == before.key
    &&& after.creator == before.creator
    &&& after.oracle == before.oracle
    &&& after.outcomes.len() == before.outcomes.len()
    &&& (before.status == MarketStatus::Resolved ==> after.winning_outcome
        == before.winning_outcome && after.payout_ratio == before.payout_ratio)
}

/// The market's figure of its liquidity is what the two reserves hold.
pub open spec fn liquidity_booked(market: MarketView, pool: LiquidityPool) -> bool {
    market.total_liquidity == pool.outcome_a_reserve + pool.outcome_b_reserve
}

/// Each vault holds at least what the pool has booked as its reserve.
pub open spec fn reserves_backed(pool: LiquidityPool, vault_a: u64, vault_b: u64) -> bool {
    pool.outcome_a_reserve <= vault_a && pool.outcome_b_reserve <= vault_b
}

/// What one position stakes on one outcome.
#[derive(Clone, Copy, Debug, PartialEq, Eq)]
pub struct BetOutcome {
    pub amount: u64,
    /// The odds shown when the latest bet on this outcome was placed.
    /// Informational: payouts go by the pool at resolution.
    pub odds_at_bet: u64,
}

/// The stakes of one bettor in one market.
#[derive(Clone, Debug, PartialEq, Eq)]
pub struct Position {
    pub owner: Address,
    pub market: Address,
    pub outcomes: Vec<BetOutcome>,
    pub total_amount: u64,
    pub claimed: bool,
    pub claimed_at: i64,
    pub created_at: i64,
    pub last_bet_at: i64,
}

/// The mathematical value of a [`Position`].
pub struct PositionView {
    pub owner: Address,
    pub market: Address,
    pub outcomes: Seq<BetOutcome>,
    pub total_amount: u64,
    pub claimed: bool,
    pub claimed_at: i64,
    pub created_at: i64,
    pub last_bet_at: i64,
}

impl View for Position {
    type V = PositionView;

    open spec fn view(&self) -> PositionView {
        PositionView {
            owner: self.owner,
            market: self.market,
            outcomes: self.outcomes@,
            total_amount: self.total_amount,
            claimed: self.claimed,
            claimed_at: self.claimed_at,
            created_at: self.created_at,
            last_bet_at: self.last_bet_at,
        }
    }
}

/// Sum of the amounts that a position stakes over all outcomes.
pub open spec fn stake_total(outcomes: Seq<BetOutcome>) -> nat
    decreases outcomes.len(),
{
    if outcomes.len() == 0 {
        0
    } else {
        stake_total(outcomes.drop_last()) + outcomes.last().amount as nat
    }
}

impl PositionView {
    /// A position nobody has used yet.
    pub open spec fn is_blank(self) -> bool {
        self.owner.is_zero()
    }

    /// What the position stakes on `outcome`; nothing where it has no entry.
    pub open spec fn stake_on(self, outcome: int) -> nat {
        if 0 <= outcome < self.outcomes.len() {
            self.outcomes[outcome].amount as nat
        } else {
            0
        }
    }

    pub open spec fn wf(self) -> bool {
        stake_total(self.outcomes) == self.total_amount
    }
}

/// The constant-product pool of a market: two reserves and the shares
/// issued against them.
#[derive(Clone, Copy, Debug, PartialEq, Eq)]
pub struct LiquidityPool {
    pub market: Address,
    pub outcome_a_reserve: u64,
    pub outcome_b_reserve: u64,
    pub total_lp_tokens: u64,
    /// The product of the two reserves.
    pub k_constant: u128,
    /// Fee on withdrawals from a market that is still active, in basis points.
    pub fee_rate_bps: u16,
    pub total_fees_collected: u64,
    pub active_providers: u32,
    pub last_update_time: i64,
}

impl LiquidityPool {
    pub open spec fn wf(self) -> bool {
        &&& self.k_constant == self.outcome_a_reserve * self.outcome_b_reserve
        &&& self.fee_rate_bps <= 10000
    }
}

/// The shares of one provider in one pool.
#[derive(Clone, Copy, Debug, PartialEq, Eq)]
pub struct LiquidityPosition {
    pub owner: Address,
    pub market: Address,
    pub lp_tokens: u64,
    /// Everything the provider ever paid in, per reserve.
    pub outcome_a_contributed: u64,
    pub outcome_b_contributed: u64,
    pub last_update_time: i64,
    pub is_active: bool,
}

impl LiquidityPosition {
    /// A position nobody has used yet.
    pub open spec fn is_blank(self) -> bool {
        self.owner.is_zero()
    }

    /// Whether nobody has used this position yet.
    pub fn is_default_owner(&self) -> (blank: bool)
        ensures
            blank == self.is_blank(),
    {
        self.owner.is_default()
    }
}

/// What is recorded of how a market was resolved.
#[derive(Clone, Debug, PartialEq, Eq)]
pub struct MarketResolution {
    pub market: Address,
    pub resolved: bool,
    pub resolution_time: i64,
    pub winning_outcome: Option<u8>,
    pub resolver: Option<Address>,
    /// The oracle's evidence, at most [`MAX_RESOLUTION_DATA`] bytes.
    pub resolution_data: Vec<u8>,
    pub dispute_period_end: Option<i64>,
    pub payout_ratio: u64,
}

/// The mathematical value of a [`MarketResolution`].
pub struct MarketResolutionView {
    pub market: Address,
    pub resolved: bool,
    pub resolution_time: i64,
    pub winning_outcome: Option<u8>,
    pub resolver: Option<Address>,
    pub resolution_data: Seq<u8>,
    pub dispute_period_end: Option<i64>,
    pub payout_ratio: u64,
}

impl View for MarketResolution {
    type V = MarketResolutionView;

    open spec fn view(&self) -> MarketResolutionView {
        MarketResolutionView {
            market: self.market,
            resolved: self.resolved,
            resolution_time: self.resolution_time,
            winning_outcome: self.winning_outcome,
            resolver: self.resolver,
            resolution_data: self.resolution_data@,
            dispute_period_end: self.dispute_period_end,
            payout_ratio: self.payout_ratio,
        }
    }
}

/// Each outcome's stakes are part of the pool.
pub proof fn lemma_pool_total_member(outcomes: Seq<Outcome>, i: int)
    requires
        0 <= i < outcomes.len(),
    ensures
        outcomes[i].total_amount <= pool_total(outcomes),
    decreases outcomes.len(),
{
    if i < outcomes.len() - 1 {
        lemma_pool_total_member(outcomes.drop_last(), i);
    }
}

/// Raising the stakes of one outcome raises the pool by as much.
pub proof fn lemma_pool_total_update(outcomes: Seq<Outcome>, i: int, next: Outcome)
    requires
        0 <= i < outcomes.len(),
    ensures
        pool_total(outcomes.update(i, next)) == pool_total(outcomes)
            - outcomes[i].total_amount + next.total_amount,
    decreases outcomes.len(),
{
    let updated = outcomes.update(i, next);
    if i < outcomes.len() - 1 {
        lemma_pool_total_update(outcomes.drop_last(), i, next);
        assert(updated.drop_last() =~= outcomes.drop_last().update(i, next));
    } else {
        assert(updated.drop_last() =~= outcomes.drop_last());
    }
}

/// Two lists of outcomes that stake the same amounts pool the same total.
pub proof fn lemma_pool_total_same_stakes(a: Seq<Outcome>, b: Seq<Outcome>)
    requires
        a.len() == b.len(),
        forall|i: int| 0 <= i < a.len() ==> a[i].total_amount == b[i].total_amount,
    ensures
        pool_total(a) == pool_total(b),
    decreases a.len(),
{
    if a.len() > 0 {
        lemma_pool_total_same_stakes(a.drop_last(), b.drop_last());
    }
}

/// Recomputing the odds leaves the stakes, and so the pool, as they are.
pub proof fn lemma_refresh_keeps_total(outcomes: Seq<Outcome>)
    ensures
        pool_total(with_refreshed_odds(outcomes)) == pool_total(outcomes),
{
    lemma_pool_total_same_stakes(with_refreshed_odds(outcomes), outcomes);
}

/// The odds are a function of the stakes alone: recomputing them a second
/// time, with no bet in between, changes nothing.
pub proof fn lemma_odds_idempotent(outcomes: Seq<Outcome>)
    ensures
        with_refreshed_odds(with_refreshed_odds(outcomes)) == with_refreshed_odds(outcomes),
{
    lemma_refresh_keeps_total(outcomes);
    assert(with_refreshed_odds(with_refreshed_odds(outcomes)) =~= with_refreshed_odds(outcomes));
}

/// A position without stakes on `n` outcomes.
pub open spec fn no_stakes(n: nat) -> Seq<BetOutcome> {
    Seq::new(n, |i: int| BetOutcome { amount: 0, odds_at_bet: 0 })
}

/// A position without stakes stakes nothing in total.
pub proof fn lemma_no_stakes_total(n: nat)
    ensures
        stake_total(no_stakes(n)) == 0,
    decreases n,
{
    if n > 0 {
        lemma_no_stakes_total((n - 1) as nat);
        assert(no_stakes(n).drop_last() =~= no_stakes((n - 1) as nat));
    }
}

/// Raising one stake of a position raises its total by as much.
pub proof fn lemma_stake_total_update(stakes: Seq<BetOutcome>, i: int, next: BetOutcome)
    requires
        0 <= i < stakes.len(),
    ensures
        stake_total(stakes.update(i, next)) == stake_total(stakes) - stakes[i].amount
            + next.amount,
    decreases stakes.len(),
{
    let updated = stakes.update(i, next);
    if i < stakes.len() - 1 {
        lemma_stake_total_update(stakes.drop_last(), i, next);
        assert(updated.drop_last() =~= stakes.drop_last().update(i, next));
    } else {
        assert(updated.drop_last() =~= stakes.drop_last());
    }
}

/// A position without stakes on `n` outcomes.
pub fn zeroed_stakes(n: usize) -> (stakes: Vec<BetOutcome>)
    ensures
        stakes@ == no_stakes(n as nat),
{
    let mut stakes: Vec<BetOutcome> = Vec::new();
    let mut i: usize = 0;
    while i < n
        invariant
            i <= n,
            stakes@ == no_stakes(i as nat),
        decreases n - i,
    {
        stakes.push(BetOutcome { amount: 0, odds_at_bet: 0 });
        i += 1;
        assert(stakes@ =~= no_stakes(i as nat));
    }
    stakes
}

impl Market {
    /// Sum of the stakes pooled on all outcomes.
    pub fn total_pool(&self) -> (total: u128)
        ensures
            total == pool_total(self.outcomes@),
    {
        let mut total: u128 = 0;
        let mut i: usize = 0;
        while i < self.outcomes.len()
            invariant
                i <= self.outcomes.len(),
                total == pool_total(self.outcomes@.take(i as int)),
                total <= i * u64::MAX,
            decreases self.outcomes.len() - i,
        {
            proof {
                let next = self.outcomes@.take(i + 1);
                assert(next.drop_last() =~= self.outcomes@.take(i as int));
                assert(i * u64::MAX + u64::MAX == (i + 1) * u64::MAX) by (nonlinear_arith);
                assert((i + 1) * u64::MAX <= usize::MAX * u64::MAX) by (nonlinear_arith)
                    requires i + 1 <= usize::MAX;
                assert(usize::MAX * u64::MAX <= u64::MAX * u64::MAX) by (nonlinear_arith)
                    requires usize::MAX <= u64::MAX;
                assert(u64::MAX * u64::MAX < u128::MAX) by (nonlinear_arith);
            }
            total = total + self.outcomes[i].total_amount as u128;
            i += 1;
        }
        assert(self.outcomes@.take(i as int) =~= self.outcomes@);
        total
    }

    /// Recomputes the odds of every outcome from the stakes.
    pub fn refresh_odds(&mut self)
        ensures
            final(self)@ == (MarketView {
                outcomes: with_refreshed_odds(old(self).outcomes@),
                ..old(self)@
            }),
    {
        let total = self.total_pool();
        let ghost before = self.outcomes@;
        let mut i: usize = 0;
        while i < self.outcomes.len()
            invariant
                i <= self.outcomes.len(),
                self.outcomes.len() == before.len(),
                total == pool_total(before),
                forall|j: int| 0 <= j < i ==> self.outcomes[j] == with_refreshed_odds(before)[j],
                forall|j: int| i <= j < before.len() ==> self.outcomes[j] == before[j],
                (MarketView { outcomes: before, ..self@ }) == old(self)@,
            decreases self.outcomes.len() - i,
        {
            let mut entry = self.outcomes[i];
            if total > entry.total_amount as u128 {
                entry.current_odds = ratio_bps(total, entry.total_amount);
            } else {
                entry.current_odds = EVEN_ODDS_BPS;
            }
            self.outcomes[i] = entry;
            i += 1;
        }
        assert(self.outcomes@ =~= with_refreshed_odds(before));
    }
}

impl Outcome {
    /// Bytes that a stored outcome takes.
    pub open spec fn stored_size() -> nat {
        (1 + 8 + 8 + 8) as nat
    }

    /// Bytes to set aside for a stored outcome.
    pub fn space() -> (n: usize)
        ensures
            n == Self::stored_size(),
    {
        1 + 8 + 8 + 8
    }
}

impl MarketView {
    /// Whether the texts of the market are within their bounds.
    pub open spec fn texts_bounded(self) -> bool {
        &&& byte_len(self.market_id) <= MAX_MARKET_ID_LENGTH
        &&& byte_len(self.title) <= MAX_TITLE_LENGTH
        &&& byte_len(self.description) <= MAX_DESCRIPTION_LENGTH
        &&& byte_len(self.category) <= MAX_CATEGORY_LENGTH
        &&& byte_len(self.resolution_source) <= MAX_RESOLUTION_SOURCE_LENGTH
    }

    /// Bytes that this market takes when stored: a tag of eight bytes, then
    /// every field at its width, a text or a list behind its length in four
    /// bytes, an optional value behind one byte.
    pub open spec fn stored_len(self) -> nat {
        (8 + 32 + (4 + byte_len(self.market_id)) + (4 + byte_len(self.title)) + (4 + byte_len(
            self.description,
        )) + (4 + byte_len(self.category)) + (4 + byte_len(self.resolution_source)) + 32 + 32
            + 32 + 8 + 8 + 1 + (4 + self.outcomes.len() * Outcome::stored_size()) + 2 + 2 + 8 + 8
            + 8 + 8 + 8 + 8 + 8 + 8 + (1 + 1) + 8 + 8) as nat
    }
}

impl Market {
    /// Bytes that a stored market takes at most.
    pub open spec fn stored_size() -> nat {
        (8 + 32 + (4 + MAX_MARKET_ID_LENGTH) + (4 + MAX_TITLE_LENGTH) + (4
            + MAX_DESCRIPTION_LENGTH) + (4 + MAX_CATEGORY_LENGTH) + (4
            + MAX_RESOLUTION_SOURCE_LENGTH) + 32 + 32 + 32 + 8 + 8 + 1 + (4 + MAX_OUTCOMES
            * Outcome::stored_size()) + 2 + 2 + 8 + 8 + 8 + 8 + 8 + 8 + 8 + 8 + (1 + 1) + 8 + 8) as nat
    }

    /// Bytes to set aside for a stored market.
    pub fn space() -> (n: usize)
        ensures
            n == Self::stored_size(),
    {
        8 + 32 + (4 + MAX_MARKET_ID_LENGTH) + (4 + MAX_TITLE_LENGTH) + (4
            + MAX_DESCRIPTION_LENGTH) + (4 + MAX_CATEGORY_LENGTH) + (4
            + MAX_RESOLUTION_SOURCE_LENGTH) + 32 + 32 + 32 + 8 + 8 + 1 + (4 + MAX_OUTCOMES
            * Outcome::space()) + 2 + 2 + 8 + 8 + 8 + 8 + 8 + 8 + 8 + 8 + (1 + 1) + 8 + 8
    }
}

/// A market that meets its invariants, with texts within their bounds, fits
/// the space set aside for it.
pub proof fn lemma_market_fits_space(market: MarketView)
    requires
        market.wf(),
        market.texts_bounded(),
    ensures
        market.stored_len() <= Market::stored_size(),
{
    assert(market.outcomes.len() * Outcome::stored_size() <= MAX_OUTCOMES
        * Outcome::stored_size()) by (nonlinear_arith)
        requires
            market.outcomes.len() <= MAX_OUTCOMES,
    ;
}

impl Position {
    /// Bytes that a stored position takes at most.
    pub open spec fn stored_size() -> nat {
        (8 + 32 + 32 + (4 + MAX_OUTCOMES * (8 + 8)) + 8 + 1 + 8 + 8 + 8) as nat
    }

    /// Bytes to set aside for a stored position.
    pub fn space() -> (n: usize)
        ensures
            n == Self::stored_size(),
    {
        8 + 32 + 32 + (4 + MAX_OUTCOMES * (8 + 8)) + 8 + 1 + 8 + 8 + 8
    }

    /// A position nobody has used yet.
    pub fn blank() -> (position: Position)
        ensures
            position@.is_blank(),
            position@.wf(),
            position@.outcomes.len() == 0,
            position.total_amount == 0,
            !position.claimed,
    {
        Position {
            owner: Address::zero(),
            market: Address::zero(),
            outcomes: Vec::new(),
            total_amount: 0,
            claimed: false,
            claimed_at: 0,
            created_at: 0,
            last_bet_at: 0,
        }
    }
}

impl LiquidityPool {
    /// Bytes that a stored pool takes.
    pub open spec fn stored_size() -> nat {
        (8 + 32 + 8 + 8 + 8 + 16 + 2 + 8 + 4 + 8) as nat
    }

    /// Bytes to set aside for a stored pool.
    pub fn space() -> (n: usize)
        ensures
            n == Self::stored_size(),
    {
        8 + 32 + 8 + 8 + 8 + 16 + 2 + 8 + 4 + 8
    }

    /// The pool of `market` before any liquidity: empty reserves, no shares.
    pub fn empty(market: Address, fee_rate_bps: u16, now: i64) -> (pool: LiquidityPool)
        ensures
            pool == (LiquidityPool {
                market,
                outcome_a_reserve: 0,
                outcome_b_reserve: 0,
                total_lp_tokens: 0,
                k_constant: 0,
                fee_rate_bps,
                total_fees_collected: 0,
                active_providers: 0,
                last_update_time: now,
            }),
            fee_rate_bps <= 10000 ==> pool.wf(),
    {
        LiquidityPool {
            market,
            outcome_a_reserve: 0,
            outcome_b_reserve: 0,
            total_lp_tokens: 0,
            k_constant: 0,
            fee_rate_bps,
            total_fees_collected: 0,
            active_providers: 0,
            last_update_time: now,
        }
    }
}

impl LiquidityPosition {
    /// Bytes that a stored liquidity position takes.
    pub open spec fn stored_size() -> nat {
        (8 + 32 + 32 + 8 + 8 + 8 + 8 + 1) as nat
    }

    /// Bytes to set aside for a stored liquidity position.
    pub fn space() -> (n: usize)
        ensures
            n == Self::stored_size(),
    {
        8 + 32 + 32 + 8 + 8 + 8 + 8 + 1
    }

    /// A position nobody has used yet.
    pub fn blank() -> (position: LiquidityPosition)
        ensures
            position.is_blank(),
            position.lp_tokens == 0,
            !position.is_active,
    {
        LiquidityPosition {
            owner: Address::zero(),
            market: Address::zero(),
            lp_tokens: 0,
            outcome_a_contributed: 0,
            outcome_b_contributed: 0,
            last_update_time: 0,
            is_active: false,
        }
    }
}

impl Market {
    /// The place where a market is written at its creation: nobody's yet.
    pub fn blank() -> (market: Market)
        ensures
            market.creator.is_zero(),
            market.outcomes@.len() == 0,
    {
        Market {
            key: Address::zero(),
            market_id: String::new(),
            title: String::new(),
            description: String::new(),
            category: String::new(),
            resolution_source: String::new(),
            creator: Address::zero(),
            oracle: Address::zero(),
            authority: Address::zero(),
            created_at: 0,
            end_time: 0,
            status: MarketStatus::Active,
            outcomes: Vec::new(),
            creator_fee_bps: 0,
            platform_fee_bps: 0,
            min_bet_amount: 0,
            max_bet_amount: 0,
            max_payout_per_bet: 0,
            total_volume: 0,
            total_bets: 0,
            total_liquidity: 0,
            total_claimed: 0,
            last_bet_time: 0,
            winning_outcome: None,
            resolution_timestamp: 0,
            payout_ratio: 0,
        }
    }
}

impl MarketResolution {
    /// The place where a resolution record is written at a market's creation.
    pub fn blank() -> (record: MarketResolution)
        ensures
            record@.is_blank(),
    {
        MarketResolution {
            market: Address::zero(),
            resolved: false,
            resolution_time: 0,
            winning_outcome: None,
            resolver: None,
            resolution_data: Vec::new(),
            dispute_period_end: None,
            payout_ratio: 0,
        }
    }
}

impl MarketResolutionView {
    /// A record that nothing has been written to yet: it belongs to no
    /// market, it is not resolved, it names no winning outcome and no
    /// resolver, it carries no evidence and no dispute period, and its payout
    /// ratio is zero.
    pub open spec fn is_blank(self) -> bool {
        &&& self.market.is_zero()
        &&& !self.resolved
        &&& self.resolution_time == 0
        &&& self.winning_outcome is None
        &&& self.resolver is None
        &&& self.resolution_data == Seq::<u8>::empty()
        &&& self.dispute_period_end is None
        &&& self.payout_ratio == 0
    }
}

} // verus!
