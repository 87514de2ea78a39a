use vstd::prelude::*;
use crate::address::Address;

verus! {

/// What is kept of one user over all markets.
#[derive(Clone, Copy, Debug, PartialEq, Eq)]
pub struct UserProfile {
    pub owner: Address,
    pub total_volume: u64,
    pub total_pnl: i64,
    pub markets_traded: u32,
    /// Share of winning bets, in basis points.
    pub win_rate: u16,
    pub created_at: i64,
    pub last_active: i64,
    pub reputation_score: u32,
    pub bump: u8,
}

impl UserProfile {
    /// Bytes that a stored profile takes.
    pub open spec fn stored_size() -> nat {
        (8 + 32 + 8 + 8 + 4 + 2 + 8 + 8 + 4 + 1) as nat
    }

    /// Bytes to set aside for a stored profile.
    pub fn space() -> (n: usize)
        ensures
            n == Self::stored_size(),
    {
        8 + 32 + 8 + 8 + 4 + 2 + 8 + 8 + 4 + 1
    }
}

/// The side of a trade.
#[derive(Clone, Copy, Debug, PartialEq, Eq, Structural)]
pub enum TradeType {
    Buy,
    Sell,
}

/// The record of one trade.
#[derive(Clone, Copy, Debug, PartialEq, Eq)]
pub struct Trade {
    pub trader: Address,
    pub market: Address,
    pub outcome_id: u8,
    pub trade_type: TradeType,
    pub shares: u64,
    pub price: u64,
    pub total_cost: u64,
    pub fee_paid: u64,
    pub timestamp: i64,
    pub bump: u8,
}

impl Trade {
    /// Bytes that a stored trade takes.
    pub open spec fn stored_size() -> nat {
        (8 + 32 + 32 + 1 + 1 + 8 + 8 + 8 + 8 + 8 + 1) as nat
    }

    /// Bytes to set aside for a stored trade.
    pub fn space() -> (n: usize)
        ensures
            n == Self::stored_size(),
    {
        8 + 32 + 32 + 1 + 1 + 8 + 8 + 8 + 8 + 8 + 1
    }
}

/// Most bytes of an oracle's name.
pub const MAX_ORACLE_NAME_LENGTH: usize = 50;

/// Most bytes of an oracle's description.
pub const MAX_ORACLE_DESCRIPTION_LENGTH: usize = 200;

/// What is kept of one oracle.
#[derive(Clone, Debug, PartialEq, Eq)]
pub struct Oracle {
    pub authority: Address,
    pub name: String,
    pub description: String,
    pub reputation_score: u32,
    pub total_resolutions: u32,
    pub accurate_resolutions: u32,
    pub created_at: i64,
    pub is_active: bool,
    pub bump: u8,
}

impl Oracle {
    /// Bytes that a stored oracle takes at most.
    pub open spec fn stored_size() -> nat {
        (8 + 32 + (4 + MAX_ORACLE_NAME_LENGTH) + (4 + MAX_ORACLE_DESCRIPTION_LENGTH) + 4 + 4 + 4
            + 8 + 1 + 1) as nat
    }

    /// Bytes to set aside for a stored oracle.
    pub fn space() -> (n: usize)
        ensures
            n == Self::stored_size(),
    {
        8 + 32 + (4 + MAX_ORACLE_NAME_LENGTH) + (4 + MAX_ORACLE_DESCRIPTION_LENGTH) + 4 + 4 + 4
            + 8 + 1 + 1
    }
}

/// What is kept of the platform as a whole.
#[derive(Clone, Copy, Debug, PartialEq, Eq)]
pub struct GlobalState {
    pub authority: Address,
    pub total_markets: u32,
    pub total_volume: u64,
    pub total_fees_collected: u64,
    /// In basis points.
    pub platform_fee_rate: u16,
    /// In basis points.
    pub oracle_fee_rate: u16,
    pub min_market_duration: i64,
    pub max_market_duration: i64,
    pub paused: bool,
    pub bump: u8,
}

impl GlobalState {
    /// Bytes that the stored platform state takes.
    pub open spec fn stored_size() -> nat {
        (8 + 32 + 4 + 8 + 8 + 2 + 2 + 8 + 8 + 1 + 1) as nat
    }

    /// Bytes to set aside for the stored platform state.
    pub fn space() -> (n: usize)
        ensures
            n == Self::stored_size(),
    {
        8 + 32 + 4 + 8 + 8 + 2 + 2 + 8 + 8 + 1 + 1
    }
}

/// One point of a price history.
#[derive(Clone, Copy, Debug, PartialEq, Eq)]
pub struct PriceHistory {
    pub timestamp: i64,
    pub price: u64,
    pub volume: u64,
}

impl PriceHistory {
    /// Bytes that a stored point takes.
    pub open spec fn stored_size() -> nat {
        (8 + 8 + 8) as nat
    }

    /// Bytes to set aside for a stored point.
    pub fn space() -> (n: usize)
        ensures
            n == Self::stored_size(),
    {
        8 + 8 + 8
    }
}

} // verus!
