//! A prediction-market settlement engine: wagers pooled per outcome, a
//! constant-product liquidity pool, oracle resolution, and exact payouts.
//!
//! Every operation is a single transition on plain state values. It either
//! applies in full or returns a reason code and leaves every entity as it was.
//! Balances are whole numbers of the smallest unit; rates are basis points;
//! products are formed in 128 bits before they are divided.
//!
//! The engine books two things side by side and never mixes their figures:
//! the stakes on the outcomes of a market, which are paid out in proportion
//! once the market is resolved, and the reserves of the market's liquidity
//! pool, against which shares are issued and redeemed.

pub mod address;
pub mod conservation;
pub mod derivation;
pub mod error;
pub mod instructions;
pub mod ledger;
pub mod math;
pub mod pool_laws;
pub mod records;
pub mod state;
pub mod utils;
