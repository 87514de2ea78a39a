use vstd::prelude::*;

pub mod add_liquidity;
pub mod claim_winnings;
pub mod resolve_market;
pub mod update_market;
pub mod create_market;
pub mod place_bet;
pub mod remove_liquidity;

verus! {

/// The context of an operation that touches no entity.
#[derive(Clone, Copy, Debug, PartialEq, Eq)]
pub struct Initialize {
}

} // verus!
