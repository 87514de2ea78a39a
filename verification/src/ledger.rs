use vstd::prelude::*;
use crate::error::PredictionMarketError;

verus! {

/// A balance of one token held in custody.
#[derive(Clone, Copy, Debug, PartialEq, Eq)]
pub struct TokenAccount {
    pub amount: u64,
}

/// The issuer of liquidity shares: it knows how many are outstanding.
#[derive(Clone, Copy, Debug, PartialEq, Eq)]
pub struct Mint {
    pub supply: u64,
}

/// Why a transfer of `amount` between two balances cannot happen, if it cannot.
pub open spec fn transfer_rejection(from: u64, to: u64, amount: u64) -> Option<
    PredictionMarketError,
> {
    if from < amount {
        Some(PredictionMarketError::InsufficientTokenBalance)
    } else if to + amount > u64::MAX {
        Some(PredictionMarketError::ArithmeticOverflow)
    } else {
        None
    }
}

/// Moves `amount` from one account to another, or moves nothing.
pub fn transfer(from: &mut TokenAccount, to: &mut TokenAccount, amount: u64) -> (r: Result<
    (),
    PredictionMarketError,
>)
    ensures
        match r {
            Ok(_) => {
                &&& transfer_rejection(old(from).amount, old(to).amount, amount) is None
                &&& final(from).amount == old(from).amount - amount
                &&& final(to).amount == old(to).amount + amount
            },
            Err(e) => {
                &&& transfer_rejection(old(from).amount, old(to).amount, amount) == Some(e)
                &&& *final(from) == *old(from)
                &&& *final(to) == *old(to)
            },
        },
{
    if from.amount < amount {
        return Err(PredictionMarketError::InsufficientTokenBalance);
    }
    if to.amount > u64::MAX - amount {
        return Err(PredictionMarketError::ArithmeticOverflow);
    }
    from.amount = from.amount - amount;
    to.amount = to.amount + amount;
    Ok(())
}

/// Why `amount` new shares cannot be issued to a balance, if they cannot.
pub open spec fn mint_rejection(supply: u64, to: u64, amount: u64) -> Option<
    PredictionMarketError,
> {
    if supply + amount > u64::MAX || to + amount > u64::MAX {
        Some(PredictionMarketError::ArithmeticOverflow)
    } else {
        None
    }
}

/// Issues `amount` new shares to an account, or issues nothing.
pub fn mint_to(mint: &mut Mint, to: &mut TokenAccount, amount: u64) -> (r: Result<
    (),
    PredictionMarketError,
>)
    ensures
        match r {
            Ok(_) => {
                &&& mint_rejection(old(mint).supply, old(to).amount, amount) is None
                &&& final(mint).supply == old(mint).supply + amount
                &&& final(to).amount == old(to).amount + amount
            },
            Err(e) => {
                &&& mint_rejection(old(mint).supply, old(to).amount, amount) == Some(e)
                &&& *final(mint) == *old(mint)
                &&& *final(to) == *old(to)
            },
        },
{
    if mint.supply > u64::MAX - amount || to.amount > u64::MAX - amount {
        return Err(PredictionMarketError::ArithmeticOverflow);
    }
    mint.supply = mint.supply + amount;
    to.amount = to.amount + amount;
    Ok(())
}

/// Why `amount` shares cannot be redeemed from a balance, if they cannot.
pub open spec fn burn_rejection(supply: u64, from: u64, amount: u64) -> Option<
    PredictionMarketError,
> {
    if from < amount {
        Some(PredictionMarketError::InsufficientTokenBalance)
    } else if supply < amount {
        Some(PredictionMarketError::ArithmeticUnderflow)
    } else {
        None
    }
}

/// Redeems `amount` shares from an account, or redeems nothing.
pub fn burn(mint: &mut Mint, from: &mut TokenAccount, amount: u64) -> (r: Result<
    (),
    PredictionMarketError,
>)
    ensures
        match r {
            Ok(_) => {
                &&& burn_rejection(old(mint).supply, old(from).amount, amount) is None
                &&& final(mint).supply == old(mint).supply - amount
                &&& final(from).amount == old(from).amount - amount
            },
            Err(e) => {
                &&& burn_rejection(old(mint).supply, old(from).amount, amount) == Some(e)
                &&& *final(mint) == *old(mint)
                &&& *final(from) == *old(from)
            },
        },
{
    if from.amount < amount {
        return Err(PredictionMarketError::InsufficientTokenBalance);
    }
    if mint.supply < amount {
        return Err(PredictionMarketError::ArithmeticUnderflow);
    }
    mint.supply = mint.supply - amount;
    from.amount = from.amount - amount;
    Ok(())
}

} // verus!
