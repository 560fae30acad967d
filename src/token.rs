use vstd::prelude::*;

use crate::address::Address;
use crate::error::EscrowError;

verus! {

/// A fungible asset type and its declared decimal precision.
#[derive(Clone, Copy, Debug)]
pub struct Mint {
    pub key: Address,
    pub decimals: u8,
}

/// A custodial balance of one asset, controlled by `owner`.
#[derive(Clone, Copy, Debug)]
pub struct TokenAccount {
    pub mint: Address,
    pub owner: Address,
    pub amount: u64,
}

/// The first reason a checked transfer is refused, if any.
pub open spec fn transfer_error(
    from: TokenAccount,
    to: TokenAccount,
    mint: Mint,
    authority: Address,
    amount: u64,
    decimals: u8,
) -> Option<EscrowError> {
    if from.mint != mint.key || to.mint != mint.key {
        Some(EscrowError::AssetMismatch)
    } else if decimals != mint.decimals {
        Some(EscrowError::DecimalMismatch)
    } else if from.owner != authority {
        Some(EscrowError::Unauthorized)
    } else if from.amount < amount {
        Some(EscrowError::InsufficientFunds)
    } else if to.amount + amount > u64::MAX {
        Some(EscrowError::AmountOverflow)
    } else {
        None
    }
}

/// `acct` with `delta` added to its balance.
pub open spec fn credited(acct: TokenAccount, delta: int) -> TokenAccount {
    TokenAccount { amount: (acct.amount + delta) as u64, ..acct }
}

/// Moves `amount` of `mint` from `from` to `to`, authorized by `authority`,
/// after checking the asset, the declared decimals, the authority and the balance.
pub fn transfer_checked(
    from: &mut TokenAccount,
    to: &mut TokenAccount,
    mint: &Mint,
    authority: Address,
    amount: u64,
    decimals: u8,
) -> (r: Result<(), EscrowError>)
    ensures
        r == match transfer_error(*old(from), *old(to), *mint, authority, amount, decimals) {
            Some(e) => Err::<(), EscrowError>(e),
            None => Ok(()),
        },
        r is Ok ==> *final(from) == credited(*old(from), -amount) && *final(to) == credited(
            *old(to),
            amount as int,
        ),
        r is Err ==> *final(from) == *old(from) && *final(to) == *old(to),
{
    if !from.mint.same_as(&mint.key) || !to.mint.same_as(&mint.key) {
        return Err(EscrowError::AssetMismatch);
    }
    if decimals != mint.decimals {
        return Err(EscrowError::DecimalMismatch);
    }
    if !from.owner.same_as(&authority) {
        return Err(EscrowError::Unauthorized);
    }
    if from.amount < amount {
        return Err(EscrowError::InsufficientFunds);
    }
    if to.amount > u64::MAX - amount {
        return Err(EscrowError::AmountOverflow);
    }
    from.amount = from.amount - amount;
    to.amount = to.amount + amount;
    Ok(())
}

} // verus!
