//! The ledger's token accounts, and the transfer primitive the host's token
//! service provides: `transfer(from, to, authorizing_party, amount)`.
//!
//! Two accounts of one token type never hold more than that type's total
//! supply, which fits in 64 bits; operations that move funds between two
//! accounts therefore require the sum of their balances to fit in a `u64`.

use vstd::prelude::*;

use crate::errors::ErrorCode;
use crate::keys::Pubkey;
use crate::keys::pubkey_eq;

verus! {

/// One ledger account of a single token type: the type it holds (`mint`),
/// the party that may authorize debits (`owner`), and its balance.
#[derive(Clone, Copy, Debug)]
pub struct TokenAccount {
    pub mint: Pubkey,
    pub owner: Pubkey,
    pub amount: u64,
}

/// When a transfer of `amount` from `from`, authorized by `authority`,
/// succeeds: the authorizer owns the source, the accounts hold the same
/// token type, and the source balance suffices.
pub open spec fn transfer_ok(from: TokenAccount, to: TokenAccount, authority: Pubkey, amount: u64) -> bool {
    &&& authority@ == from.owner@
    &&& from.mint@ == to.mint@
    &&& amount <= from.amount
}

/// The reason a transfer is refused: the first failing check, in the order
/// the checks are made.
pub open spec fn transfer_error(from: TokenAccount, to: TokenAccount, authority: Pubkey, amount: u64) -> ErrorCode {
    if authority@ != from.owner@ {
        ErrorCode::Unauthorized
    } else if from.mint@ != to.mint@ {
        ErrorCode::WrongMint
    } else {
        ErrorCode::InsufficientFunds
    }
}

/// Move `amount` units from `from` to `to`, authorized by `authority`.
///
/// Either both balance updates apply, or neither: a refused transfer leaves
/// both accounts exactly as they were.
pub fn transfer(from: &mut TokenAccount, to: &mut TokenAccount, authority: &Pubkey, amount: u64) -> (r: Result<(), ErrorCode>)
    requires
        old(from).amount + old(to).amount <= u64::MAX,
    ensures
        r is Ok <==> transfer_ok(*old(from), *old(to), *authority, amount),
        r is Ok ==> *final(from) == (TokenAccount { amount: (old(from).amount - amount) as u64, ..*old(from) }),
        r is Ok ==> *final(to) == (TokenAccount { amount: (old(to).amount + amount) as u64, ..*old(to) }),
        r is Err ==> *final(from) == *old(from) && *final(to) == *old(to),
        r is Err ==> r == Err::<(), ErrorCode>(transfer_error(*old(from), *old(to), *authority, amount)),
{
    if !pubkey_eq(authority, &from.owner) {
        return Err(ErrorCode::Unauthorized);
    }
    if !pubkey_eq(&from.mint, &to.mint) {
        return Err(ErrorCode::WrongMint);
    }
    if amount > from.amount {
        return Err(ErrorCode::InsufficientFunds);
    }
    from.amount = from.amount - amount;
    to.amount = to.amount + amount;
    Ok(())
}

} // verus!
