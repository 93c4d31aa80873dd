//! Error taxonomy of the escrow: every rejection is a typed, named reason,
//! and a rejected operation has no effect.

use vstd::prelude::*;

verus! {

/// Why an escrow operation was rejected.
#[derive(Clone, Copy, Debug, PartialEq, Eq)]
pub enum ErrorCode {
    /// State conflict: the order has already been filled or cancelled.
    OrderNotActive,
    /// The invoking identity is not the party the operation requires.
    Unauthorized,
    /// An involved account's token type does not match the order.
    WrongMint,
    /// A transfer's source account lacks the required balance.
    InsufficientFunds,
    /// An order already exists for this (maker, order_id) pair.
    OrderAlreadyExists,
    /// A supplied discriminant fails to reconstruct the derived address,
    /// or no viable discriminant exists for the seeds.
    InvalidAuthority,
}

} // verus!
