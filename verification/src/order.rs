//! The order record: the persistent state of one escrow.

use vstd::prelude::*;

use crate::keys::Pubkey;

verus! {

/// One escrow's record: parties, asset identities, quantities, the activity
/// flag, and the discriminant that makes the record's own derived address
/// valid. Everything but `is_active` is fixed at creation; `is_active`
/// moves from `true` to `false` exactly once, as the terminal step of a
/// successful execute or cancel, and never back.
#[derive(Clone, Copy, Debug)]
pub struct Order {
    /// The party that created the order; sole beneficiary of cancellation.
    pub maker: Pubkey,
    /// Caller-supplied; disambiguates concurrent orders from one maker.
    pub order_id: u64,
    /// The token type the maker escrowed.
    pub token_offer: Pubkey,
    /// The quantity escrowed.
    pub amount_offer: u64,
    /// The token type the maker wants in return.
    pub token_wanted: Pubkey,
    /// The quantity demanded.
    pub amount_wanted: u64,
    /// True from creation until exactly one of execute or cancel succeeds.
    pub is_active: bool,
    /// The derivation discriminant of the order's own address, stored so
    /// later operations can reconstruct the identical address without
    /// search.
    pub bump: u8,
}

impl Order {
    /// The width of the persisted record:
    /// maker(32) + order_id(8) + token_offer(32) + amount_offer(8) +
    /// token_wanted(32) + amount_wanted(8) + is_active(1) + bump(1).
    pub const LEN: usize = 32 + 8 + 32 + 8 + 32 + 8 + 1 + 1;
}

} // verus!
