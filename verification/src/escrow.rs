//! The escrow state machine: create, execute and cancel, the only three
//! operations that move an order between its two live states and drive the
//! escrow holding account's balance to zero exactly once.
//!
//! Each operation is all-or-nothing, as the host's transaction engine
//! makes it on the ledger: every check is made before any balance or flag
//! is touched, so a rejected operation returns its typed reason and leaves
//! every account and the order exactly as they were.

use vstd::prelude::*;

use crate::authority::derived_authority;
use crate::authority::escrow_seeds;
use crate::authority::find_escrow_address;
use crate::authority::find_order_address;
use crate::authority::order_address_ok;
use crate::authority::order_seeds;
use crate::authority::verify_order_address;
use crate::errors::ErrorCode;
use crate::keys::Pubkey;
use crate::keys::pubkey_eq;
use crate::order::Order;
use crate::registry::Registry;
use crate::registry::spec_registered;
use crate::token::TokenAccount;
use crate::token::transfer;
use crate::token::transfer_ok;

verus! {

/// The data-model invariant tying an order to its escrow holding account:
/// the holding account is of the offered token type, custodied under the
/// order's own derived address, and holds exactly `amount_offer` while the
/// order is active and exactly 0 once it is not.
pub open spec fn escrow_backed(order: Order, escrow: TokenAccount, order_address: Pubkey) -> bool {
    &&& escrow.mint@ == order.token_offer@
    &&& escrow.owner@ == order_address@
    &&& order.is_active ==> escrow.amount == order.amount_offer
    &&& !order.is_active ==> escrow.amount == 0
}

// ─── create ─────────────────────────────────────────────────────────────

/// The accounts a maker supplies to create an order: the maker's identity,
/// the account the offered funds leave, the offered token type, and the
/// program whose derivations custody the escrow.
#[derive(Clone, Copy, Debug)]
pub struct CreateOrder {
    pub maker: Pubkey,
    pub maker_token_account: TokenAccount,
    pub offer_mint: Pubkey,
    pub program_id: Pubkey,
}

/// What a successful creation leaves behind: the order record, its derived
/// address, and the freshly funded escrow holding account with its own
/// derived address.
#[derive(Clone, Copy, Debug)]
pub struct CreatedOrder {
    pub order: Order,
    pub order_address: Pubkey,
    pub escrow_token_account: TokenAccount,
    pub escrow_address: Pubkey,
}

/// When creation succeeds: the (maker, order_id) pair is new, both
/// derivations are viable, the maker's account is of the offered type and
/// the maker's to debit, and it holds the offered quantity.
pub open spec fn create_ok(
    registered: Seq<(Pubkey, u64)>,
    ctx: CreateOrder,
    order_id: u64,
    amount_offer: u64,
) -> bool {
    &&& !spec_registered(registered, ctx.maker@, order_id)
    &&& derived_authority(order_seeds(ctx.maker@, order_id), ctx.program_id@) matches Some(oa)
        && derived_authority(escrow_seeds(oa.0), ctx.program_id@) is Some
    &&& ctx.maker_token_account.mint@ == ctx.offer_mint@
    &&& ctx.maker@ == ctx.maker_token_account.owner@
    &&& amount_offer <= ctx.maker_token_account.amount
}

/// The reason a creation is refused: the first failing check, in the order
/// the checks are made.
pub open spec fn create_error(
    registered: Seq<(Pubkey, u64)>,
    ctx: CreateOrder,
    order_id: u64,
    amount_offer: u64,
) -> ErrorCode {
    if spec_registered(registered, ctx.maker@, order_id) {
        ErrorCode::OrderAlreadyExists
    } else if !(derived_authority(order_seeds(ctx.maker@, order_id), ctx.program_id@) matches Some(oa)
        && derived_authority(escrow_seeds(oa.0), ctx.program_id@) is Some) {
        ErrorCode::InvalidAuthority
    } else if ctx.maker_token_account.mint@ != ctx.offer_mint@ {
        ErrorCode::WrongMint
    } else if ctx.maker@ != ctx.maker_token_account.owner@ {
        ErrorCode::Unauthorized
    } else {
        ErrorCode::InsufficientFunds
    }
}

/// Instantiate an order and move the offered funds into escrow.
///
/// On success the record carries the supplied fields with `is_active`
/// true and the discriminant of its derivation; `amount_offer` units have
/// moved from the maker's account into a fresh holding account custodied
/// under the order's derived address; and the (maker, order_id) pair is
/// recorded. On failure nothing changes.
pub fn create_order(
    registry: &mut Registry,
    ctx: &mut CreateOrder,
    order_id: u64,
    amount_offer: u64,
    token_wanted: Pubkey,
    amount_wanted: u64,
) -> (r: Result<CreatedOrder, ErrorCode>)
    ensures
        r is Ok <==> create_ok(old(registry)@, *old(ctx), order_id, amount_offer),
        r matches Err(e) ==> {
            &&& *final(ctx) == *old(ctx)
            &&& final(registry)@ == old(registry)@
            &&& e == create_error(old(registry)@, *old(ctx), order_id, amount_offer)
        },
        r matches Ok(c) ==> {
            &&& c.order == (Order {
                maker: old(ctx).maker,
                order_id: order_id,
                token_offer: old(ctx).offer_mint,
                amount_offer: amount_offer,
                token_wanted: token_wanted,
                amount_wanted: amount_wanted,
                is_active: true,
                bump: c.order.bump,
            })
            &&& derived_authority(order_seeds(old(ctx).maker@, order_id), old(ctx).program_id@)
                == Some((c.order_address@, c.order.bump))
            &&& order_address_ok(old(ctx).maker@, order_id, c.order.bump, c.order_address@, old(ctx).program_id@)
            &&& (derived_authority(escrow_seeds(c.order_address@), old(ctx).program_id@) matches Some(ea)
                && ea.0 == c.escrow_address@)
            &&& c.escrow_token_account.mint@ == old(ctx).offer_mint@
            &&& c.escrow_token_account.owner@ == c.order_address@
            &&& c.escrow_token_account.amount == amount_offer
            &&& escrow_backed(c.order, c.escrow_token_account, c.order_address)
            &&& *final(ctx) == (CreateOrder {
                maker_token_account: TokenAccount {
                    amount: (old(ctx).maker_token_account.amount - amount_offer) as u64,
                    ..old(ctx).maker_token_account
                },
                ..*old(ctx)
            })
            &&& final(registry)@ == old(registry)@.push((old(ctx).maker, order_id))
        },
{
    if registry.contains(&ctx.maker, order_id) {
        return Err(ErrorCode::OrderAlreadyExists);
    }
    let (order_address, bump) = match find_order_address(&ctx.maker, order_id, &ctx.program_id) {
        Some(found) => found,
        None => {
            return Err(ErrorCode::InvalidAuthority);
        },
    };
    let escrow_address = match find_escrow_address(&order_address, &ctx.program_id) {
        Some(found) => found.0,
        None => {
            return Err(ErrorCode::InvalidAuthority);
        },
    };
    if !pubkey_eq(&ctx.maker_token_account.mint, &ctx.offer_mint) {
        return Err(ErrorCode::WrongMint);
    }
    if !pubkey_eq(&ctx.maker, &ctx.maker_token_account.owner) {
        return Err(ErrorCode::Unauthorized);
    }
    if amount_offer > ctx.maker_token_account.amount {
        return Err(ErrorCode::InsufficientFunds);
    }
    let order = Order {
        maker: ctx.maker,
        order_id,
        token_offer: ctx.offer_mint,
        amount_offer,
        token_wanted,
        amount_wanted,
        is_active: true,
        bump,
    };
    let mut escrow_token_account = TokenAccount {
        mint: ctx.offer_mint,
        owner: order_address,
        amount: 0,
    };
    let maker = ctx.maker;
    let moved = transfer(&mut ctx.maker_token_account, &mut escrow_token_account, &maker, amount_offer);
    match moved {
        Ok(()) => {},
        Err(e) => {
            proof {
                assert(false);
            }
            return Err(e);
        },
    }
    registry.record(maker, order_id);
    Ok(CreatedOrder { order, order_address, escrow_token_account, escrow_address })
}

// ─── execute ────────────────────────────────────────────────────────────

/// The accounts involved in filling an order: the record and its address,
/// the taker's identity, the taker's paying and receiving accounts, the
/// maker's receiving account, and the escrow holding account.
#[derive(Clone, Copy, Debug)]
pub struct ExecuteOrder {
    pub order: Order,
    pub order_address: Pubkey,
    pub taker: Pubkey,
    pub taker_token_account: TokenAccount,
    pub taker_offer_account: TokenAccount,
    pub maker_wanted_account: TokenAccount,
    pub escrow_token_account: TokenAccount,
    pub program_id: Pubkey,
}

/// Whether the stored discriminant reconstructs the order's address: the
/// fail-closed authority check of every operation that moves escrowed
/// funds.
pub open spec fn execute_authority_ok(ctx: ExecuteOrder) -> bool {
    order_address_ok(ctx.order.maker@, ctx.order.order_id, ctx.order.bump, ctx.order_address@, ctx.program_id@)
}

/// When an execute succeeds: the order is active, the authority
/// reconstructs, all three supplied accounts are of the declared token
/// types, and the taker controls and can fund the paying account.
pub open spec fn execute_ok(ctx: ExecuteOrder) -> bool {
    &&& ctx.order.is_active
    &&& execute_authority_ok(ctx)
    &&& ctx.taker_token_account.mint@ == ctx.order.token_wanted@
    &&& ctx.taker_offer_account.mint@ == ctx.order.token_offer@
    &&& ctx.maker_wanted_account.mint@ == ctx.order.token_wanted@
    &&& ctx.taker@ == ctx.taker_token_account.owner@
    &&& ctx.order.amount_wanted <= ctx.taker_token_account.amount
}

/// The reason an execute is refused: the first failing check, in the
/// order the checks are made.
pub open spec fn execute_error(ctx: ExecuteOrder) -> ErrorCode {
    if !ctx.order.is_active {
        ErrorCode::OrderNotActive
    } else if !execute_authority_ok(ctx) {
        ErrorCode::InvalidAuthority
    } else if ctx.taker_token_account.mint@ != ctx.order.token_wanted@
        || ctx.taker_offer_account.mint@ != ctx.order.token_offer@
        || ctx.maker_wanted_account.mint@ != ctx.order.token_wanted@ {
        ErrorCode::WrongMint
    } else if ctx.taker@ != ctx.taker_token_account.owner@ {
        ErrorCode::Unauthorized
    } else {
        ErrorCode::InsufficientFunds
    }
}

/// The state a successful execute leaves: `amount_wanted` moved from the
/// taker's paying account to the maker's receiving account, `amount_offer`
/// moved from escrow to the taker's receiving account, and the order
/// terminally inactive.
pub open spec fn execute_apply(ctx: ExecuteOrder) -> ExecuteOrder {
    ExecuteOrder {
        order: Order { is_active: false, ..ctx.order },
        taker_token_account: TokenAccount {
            amount: (ctx.taker_token_account.amount - ctx.order.amount_wanted) as u64,
            ..ctx.taker_token_account
        },
        maker_wanted_account: TokenAccount {
            amount: (ctx.maker_wanted_account.amount + ctx.order.amount_wanted) as u64,
            ..ctx.maker_wanted_account
        },
        escrow_token_account: TokenAccount {
            amount: (ctx.escrow_token_account.amount - ctx.order.amount_offer) as u64,
            ..ctx.escrow_token_account
        },
        taker_offer_account: TokenAccount {
            amount: (ctx.taker_offer_account.amount + ctx.order.amount_offer) as u64,
            ..ctx.taker_offer_account
        },
        ..ctx
    }
}

/// Fill the order: pay the maker from the taker, release the escrow to
/// the taker under the re-derived authority, and retire the order.
///
/// Both legs and the flag flip apply together or not at all; a refused
/// execute returns its typed reason and changes nothing.
pub fn execute_order(ctx: &mut ExecuteOrder) -> (r: Result<(), ErrorCode>)
    requires
        escrow_backed(old(ctx).order, old(ctx).escrow_token_account, old(ctx).order_address),
        old(ctx).taker_token_account.amount + old(ctx).maker_wanted_account.amount <= u64::MAX,
        old(ctx).escrow_token_account.amount + old(ctx).taker_offer_account.amount <= u64::MAX,
    ensures
        r is Ok <==> execute_ok(*old(ctx)),
        r is Ok ==> *final(ctx) == execute_apply(*old(ctx)),
        r is Ok ==> escrow_backed(final(ctx).order, final(ctx).escrow_token_account, final(ctx).order_address),
        r matches Err(e) ==> *final(ctx) == *old(ctx) && e == execute_error(*old(ctx)),
{
    if !ctx.order.is_active {
        return Err(ErrorCode::OrderNotActive);
    }
    if !verify_order_address(&ctx.order.maker, ctx.order.order_id, ctx.order.bump, &ctx.order_address, &ctx.program_id) {
        return Err(ErrorCode::InvalidAuthority);
    }
    if !pubkey_eq(&ctx.taker_token_account.mint, &ctx.order.token_wanted) {
        return Err(ErrorCode::WrongMint);
    }
    if !pubkey_eq(&ctx.taker_offer_account.mint, &ctx.order.token_offer) {
        return Err(ErrorCode::WrongMint);
    }
    if !pubkey_eq(&ctx.maker_wanted_account.mint, &ctx.order.token_wanted) {
        return Err(ErrorCode::WrongMint);
    }
    if !pubkey_eq(&ctx.taker, &ctx.taker_token_account.owner) {
        return Err(ErrorCode::Unauthorized);
    }
    if ctx.order.amount_wanted > ctx.taker_token_account.amount {
        return Err(ErrorCode::InsufficientFunds);
    }
    let taker = ctx.taker;
    let to_maker = transfer(
        &mut ctx.taker_token_account,
        &mut ctx.maker_wanted_account,
        &taker,
        ctx.order.amount_wanted,
    );
    match to_maker {
        Ok(()) => {},
        Err(e) => {
            proof {
                assert(false);
            }
            return Err(e);
        },
    }
    let order_address = ctx.order_address;
    let to_taker = transfer(
        &mut ctx.escrow_token_account,
        &mut ctx.taker_offer_account,
        &order_address,
        ctx.order.amount_offer,
    );
    match to_taker {
        Ok(()) => {},
        Err(e) => {
            proof {
                assert(false);
            }
            return Err(e);
        },
    }
    ctx.order.is_active = false;
    Ok(())
}

// ─── cancel ─────────────────────────────────────────────────────────────

/// The accounts involved in cancelling an order: the record and its
/// address, the invoking identity, the maker's account to refund, and the
/// escrow holding account.
#[derive(Clone, Copy, Debug)]
pub struct CancelOrder {
    pub order: Order,
    pub order_address: Pubkey,
    pub maker: Pubkey,
    pub maker_token_account: TokenAccount,
    pub escrow_token_account: TokenAccount,
    pub program_id: Pubkey,
}

/// Whether the stored discriminant reconstructs the order's address for a
/// cancellation.
pub open spec fn cancel_authority_ok(ctx: CancelOrder) -> bool {
    order_address_ok(ctx.order.maker@, ctx.order.order_id, ctx.order.bump, ctx.order_address@, ctx.program_id@)
}

/// When a cancel succeeds: the invoker is the maker, the order is active,
/// the authority reconstructs, and the refund account is of the offered
/// token type.
pub open spec fn cancel_ok(ctx: CancelOrder) -> bool {
    &&& ctx.maker@ == ctx.order.maker@
    &&& ctx.order.is_active
    &&& cancel_authority_ok(ctx)
    &&& ctx.maker_token_account.mint@ == ctx.order.token_offer@
}

/// The reason a cancel is refused: the first failing check, in the order
/// the checks are made. An identity other than the maker is refused
/// whatever the order's state.
pub open spec fn cancel_error(ctx: CancelOrder) -> ErrorCode {
    if ctx.maker@ != ctx.order.maker@ {
        ErrorCode::Unauthorized
    } else if !ctx.order.is_active {
        ErrorCode::OrderNotActive
    } else if !cancel_authority_ok(ctx) {
        ErrorCode::InvalidAuthority
    } else {
        ErrorCode::WrongMint
    }
}

/// The state a successful cancel leaves: `amount_offer` returned from
/// escrow to the maker's account, and the order terminally inactive.
pub open spec fn cancel_apply(ctx: CancelOrder) -> CancelOrder {
    CancelOrder {
        order: Order { is_active: false, ..ctx.order },
        maker_token_account: TokenAccount {
            amount: (ctx.maker_token_account.amount + ctx.order.amount_offer) as u64,
            ..ctx.maker_token_account
        },
        escrow_token_account: TokenAccount {
            amount: (ctx.escrow_token_account.amount - ctx.order.amount_offer) as u64,
            ..ctx.escrow_token_account
        },
        ..ctx
    }
}

/// Cancel the order: return the escrowed funds to the maker under the
/// re-derived authority and retire the order.
///
/// Only the maker may cancel; any other identity is refused with the
/// authorization error whatever the order's state. A refused cancel
/// changes nothing.
pub fn cancel_order(ctx: &mut CancelOrder) -> (r: Result<(), ErrorCode>)
    requires
        escrow_backed(old(ctx).order, old(ctx).escrow_token_account, old(ctx).order_address),
        old(ctx).escrow_token_account.amount + old(ctx).maker_token_account.amount <= u64::MAX,
    ensures
        r is Ok <==> cancel_ok(*old(ctx)),
        r is Ok ==> *final(ctx) == cancel_apply(*old(ctx)),
        r is Ok ==> escrow_backed(final(ctx).order, final(ctx).escrow_token_account, final(ctx).order_address),
        r matches Err(e) ==> *final(ctx) == *old(ctx) && e == cancel_error(*old(ctx)),
{
    if !pubkey_eq(&ctx.maker, &ctx.order.maker) {
        return Err(ErrorCode::Unauthorized);
    }
    if !ctx.order.is_active {
        return Err(ErrorCode::OrderNotActive);
    }
    if !verify_order_address(&ctx.order.maker, ctx.order.order_id, ctx.order.bump, &ctx.order_address, &ctx.program_id) {
        return Err(ErrorCode::InvalidAuthority);
    }
    if !pubkey_eq(&ctx.maker_token_account.mint, &ctx.order.token_offer) {
        return Err(ErrorCode::WrongMint);
    }
    let order_address = ctx.order_address;
    let refund = transfer(
        &mut ctx.escrow_token_account,
        &mut ctx.maker_token_account,
        &order_address,
        ctx.order.amount_offer,
    );
    match refund {
        Ok(()) => {},
        Err(e) => {
            proof {
                assert(false);
            }
            return Err(e);
        },
    }
    ctx.order.is_active = false;
    Ok(())
}

} // verus!
