//! The escrow's guarantees, stated and proved over the same spec
//! functions the operations' contracts use.
//!
//! Together with the operations' own contracts — a refused operation
//! changes nothing, a successful one leaves exactly the applied state —
//! these pin down the lifecycle: funds leave custody through exactly one
//! of a fill paying the maker or a cancellation refunding the maker.

use vstd::prelude::*;

use crate::errors::ErrorCode;
use crate::escrow::CancelOrder;
use crate::escrow::ExecuteOrder;
use crate::escrow::cancel_apply;
use crate::escrow::cancel_error;
use crate::escrow::cancel_ok;
use crate::escrow::escrow_backed;
use crate::escrow::execute_apply;
use crate::escrow::execute_authority_ok;
use crate::escrow::execute_error;
use crate::escrow::execute_ok;

verus! {

/// At most one of execute and cancel succeeds over an order's lifetime:
/// both terminal operations leave the order inactive, and on an inactive
/// order an execute is refused with the state-conflict error, whatever
/// accounts are wired in.
pub proof fn law_single_fill_execute(a: ExecuteOrder, c: CancelOrder, b: ExecuteOrder)
    ensures
        execute_ok(a) ==> !execute_apply(a).order.is_active,
        cancel_ok(c) ==> !cancel_apply(c).order.is_active,
        !b.order.is_active ==> !execute_ok(b) && execute_error(b) == ErrorCode::OrderNotActive,
{
}

/// The counterpart for a retried cancel: once the order is inactive, a
/// cancel by the maker is refused with the state-conflict error, whatever
/// accounts are wired in.
pub proof fn law_single_fill_cancel(b: CancelOrder)
    ensures
        !b.order.is_active && b.maker@ == b.order.maker@ ==> !cancel_ok(b) && cancel_error(b)
            == ErrorCode::OrderNotActive,
{
}

/// Conservation: a successful execute moves exactly `amount_wanted`
/// between the wanted-token accounts and exactly `amount_offer` between
/// the holding and offer-token accounts; both pair sums are unchanged.
pub proof fn law_conservation(ctx: ExecuteOrder)
    ensures
        execute_ok(ctx) && escrow_backed(ctx.order, ctx.escrow_token_account, ctx.order_address)
            && ctx.taker_token_account.amount + ctx.maker_wanted_account.amount <= u64::MAX
            && ctx.escrow_token_account.amount + ctx.taker_offer_account.amount <= u64::MAX ==> {
            let after = execute_apply(ctx);
            &&& after.maker_wanted_account.amount == ctx.maker_wanted_account.amount
                + ctx.order.amount_wanted
            &&& after.taker_token_account.amount + after.maker_wanted_account.amount
                == ctx.taker_token_account.amount + ctx.maker_wanted_account.amount
            &&& after.taker_offer_account.amount == ctx.taker_offer_account.amount
                + ctx.order.amount_offer
            &&& after.escrow_token_account.amount + after.taker_offer_account.amount
                == ctx.escrow_token_account.amount + ctx.taker_offer_account.amount
            &&& after.escrow_token_account.amount == 0
        },
{
}

/// A successful cancel returns exactly what was escrowed: the maker's
/// account gains `amount_offer` and the holding account reaches zero.
pub proof fn law_cancellation_refunds_escrow(ctx: CancelOrder)
    ensures
        cancel_ok(ctx) && escrow_backed(ctx.order, ctx.escrow_token_account, ctx.order_address)
            && ctx.escrow_token_account.amount + ctx.maker_token_account.amount <= u64::MAX ==> {
            let after = cancel_apply(ctx);
            &&& after.maker_token_account.amount == ctx.maker_token_account.amount
                + ctx.order.amount_offer
            &&& after.escrow_token_account.amount == 0
        },
{
}

/// Authorization: a cancel invoked by any identity other than the order's
/// maker is refused with the authorization error, whatever the order's
/// state and accounts.
pub proof fn law_cancel_is_makers_alone(ctx: CancelOrder)
    ensures
        ctx.maker@ != ctx.order.maker@ ==> !cancel_ok(ctx) && cancel_error(ctx)
            == ErrorCode::Unauthorized,
{
}

/// Type safety: on an active order with a reconstructing authority, an
/// execute with any combination of wrongly-typed supplied accounts is
/// refused with the type-mismatch error.
pub proof fn law_execute_type_safety(ctx: ExecuteOrder)
    ensures
        ctx.order.is_active && execute_authority_ok(ctx) && (ctx.taker_token_account.mint@
            != ctx.order.token_wanted@ || ctx.taker_offer_account.mint@ != ctx.order.token_offer@
            || ctx.maker_wanted_account.mint@ != ctx.order.token_wanted@) ==> !execute_ok(ctx)
            && execute_error(ctx) == ErrorCode::WrongMint,
{
}

} // verus!
