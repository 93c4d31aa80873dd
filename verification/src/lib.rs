//! A non-custodial over-the-counter token-swap escrow, verified.
//!
//! A maker locks a quantity of one token type and names the type and
//! quantity of a different token wanted in return; any taker may complete
//! the trade atomically, or the maker may cancel and reclaim the funds.
//! Escrowed funds leave custody through exactly one of those two outcomes,
//! never through any other path, and never partially.

mod authority;
mod codec;
mod errors;
mod escrow;
mod keys;
mod laws;
mod order;
mod registry;
mod token;

pub use authority::derived_address;
pub use authority::derived_authority;
pub use authority::escrow_seeds;
pub use authority::find_escrow_address;
pub use authority::find_order_address;
pub use authority::order_address_ok;
pub use authority::order_seeds;
pub use authority::verify_order_address;
pub use codec::decode_order;
pub use codec::encode_order;
pub use codec::law_codec_round_trip;
pub use codec::spec_active_byte;
pub use codec::spec_encode_order;
pub use errors::ErrorCode;
pub use escrow::CancelOrder;
pub use escrow::CreateOrder;
pub use escrow::CreatedOrder;
pub use escrow::ExecuteOrder;
pub use escrow::cancel_apply;
pub use escrow::cancel_authority_ok;
pub use escrow::cancel_error;
pub use escrow::cancel_ok;
pub use escrow::cancel_order;
pub use escrow::create_error;
pub use escrow::create_ok;
pub use escrow::create_order;
pub use escrow::escrow_backed;
pub use escrow::execute_apply;
pub use escrow::execute_authority_ok;
pub use escrow::execute_error;
pub use escrow::execute_ok;
pub use escrow::execute_order;
pub use keys::Pubkey;
pub use keys::pubkey_eq;
pub use laws::law_cancel_is_makers_alone;
pub use laws::law_cancellation_refunds_escrow;
pub use laws::law_conservation;
pub use laws::law_execute_type_safety;
pub use laws::law_single_fill_cancel;
pub use laws::law_single_fill_execute;
pub use order::Order;
pub use registry::Registry;
pub use registry::spec_registered;
pub use token::TokenAccount;
pub use token::transfer;
pub use token::transfer_error;
pub use token::transfer_ok;
