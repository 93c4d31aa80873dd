use otc_escrow::CancelOrder;
use otc_escrow::CreateOrder;
use otc_escrow::CreatedOrder;
use otc_escrow::ErrorCode;
use otc_escrow::ExecuteOrder;
use otc_escrow::Pubkey;
use otc_escrow::Registry;
use otc_escrow::TokenAccount;
use otc_escrow::cancel_order;
use otc_escrow::create_order;
use otc_escrow::execute_order;
use otc_escrow::pubkey_eq;

fn pk(b: u8) -> Pubkey {
    Pubkey::new([b; 32])
}

const MAKER: u8 = 1;
const TAKER: u8 = 2;
const MINT_A: u8 = 10;
const MINT_B: u8 = 11;
const PROGRAM: u8 = 9;

/// A maker with 1000 A creates order 1: 1000 A offered, 500 B wanted.
fn make_order(registry: &mut Registry) -> CreatedOrder {
    let mut ctx = CreateOrder {
        maker: pk(MAKER),
        maker_token_account: TokenAccount { mint: pk(MINT_A), owner: pk(MAKER), amount: 1000 },
        offer_mint: pk(MINT_A),
        program_id: pk(PROGRAM),
    };
    let created = create_order(registry, &mut ctx, 1, 1000, pk(MINT_B), 500).unwrap();
    assert_eq!(ctx.maker_token_account.amount, 0);
    assert_eq!(created.escrow_token_account.amount, 1000);
    assert!(created.order.is_active);
    assert_eq!(created.order.order_id, 1);
    assert_eq!(created.order.amount_offer, 1000);
    assert_eq!(created.order.amount_wanted, 500);
    assert!(pubkey_eq(&created.order.token_offer, &pk(MINT_A)));
    assert!(pubkey_eq(&created.order.token_wanted, &pk(MINT_B)));
    assert!(pubkey_eq(&created.order.maker, &pk(MAKER)));
    assert!(pubkey_eq(&created.escrow_token_account.owner, &created.order_address));
    created
}

fn execute_ctx(created: &CreatedOrder) -> ExecuteOrder {
    ExecuteOrder {
        order: created.order,
        order_address: created.order_address,
        taker: pk(TAKER),
        taker_token_account: TokenAccount { mint: pk(MINT_B), owner: pk(TAKER), amount: 500 },
        taker_offer_account: TokenAccount { mint: pk(MINT_A), owner: pk(TAKER), amount: 0 },
        maker_wanted_account: TokenAccount { mint: pk(MINT_B), owner: pk(MAKER), amount: 0 },
        escrow_token_account: created.escrow_token_account,
        program_id: pk(PROGRAM),
    }
}

fn cancel_ctx(created: &CreatedOrder) -> CancelOrder {
    CancelOrder {
        order: created.order,
        order_address: created.order_address,
        maker: pk(MAKER),
        maker_token_account: TokenAccount { mint: pk(MINT_A), owner: pk(MAKER), amount: 0 },
        escrow_token_account: created.escrow_token_account,
        program_id: pk(PROGRAM),
    }
}

#[test]
fn scenario_execute_then_retry() {
    let mut registry = Registry::new();
    let created = make_order(&mut registry);
    let mut ctx = execute_ctx(&created);

    assert_eq!(execute_order(&mut ctx), Ok(()));
    assert_eq!(ctx.maker_wanted_account.amount, 500);
    assert_eq!(ctx.taker_token_account.amount, 0);
    assert_eq!(ctx.taker_offer_account.amount, 1000);
    assert_eq!(ctx.escrow_token_account.amount, 0);
    assert!(!ctx.order.is_active);

    // A second attempt sees the inactive order: state conflict, no movement.
    let before = ctx;
    assert_eq!(execute_order(&mut ctx), Err(ErrorCode::OrderNotActive));
    assert_eq!(ctx.maker_wanted_account.amount, before.maker_wanted_account.amount);
    assert_eq!(ctx.taker_token_account.amount, before.taker_token_account.amount);
    assert_eq!(ctx.taker_offer_account.amount, before.taker_offer_account.amount);
    assert_eq!(ctx.escrow_token_account.amount, before.escrow_token_account.amount);
}

#[test]
fn scenario_cancel_then_retry() {
    let mut registry = Registry::new();
    let created = make_order(&mut registry);
    let mut ctx = cancel_ctx(&created);

    assert_eq!(cancel_order(&mut ctx), Ok(()));
    assert_eq!(ctx.maker_token_account.amount, 1000);
    assert_eq!(ctx.escrow_token_account.amount, 0);
    assert!(!ctx.order.is_active);

    // Cancelling again by the maker: state conflict.
    assert_eq!(cancel_order(&mut ctx), Err(ErrorCode::OrderNotActive));
    assert_eq!(ctx.maker_token_account.amount, 1000);

    // Executing the cancelled order: state conflict.
    let mut exec = execute_ctx(&created);
    exec.order = ctx.order;
    exec.escrow_token_account = ctx.escrow_token_account;
    assert_eq!(execute_order(&mut exec), Err(ErrorCode::OrderNotActive));
    assert_eq!(exec.taker_token_account.amount, 500);
    assert_eq!(exec.taker_offer_account.amount, 0);
}

#[test]
fn cancel_refused_for_non_maker() {
    let mut registry = Registry::new();
    let created = make_order(&mut registry);
    let mut ctx = cancel_ctx(&created);
    ctx.maker = pk(TAKER);
    assert_eq!(cancel_order(&mut ctx), Err(ErrorCode::Unauthorized));
    assert_eq!(ctx.escrow_token_account.amount, 1000);
    assert!(ctx.order.is_active);

    // Refused with the authorization error whatever the state: even once
    // the order is inactive, a non-maker sees Unauthorized, not the
    // state conflict.
    ctx.maker = pk(MAKER);
    assert_eq!(cancel_order(&mut ctx), Ok(()));
    ctx.maker = pk(TAKER);
    assert_eq!(cancel_order(&mut ctx), Err(ErrorCode::Unauthorized));
}

#[test]
fn cancel_refused_for_wrong_refund_mint() {
    let mut registry = Registry::new();
    let created = make_order(&mut registry);
    let mut ctx = cancel_ctx(&created);
    ctx.maker_token_account.mint = pk(MINT_B);
    assert_eq!(cancel_order(&mut ctx), Err(ErrorCode::WrongMint));
    assert_eq!(ctx.escrow_token_account.amount, 1000);
    assert!(ctx.order.is_active);
}

#[test]
fn execute_refused_for_each_wrong_mint() {
    let mut registry = Registry::new();
    let created = make_order(&mut registry);

    // Every combination of wrongly-typed supplied accounts is refused.
    for wrong_taker_src in [false, true] {
        for wrong_taker_dst in [false, true] {
            for wrong_maker_dst in [false, true] {
                if !(wrong_taker_src || wrong_taker_dst || wrong_maker_dst) {
                    continue;
                }
                let mut ctx = execute_ctx(&created);
                if wrong_taker_src {
                    ctx.taker_token_account.mint = pk(MINT_A);
                }
                if wrong_taker_dst {
                    ctx.taker_offer_account.mint = pk(MINT_B);
                }
                if wrong_maker_dst {
                    ctx.maker_wanted_account.mint = pk(MINT_A);
                }
                assert_eq!(execute_order(&mut ctx), Err(ErrorCode::WrongMint));
                assert_eq!(ctx.escrow_token_account.amount, 1000);
                assert_eq!(ctx.taker_token_account.amount, 500);
                assert!(ctx.order.is_active);
            }
        }
    }
}

#[test]
fn execute_refused_for_underfunded_taker() {
    let mut registry = Registry::new();
    let created = make_order(&mut registry);
    let mut ctx = execute_ctx(&created);
    ctx.taker_token_account.amount = 499;
    assert_eq!(execute_order(&mut ctx), Err(ErrorCode::InsufficientFunds));
    assert_eq!(ctx.escrow_token_account.amount, 1000);
    assert_eq!(ctx.maker_wanted_account.amount, 0);
    assert!(ctx.order.is_active);
}

#[test]
fn execute_refused_for_foreign_paying_account() {
    let mut registry = Registry::new();
    let created = make_order(&mut registry);
    let mut ctx = execute_ctx(&created);
    ctx.taker_token_account.owner = pk(33);
    assert_eq!(execute_order(&mut ctx), Err(ErrorCode::Unauthorized));
    assert!(ctx.order.is_active);
}

#[test]
fn execute_refused_for_tampered_discriminant() {
    let mut registry = Registry::new();
    let created = make_order(&mut registry);
    let mut ctx = execute_ctx(&created);
    ctx.order.bump = ctx.order.bump.wrapping_add(1);
    assert_eq!(execute_order(&mut ctx), Err(ErrorCode::InvalidAuthority));
    assert_eq!(ctx.escrow_token_account.amount, 1000);

    let mut ctx = execute_ctx(&created);
    ctx.order_address = pk(0xEE);
    assert_eq!(execute_order(&mut ctx), Err(ErrorCode::InvalidAuthority));
}

#[test]
fn cancel_refused_for_tampered_discriminant() {
    let mut registry = Registry::new();
    let created = make_order(&mut registry);
    let mut ctx = cancel_ctx(&created);
    ctx.order.bump = ctx.order.bump.wrapping_add(1);
    assert_eq!(cancel_order(&mut ctx), Err(ErrorCode::InvalidAuthority));
    assert_eq!(ctx.escrow_token_account.amount, 1000);
    assert!(ctx.order.is_active);
}

#[test]
fn create_refused_for_duplicate_pair() {
    let mut registry = Registry::new();
    let _ = make_order(&mut registry);
    let mut ctx = CreateOrder {
        maker: pk(MAKER),
        maker_token_account: TokenAccount { mint: pk(MINT_A), owner: pk(MAKER), amount: 1000 },
        offer_mint: pk(MINT_A),
        program_id: pk(PROGRAM),
    };
    let second = create_order(&mut registry, &mut ctx, 1, 1000, pk(MINT_B), 500);
    assert_eq!(second.unwrap_err(), ErrorCode::OrderAlreadyExists);
    assert_eq!(ctx.maker_token_account.amount, 1000);

    // A different order id from the same maker is a new pair.
    let third = create_order(&mut registry, &mut ctx, 2, 1000, pk(MINT_B), 500);
    assert!(third.is_ok());
}

#[test]
fn create_refused_for_wrong_mint() {
    let mut registry = Registry::new();
    let mut ctx = CreateOrder {
        maker: pk(MAKER),
        maker_token_account: TokenAccount { mint: pk(MINT_B), owner: pk(MAKER), amount: 1000 },
        offer_mint: pk(MINT_A),
        program_id: pk(PROGRAM),
    };
    let r = create_order(&mut registry, &mut ctx, 1, 1000, pk(MINT_B), 500);
    assert_eq!(r.unwrap_err(), ErrorCode::WrongMint);
    assert_eq!(ctx.maker_token_account.amount, 1000);
}

#[test]
fn create_refused_for_foreign_funding_account() {
    let mut registry = Registry::new();
    let mut ctx = CreateOrder {
        maker: pk(MAKER),
        maker_token_account: TokenAccount { mint: pk(MINT_A), owner: pk(TAKER), amount: 1000 },
        offer_mint: pk(MINT_A),
        program_id: pk(PROGRAM),
    };
    let r = create_order(&mut registry, &mut ctx, 1, 1000, pk(MINT_B), 500);
    assert_eq!(r.unwrap_err(), ErrorCode::Unauthorized);
}

#[test]
fn create_refused_for_underfunded_maker() {
    let mut registry = Registry::new();
    let mut ctx = CreateOrder {
        maker: pk(MAKER),
        maker_token_account: TokenAccount { mint: pk(MINT_A), owner: pk(MAKER), amount: 999 },
        offer_mint: pk(MINT_A),
        program_id: pk(PROGRAM),
    };
    let r = create_order(&mut registry, &mut ctx, 1, 1000, pk(MINT_B), 500);
    assert_eq!(r.unwrap_err(), ErrorCode::InsufficientFunds);
    assert_eq!(ctx.maker_token_account.amount, 999);
}

#[test]
fn zero_amount_order_is_representable() {
    // The source enforces no minimum on the amounts; a zero-amount order
    // is created, and cancelling it refunds nothing.
    let mut registry = Registry::new();
    let mut ctx = CreateOrder {
        maker: pk(MAKER),
        maker_token_account: TokenAccount { mint: pk(MINT_A), owner: pk(MAKER), amount: 5 },
        offer_mint: pk(MINT_A),
        program_id: pk(PROGRAM),
    };
    let created = create_order(&mut registry, &mut ctx, 7, 0, pk(MINT_B), 0).unwrap();
    assert_eq!(created.escrow_token_account.amount, 0);
    assert_eq!(ctx.maker_token_account.amount, 5);
    let mut cancel = CancelOrder {
        order: created.order,
        order_address: created.order_address,
        maker: pk(MAKER),
        maker_token_account: TokenAccount { mint: pk(MINT_A), owner: pk(MAKER), amount: 5 },
        escrow_token_account: created.escrow_token_account,
        program_id: pk(PROGRAM),
    };
    assert_eq!(cancel_order(&mut cancel), Ok(()));
    assert_eq!(cancel.maker_token_account.amount, 5);
}

#[test]
fn largest_amounts_swap_cleanly() {
    let mut registry = Registry::new();
    let mut ctx = CreateOrder {
        maker: pk(MAKER),
        maker_token_account: TokenAccount { mint: pk(MINT_A), owner: pk(MAKER), amount: u64::MAX },
        offer_mint: pk(MINT_A),
        program_id: pk(PROGRAM),
    };
    let created = create_order(&mut registry, &mut ctx, 3, u64::MAX, pk(MINT_B), u64::MAX).unwrap();
    assert_eq!(created.escrow_token_account.amount, u64::MAX);
    assert_eq!(ctx.maker_token_account.amount, 0);

    let mut exec = ExecuteOrder {
        order: created.order,
        order_address: created.order_address,
        taker: pk(TAKER),
        taker_token_account: TokenAccount { mint: pk(MINT_B), owner: pk(TAKER), amount: u64::MAX },
        taker_offer_account: TokenAccount { mint: pk(MINT_A), owner: pk(TAKER), amount: 0 },
        maker_wanted_account: TokenAccount { mint: pk(MINT_B), owner: pk(MAKER), amount: 0 },
        escrow_token_account: created.escrow_token_account,
        program_id: pk(PROGRAM),
    };
    assert_eq!(execute_order(&mut exec), Ok(()));
    assert_eq!(exec.maker_wanted_account.amount, u64::MAX);
    assert_eq!(exec.taker_offer_account.amount, u64::MAX);
    assert_eq!(exec.escrow_token_account.amount, 0);
    assert!(!exec.order.is_active);
}
