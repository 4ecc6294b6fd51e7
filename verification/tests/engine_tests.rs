use clmm::engine::close_position;
use clmm::engine::decrease_liquidity;
use clmm::engine::init_pool;
use clmm::engine::open_position;
use clmm::engine::swap;
use clmm::engine::TickPages;
use clmm::errors::ErrorCode;
use clmm::pool::Pool;
use clmm::position::Position;
use clmm::tick::TickArray;
use clmm::AccountId;

const BASE: u128 = 1u128 << 96;

const POOL_ID: AccountId = AccountId(1);
const MINT_0: AccountId = AccountId(2);
const MINT_1: AccountId = AccountId(3);
const VAULT_0: AccountId = AccountId(4);
const VAULT_1: AccountId = AccountId(5);
const OWNER: AccountId = AccountId(6);

fn fresh_pool() -> Pool {
    init_pool(MINT_0, MINT_1, VAULT_0, VAULT_1, 255, 60, BASE).unwrap()
}

fn pages_around_zero() -> TickPages {
    TickPages::Split(
        TickArray::new(POOL_ID, -1800, 60),
        TickArray::new(POOL_ID, 0, 60),
    )
}

/// Pool, pages, and position after adding liquidity 1000 over [-60, 60).
fn funded_pool() -> (Pool, TickPages, Option<Position>) {
    let mut pool = fresh_pool();
    let mut pages = pages_around_zero();
    let mut position: Option<Position> = None;
    let amounts = open_position(
        &mut pool, POOL_ID, &mut pages, &mut position, OWNER, -60, 60, 1000,
    )
    .unwrap();
    assert_eq!(amounts, (500, 500));
    (pool, pages, position)
}

fn net_at(pages: &TickPages, lower: bool, tick: i32) -> i128 {
    let page = match (pages, lower) {
        (TickPages::Single(a), _) => a,
        (TickPages::Split(a, _), true) => a,
        (TickPages::Split(_, b), false) => b,
    };
    page.tick_info(tick, 60).liquidity_net
}

fn gross_at(pages: &TickPages, lower: bool, tick: i32) -> u128 {
    let page = match (pages, lower) {
        (TickPages::Single(a), _) => a,
        (TickPages::Split(a, _), true) => a,
        (TickPages::Split(_, b), false) => b,
    };
    page.tick_info(tick, 60).liquidity_gross
}

#[test]
fn scenario_a_pool_at_base_price_sits_at_tick_zero() {
    let pool = fresh_pool();
    assert_eq!(pool.current_tick, 0);
    assert_eq!(pool.sqrt_price_x96, BASE);
    assert_eq!(pool.tick_spacing, 60);
    assert_eq!(pool.global_liquidity, 0);
    assert_eq!(pool.token_mint_0, MINT_0);
    assert_eq!(pool.token_vault_1, VAULT_1);
}

#[test]
fn init_pool_rejects_bad_inputs() {
    assert_eq!(
        init_pool(MINT_0, MINT_1, VAULT_0, VAULT_1, 255, 0, BASE),
        Err(ErrorCode::InvalidTickSpacing)
    );
    assert_eq!(
        init_pool(MINT_0, MINT_1, VAULT_0, VAULT_1, 255, -60, BASE),
        Err(ErrorCode::InvalidTickSpacing)
    );
    assert_eq!(
        init_pool(MINT_0, MINT_0, VAULT_0, VAULT_1, 255, 60, BASE),
        Err(ErrorCode::InvalidTokenPair)
    );
    assert_eq!(
        init_pool(MINT_0, MINT_1, VAULT_0, VAULT_1, 255, 60, u128::MAX),
        Err(ErrorCode::ArithmeticOverflow)
    );
}

#[test]
fn scenario_b_add_liquidity_over_the_current_tick() {
    let (pool, pages, position) = funded_pool();
    assert_eq!(pool.global_liquidity, 1000);
    assert_eq!(net_at(&pages, true, -60), 1000);
    assert_eq!(net_at(&pages, false, 60), -1000);
    assert_eq!(gross_at(&pages, true, -60), 1000);
    assert_eq!(gross_at(&pages, false, 60), 1000);
    let p = position.unwrap();
    assert_eq!(p.liquidity, 1000);
    assert_eq!(p.tick_lower, -60);
    assert_eq!(p.tick_upper, 60);
    assert_eq!(p.owner, OWNER);
    assert_eq!(p.pool, POOL_ID);
}

#[test]
fn open_position_within_one_page() {
    let mut pool = fresh_pool();
    let mut pages = TickPages::Single(TickArray::new(POOL_ID, 0, 60));
    let mut position: Option<Position> = None;
    let amounts = open_position(
        &mut pool, POOL_ID, &mut pages, &mut position, OWNER, 0, 60, 1000,
    )
    .unwrap();
    assert_eq!(amounts, (500, 500));
    assert_eq!(net_at(&pages, true, 0), 1000);
    assert_eq!(net_at(&pages, false, 60), -1000);
    assert_eq!(pool.global_liquidity, 1000);
}

#[test]
fn open_position_adds_to_an_existing_position() {
    let (mut pool, mut pages, mut position) = funded_pool();
    let amounts = open_position(
        &mut pool, POOL_ID, &mut pages, &mut position, OWNER, -60, 60, 500,
    )
    .unwrap();
    assert_eq!(amounts, (250, 250));
    assert_eq!(pool.global_liquidity, 1500);
    assert_eq!(position.unwrap().liquidity, 1500);
    assert_eq!(net_at(&pages, true, -60), 1500);
    assert_eq!(gross_at(&pages, true, -60), 1500);
}

#[test]
fn open_position_validates_the_request() {
    let (mut pool, mut pages, mut position) = funded_pool();
    let before_pool = pool;

    // improper or unaligned range
    assert_eq!(
        open_position(&mut pool, POOL_ID, &mut pages, &mut position, OWNER, 60, -60, 1000),
        Err(ErrorCode::InvalidTickRange)
    );
    assert_eq!(
        open_position(&mut pool, POOL_ID, &mut pages, &mut position, OWNER, -61, 60, 1000),
        Err(ErrorCode::InvalidTickRange)
    );
    // nothing to deposit
    assert_eq!(
        open_position(&mut pool, POOL_ID, &mut pages, &mut position, OWNER, -60, 60, 0),
        Err(ErrorCode::InsufficientInputAmount)
    );
    // the range must cover the current tick
    assert_eq!(
        open_position(&mut pool, POOL_ID, &mut pages, &mut position, OWNER, 60, 120, 1000),
        Err(ErrorCode::MintRangeMustCoverCurrentPrice)
    );
    // wrong owner for the existing position
    assert_eq!(
        open_position(&mut pool, POOL_ID, &mut pages, &mut position, AccountId(99), -60, 60, 1000),
        Err(ErrorCode::InvalidPositionOwner)
    );
    assert_eq!(pool, before_pool);
}

#[test]
fn open_position_rejects_pages_that_do_not_match() {
    let mut pool = fresh_pool();
    let mut position: Option<Position> = None;

    // pages of another pool
    let mut foreign_pages = TickPages::Split(
        TickArray::new(AccountId(42), -1800, 60),
        TickArray::new(AccountId(42), 0, 60),
    );
    assert_eq!(
        open_position(&mut pool, POOL_ID, &mut foreign_pages, &mut position, OWNER, -60, 60, 1000),
        Err(ErrorCode::InvalidTickArrayAccount)
    );

    // pages that do not cover the range
    let mut wrong_pages = TickPages::Split(
        TickArray::new(POOL_ID, 1800, 60),
        TickArray::new(POOL_ID, 3600, 60),
    );
    assert_eq!(
        open_position(&mut pool, POOL_ID, &mut wrong_pages, &mut position, OWNER, -60, 60, 1000),
        Err(ErrorCode::InvalidTickArrayAccount)
    );

    // one page passed twice as if it were two
    let mut doubled_pages = TickPages::Split(
        TickArray::new(POOL_ID, 0, 60),
        TickArray::new(POOL_ID, 0, 60),
    );
    assert_eq!(
        open_position(&mut pool, POOL_ID, &mut doubled_pages, &mut position, OWNER, 0, 60, 1000),
        Err(ErrorCode::InvalidTickArrayAccount)
    );
    assert_eq!(pool.global_liquidity, 0);
}

#[test]
fn open_position_rejects_a_mismatched_existing_position() {
    let (mut pool, _pages, position) = funded_pool();
    // the stored position spans [-60, 60); hand it to a request for [-120, 120)
    let mut wide_pages = TickPages::Split(
        TickArray::new(POOL_ID, -1800, 60),
        TickArray::new(POOL_ID, 0, 60),
    );
    let mut stored = position;
    assert_eq!(
        open_position(&mut pool, POOL_ID, &mut wide_pages, &mut stored, OWNER, -120, 120, 1000),
        Err(ErrorCode::InvalidPositionRange)
    );
}

#[test]
fn scenario_c_swap_charges_fee_and_steps_price() {
    let (mut pool, _pages, _position) = funded_pool();
    let out = swap(&mut pool, 1000, true, 0).unwrap();
    assert_eq!(out, 999);
    assert_eq!(pool.sqrt_price_x96, BASE - 1_000_000_000);
    assert_eq!(pool.current_tick, -1000);
    assert_eq!(pool.global_liquidity, 1000);
}

#[test]
fn swap_other_direction_raises_price() {
    let (mut pool, _pages, _position) = funded_pool();
    let out = swap(&mut pool, 2000, false, 0).unwrap();
    assert_eq!(out, 1998);
    assert_eq!(pool.sqrt_price_x96, BASE + 1_000_000_000);
    assert_eq!(pool.current_tick, 1000);
}

#[test]
fn swap_slippage_gate_leaves_pool_untouched() {
    let (mut pool, _pages, _position) = funded_pool();
    let before = pool;
    assert_eq!(swap(&mut pool, 1000, true, 1000), Err(ErrorCode::SlippageExceeded));
    assert_eq!(pool, before);
    // the floor at exactly the computed output passes
    assert_eq!(swap(&mut pool, 1000, true, 999), Ok(999));
}

#[test]
fn swap_validates_the_request() {
    let mut empty_pool = fresh_pool();
    assert_eq!(
        swap(&mut empty_pool, 1000, true, 0),
        Err(ErrorCode::InsufficientPoolLiquidity)
    );
    let (mut pool, _pages, _position) = funded_pool();
    let before = pool;
    assert_eq!(swap(&mut pool, 0, true, 0), Err(ErrorCode::InsufficientInputAmount));
    assert_eq!(pool, before);
}

#[test]
fn decrease_liquidity_pays_out_and_restores_net() {
    let (mut pool, mut pages, position) = funded_pool();
    let mut stored = position.unwrap();
    let amounts = decrease_liquidity(&mut pool, &mut pages, &mut stored, -60, 60, 1000).unwrap();
    assert_eq!(amounts, (500, 500));
    assert_eq!(pool.global_liquidity, 0);
    assert_eq!(stored.liquidity, 0);
    assert_eq!(net_at(&pages, true, -60), 0);
    assert_eq!(net_at(&pages, false, 60), 0);
    // gross liquidity never comes back down: both bookings accumulated
    assert_eq!(gross_at(&pages, true, -60), 2000);
    assert_eq!(gross_at(&pages, false, 60), 2000);
}

#[test]
fn decrease_liquidity_cannot_remove_more_than_held() {
    let (mut pool, mut pages, position) = funded_pool();
    let mut stored = position.unwrap();
    let before = (pool, stored);
    assert_eq!(
        decrease_liquidity(&mut pool, &mut pages, &mut stored, -60, 60, 1001),
        Err(ErrorCode::ArithmeticOverflow)
    );
    assert_eq!((pool, stored), before);
}

#[test]
fn decrease_liquidity_validates_the_request() {
    let (mut pool, mut pages, position) = funded_pool();
    let mut stored = position.unwrap();
    assert_eq!(
        decrease_liquidity(&mut pool, &mut pages, &mut stored, -60, -120, 1000),
        Err(ErrorCode::InvalidTickRange)
    );
    assert_eq!(
        decrease_liquidity(&mut pool, &mut pages, &mut stored, -60, 60, 0),
        Err(ErrorCode::InsufficientInputAmount)
    );
    assert_eq!(
        decrease_liquidity(&mut pool, &mut pages, &mut stored, -120, -60, 1000),
        Err(ErrorCode::MintRangeMustCoverCurrentPrice)
    );
    // a position that does not span the requested range
    assert_eq!(
        decrease_liquidity(&mut pool, &mut pages, &mut stored, -120, 60, 1000),
        Err(ErrorCode::InvalidPositionRange)
    );
    assert_eq!(stored.liquidity, 1000);
}

#[test]
fn scenario_d_close_reclaims_the_position() {
    let (mut pool, mut pages, mut position) = funded_pool();
    let amounts = close_position(&mut pool, &mut pages, &mut position, -60, 60).unwrap();
    assert_eq!(amounts, (500, 500));
    assert!(position.is_none());
    assert_eq!(pool.global_liquidity, 0);
    assert_eq!(net_at(&pages, true, -60), 0);
    assert_eq!(net_at(&pages, false, 60), 0);
}

#[test]
fn close_refuses_a_position_with_nothing_left() {
    let (mut pool, mut pages, position) = funded_pool();
    let mut stored = position.unwrap();
    decrease_liquidity(&mut pool, &mut pages, &mut stored, -60, 60, 1000).unwrap();
    // everything was already withdrawn: the state matches the scenario's
    // expectations, but the drained position cannot be closed
    assert_eq!(pool.global_liquidity, 0);
    assert_eq!(net_at(&pages, true, -60), 0);
    assert_eq!(net_at(&pages, false, 60), 0);
    let mut drained = Some(stored);
    assert_eq!(
        close_position(&mut pool, &mut pages, &mut drained, -60, 60),
        Err(ErrorCode::NoLiquidityToRemove)
    );
    assert!(drained.is_some());

    let mut missing: Option<Position> = None;
    assert_eq!(
        close_position(&mut pool, &mut pages, &mut missing, -60, 60),
        Err(ErrorCode::NoLiquidityToRemove)
    );
}

#[test]
fn close_validates_the_request() {
    let (mut pool, mut pages, mut position) = funded_pool();
    assert_eq!(
        close_position(&mut pool, &mut pages, &mut position, 60, -60),
        Err(ErrorCode::InvalidTickRange)
    );
    assert_eq!(
        close_position(&mut pool, &mut pages, &mut position, -120, 60),
        Err(ErrorCode::InvalidPositionRange)
    );
    assert!(position.is_some());
}

#[test]
fn add_then_remove_conserves_liquidity() {
    let (mut pool, mut pages, position) = funded_pool();
    let global_before = pool.global_liquidity;
    let net_lower_before = net_at(&pages, true, -60);
    let net_upper_before = net_at(&pages, false, 60);
    let liquidity_before = position.unwrap().liquidity;

    let mut held = position;
    open_position(&mut pool, POOL_ID, &mut pages, &mut held, OWNER, -60, 60, 250).unwrap();
    let mut stored = held.unwrap();
    decrease_liquidity(&mut pool, &mut pages, &mut stored, -60, 60, 250).unwrap();

    assert_eq!(pool.global_liquidity, global_before);
    assert_eq!(stored.liquidity, liquidity_before);
    assert_eq!(net_at(&pages, true, -60), net_lower_before);
    assert_eq!(net_at(&pages, false, 60), net_upper_before);
}

#[test]
fn gross_liquidity_never_decreases() {
    let (mut pool, mut pages, position) = funded_pool();
    let mut held = position;
    let mut last_lower = gross_at(&pages, true, -60);
    let mut last_upper = gross_at(&pages, false, 60);
    for amount in [1u128, 500, 2, 999] {
        open_position(&mut pool, POOL_ID, &mut pages, &mut held, OWNER, -60, 60, amount).unwrap();
        let lower = gross_at(&pages, true, -60);
        let upper = gross_at(&pages, false, 60);
        assert!(lower >= last_lower);
        assert!(upper >= last_upper);
        last_lower = lower;
        last_upper = upper;
    }
}
