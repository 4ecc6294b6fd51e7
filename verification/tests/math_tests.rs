use clmm::errors::ErrorCode;
use clmm::math::get_amounts_for_liquidity;
use clmm::math::get_sqrt_price_from_tick;
use clmm::math::get_tick_at_sqrt_price;
use clmm::math::swap_segment;

const BASE: u128 = 1u128 << 96;

#[test]
fn sqrt_price_of_tick_zero_is_base() {
    assert_eq!(get_sqrt_price_from_tick(0), Ok(BASE));
}

#[test]
fn sqrt_price_moves_one_step_per_tick() {
    assert_eq!(get_sqrt_price_from_tick(1), Ok(BASE + 1_000_000));
    assert_eq!(get_sqrt_price_from_tick(-1), Ok(BASE - 1_000_000));
    assert_eq!(get_sqrt_price_from_tick(60), Ok(BASE + 60_000_000));
    assert_eq!(get_sqrt_price_from_tick(-60), Ok(BASE - 60_000_000));
}

#[test]
fn sqrt_price_defined_at_extreme_ticks() {
    assert_eq!(
        get_sqrt_price_from_tick(i32::MAX),
        Ok(BASE + i32::MAX as u128 * 1_000_000)
    );
    assert_eq!(
        get_sqrt_price_from_tick(i32::MIN),
        Ok(BASE - 2_147_483_648u128 * 1_000_000)
    );
}

#[test]
fn tick_at_base_price_is_zero() {
    assert_eq!(get_tick_at_sqrt_price(BASE), Ok(0));
}

#[test]
fn tick_at_sqrt_price_truncates_toward_zero() {
    assert_eq!(get_tick_at_sqrt_price(BASE + 999_999), Ok(0));
    assert_eq!(get_tick_at_sqrt_price(BASE + 1_500_000), Ok(1));
    assert_eq!(get_tick_at_sqrt_price(BASE - 999_999), Ok(0));
    assert_eq!(get_tick_at_sqrt_price(BASE - 1_500_000), Ok(-1));
}

#[test]
fn tick_at_sqrt_price_overflows_on_huge_price() {
    assert_eq!(
        get_tick_at_sqrt_price(u128::MAX),
        Err(ErrorCode::ArithmeticOverflow)
    );
    assert_eq!(
        get_tick_at_sqrt_price((i128::MAX as u128) + 1),
        Err(ErrorCode::ArithmeticOverflow)
    );
}

#[test]
fn round_trip_tick_to_price_to_tick() {
    for tick in [0, 1, -1, 60, -60, 887_272, -887_272, i32::MAX, i32::MIN] {
        let price = get_sqrt_price_from_tick(tick).unwrap();
        assert_eq!(get_tick_at_sqrt_price(price), Ok(tick));
    }
}

#[test]
fn amounts_split_half_and_half_inside_range() {
    // current price inside [lower, upper)
    assert_eq!(
        get_amounts_for_liquidity(BASE, BASE - 60_000_000, BASE + 60_000_000, 1000),
        Ok((500, 500))
    );
    // odd liquidity truncates toward zero
    assert_eq!(
        get_amounts_for_liquidity(BASE, BASE - 60_000_000, BASE + 60_000_000, 1001),
        Ok((500, 500))
    );
}

#[test]
fn amounts_all_asset_0_below_range() {
    assert_eq!(
        get_amounts_for_liquidity(BASE - 70_000_000, BASE - 60_000_000, BASE + 60_000_000, 1000),
        Ok((1000, 0))
    );
}

#[test]
fn amounts_all_asset_1_at_or_above_range() {
    assert_eq!(
        get_amounts_for_liquidity(BASE + 60_000_000, BASE - 60_000_000, BASE + 60_000_000, 1000),
        Ok((0, 1000))
    );
    assert_eq!(
        get_amounts_for_liquidity(BASE + 90_000_000, BASE - 60_000_000, BASE + 60_000_000, 1000),
        Ok((0, 1000))
    );
}

#[test]
fn amounts_overflow_when_they_do_not_fit_u64() {
    // inside the range the half amounts must fit
    let too_big = (u64::MAX as u128) * 2 + 2;
    assert_eq!(
        get_amounts_for_liquidity(BASE, BASE - 60_000_000, BASE + 60_000_000, too_big),
        Err(ErrorCode::ArithmeticOverflow)
    );
    // the largest liquidity whose half still fits
    let just_fits = (u64::MAX as u128) * 2 + 1;
    assert_eq!(
        get_amounts_for_liquidity(BASE, BASE - 60_000_000, BASE + 60_000_000, just_fits),
        Ok((u64::MAX, u64::MAX))
    );
    // below the range the full amount must fit
    assert_eq!(
        get_amounts_for_liquidity(BASE - 70_000_000, BASE - 60_000_000, BASE + 60_000_000, (u64::MAX as u128) + 1),
        Err(ErrorCode::ArithmeticOverflow)
    );
    assert_eq!(
        get_amounts_for_liquidity(BASE - 70_000_000, BASE - 60_000_000, BASE + 60_000_000, u64::MAX as u128),
        Ok((u64::MAX, 0))
    );
}

#[test]
fn swap_segment_charges_one_per_mille_fee() {
    assert_eq!(swap_segment(BASE, 1000, 1000, true), Ok((1000, 999, BASE - 1_000_000_000)));
    assert_eq!(swap_segment(BASE, 1000, 2000, false), Ok((2000, 1998, BASE + 1_000_000_000)));
    // below one thousand units the fee rounds down to zero
    assert_eq!(swap_segment(BASE, 1000, 999, true), Ok((999, 999, BASE - 1_000_000_000)));
}

#[test]
fn swap_segment_needs_pool_liquidity() {
    assert_eq!(
        swap_segment(BASE, 0, 1000, true),
        Err(ErrorCode::InsufficientPoolLiquidity)
    );
}

#[test]
fn swap_segment_price_step_is_checked() {
    assert_eq!(
        swap_segment(999_999_999, 1000, 1000, true),
        Err(ErrorCode::ArithmeticOverflow)
    );
    assert_eq!(swap_segment(1_000_000_000, 1000, 1000, true), Ok((1000, 999, 0)));
    assert_eq!(
        swap_segment(u128::MAX - 999_999_999, 1000, 1000, false),
        Err(ErrorCode::ArithmeticOverflow)
    );
}
