//! Tick-index price math: the linear tick-to-price mapping and its inverse,
//! the token-amount formula for a liquidity change, and the single-segment
//! swap formula.
use vstd::prelude::*;

use crate::errors::ErrorCode;
use vstd::arithmetic::div_mod::lemma_div_basics_4;
use vstd::arithmetic::div_mod::lemma_fundamental_div_mod;
use vstd::arithmetic::div_mod::lemma_fundamental_div_mod_converse_mod;
use vstd::arithmetic::div_mod::lemma_mod_bound;
use vstd::arithmetic::div_mod::lemma_div_basics_5;
use vstd::arithmetic::div_mod::lemma_div_multiples_vanish;

verus! {

/// Fixed-point base of the sqrt-price representation: the price at tick 0,
/// equal to two to the 96th power.
pub const SQRT_PRICE_BASE: u128 = 79228162514264337593543950336;

/// Price difference between two adjacent tick indices. A fixed step makes
/// the tick-to-price mapping linear, a deliberate placeholder for the true
/// logarithmic curve.
pub const TICK_PRICE_STEP: u128 = 1_000_000;

/// Fixed amount by which one swap moves the pool's sqrt price, independent
/// of trade size and of available liquidity.
pub const SWAP_PRICE_STEP: u128 = 1_000_000_000;

/// The swap fee is one part in `FEE_DENOMINATOR` of the input amount.
pub const FEE_DENOMINATOR: u64 = 1000;

/// Division truncating toward zero, the semantics of `/` on Rust's signed
/// integers, for a positive divisor. Ghost `/` rounds toward negative
/// infinity, so the two differ on negative dividends.
pub open spec fn div_trunc(a: int, b: int) -> int
    recommends
        b > 0,
{
    if a >= 0 {
        a / b
    } else {
        -((-a) / b)
    }
}

/// Remainder paired with `div_trunc`: it carries the sign of the dividend,
/// the semantics of `%` on Rust's signed integers, for a positive divisor.
pub open spec fn rem_trunc(a: int, b: int) -> int
    recommends
        b > 0,
{
    a - b * div_trunc(a, b)
}

/// The quotient truncated toward zero never grows in magnitude and keeps
/// the dividend's sign.
pub proof fn lemma_div_trunc_bounds(a: int, b: int)
    requires
        b > 0,
    ensures
        a >= 0 ==> 0 <= div_trunc(a, b) <= a,
        a < 0 ==> a <= div_trunc(a, b) <= 0,
{
    if a >= 0 {
        lemma_div_basics_4(a, b);
        lemma_div_basics_5(a, b);
    } else {
        lemma_div_basics_4(-a, b);
        lemma_div_basics_5(-a, b);
    }
}

/// Truncating division is exact on exact multiples of the divisor.
pub proof fn lemma_div_trunc_exact(q: int, b: int)
    requires
        b > 0,
    ensures
        div_trunc(q * b, b) == q,
{
    if q >= 0 {
        lemma_div_multiples_vanish(q, b);
        assert(q * b == b * q) by (nonlinear_arith);
    } else {
        lemma_div_multiples_vanish(-q, b);
        assert(-(q * b) == b * -q) by (nonlinear_arith);
    }
}

/// How the truncating remainder relates to the flooring remainder `%` of
/// ghost arithmetic, for a positive divisor: they agree on non-negative
/// dividends, mirror each other on negative ones, and vanish on exactly
/// the same dividends — the exact multiples of the divisor.
pub proof fn lemma_rem_trunc_mod(a: int, b: int)
    requires
        b > 0,
    ensures
        a >= 0 ==> rem_trunc(a, b) == a % b,
        a < 0 ==> rem_trunc(a, b) == -((-a) % b),
        (rem_trunc(a, b) == 0) <==> (a % b == 0),
{
    if a >= 0 {
        lemma_fundamental_div_mod(a, b);
    } else {
        let q = (-a) / b;
        lemma_fundamental_div_mod(-a, b);
        lemma_mod_bound(-a, b);
        assert(b * (-q) == -(b * q) && (-q) * b == b * (-q) && (q - 1) * b == q * b - b && q * b
            == b * q) by (nonlinear_arith);
        assert(rem_trunc(a, b) == -((-a) % b));
        if (-a) % b == 0 {
            lemma_fundamental_div_mod_converse_mod(a, b, -q, 0);
        }
        if a % b == 0 {
            lemma_fundamental_div_mod(a, b);
            let qa = a / b;
            assert((-qa) * b == -(qa * b) && qa * b == b * qa) by (nonlinear_arith);
            lemma_fundamental_div_mod_converse_mod(-a, b, -qa, 0);
        }
    }
}

/// The sqrt price a tick index denotes:
/// `SQRT_PRICE_BASE + tick * TICK_PRICE_STEP`.
pub open spec fn sqrt_price_of_tick(tick: int) -> int {
    SQRT_PRICE_BASE + tick * TICK_PRICE_STEP
}

/// The tick index a sqrt price falls in: the price's signed distance from
/// the base, divided by the per-tick step, truncated toward zero.
pub open spec fn tick_of_sqrt_price(sqrt_price: int) -> int {
    div_trunc(sqrt_price - SQRT_PRICE_BASE, TICK_PRICE_STEP as int)
}

/// Converts a tick index to its sqrt price. Succeeds for every `i32` tick:
/// the linear adjustment is far too small to leave the unsigned 128-bit
/// range from the base price.
pub fn get_sqrt_price_from_tick(tick: i32) -> (r: Result<u128, ErrorCode>)
    ensures
        r matches Ok(p) && p == sqrt_price_of_tick(tick as int),
{
    let adjustment: i128 = (tick as i128) * (TICK_PRICE_STEP as i128);
    proof {
        assert(i32::MIN * (TICK_PRICE_STEP as int) <= adjustment <= i32::MAX * (
        TICK_PRICE_STEP as int)) by (nonlinear_arith)
            requires
                adjustment == tick as int * (TICK_PRICE_STEP as int),
                i32::MIN <= tick as int <= i32::MAX,
        ;
    }
    match SQRT_PRICE_BASE.checked_add_signed(adjustment) {
        Some(p) => Ok(p),
        None => Err(ErrorCode::ArithmeticOverflow),
    }
}

/// Converts a sqrt price back to the tick index it falls in. Fails with
/// `ArithmeticOverflow` exactly when the price does not fit the signed
/// 128-bit intermediate or the resulting tick does not fit a signed 32-bit
/// integer.
pub fn get_tick_at_sqrt_price(sqrt_price_x96: u128) -> (r: Result<i32, ErrorCode>)
    ensures
        ({
            let t = tick_of_sqrt_price(sqrt_price_x96 as int);
            if sqrt_price_x96 <= i128::MAX && i32::MIN <= t && t <= i32::MAX {
                r matches Ok(v) && v == t
            } else {
                r == Err::<i32, ErrorCode>(ErrorCode::ArithmeticOverflow)
            }
        }),
{
    if sqrt_price_x96 > i128::MAX as u128 {
        return Err(ErrorCode::ArithmeticOverflow);
    }
    let diff: i128 = (sqrt_price_x96 as i128) - (SQRT_PRICE_BASE as i128);
    proof {
        lemma_div_trunc_bounds(diff as int, TICK_PRICE_STEP as int);
    }
    let tick_wide: i128 = match diff.checked_div(TICK_PRICE_STEP as i128) {
        Some(q) => q,
        None => {
            return Err(ErrorCode::ArithmeticOverflow);
        },
    };
    if tick_wide < i32::MIN as i128 || tick_wide > i32::MAX as i128 {
        return Err(ErrorCode::ArithmeticOverflow);
    }
    Ok(tick_wide as i32)
}

/// Token amounts owed for a liquidity change, as a function of where the
/// current sqrt price sits relative to the range's bounds. While the range
/// covers the current price the liquidity is split half and half between the
/// two assets; below the range only asset 0 is owed, at or above it only
/// asset 1. Each amount must fit an unsigned 64-bit integer, else the whole
/// computation fails with `ArithmeticOverflow`.
pub open spec fn spec_amounts_for_liquidity(
    current_sqrt_price: u128,
    lower_sqrt_price: u128,
    upper_sqrt_price: u128,
    liquidity: u128,
) -> Result<(u64, u64), ErrorCode> {
    if lower_sqrt_price <= current_sqrt_price < upper_sqrt_price {
        let half = liquidity as int / 2;
        if half > u64::MAX {
            Err(ErrorCode::ArithmeticOverflow)
        } else {
            Ok((half as u64, half as u64))
        }
    } else if current_sqrt_price < lower_sqrt_price {
        if liquidity > u64::MAX {
            Err(ErrorCode::ArithmeticOverflow)
        } else {
            Ok((liquidity as u64, 0u64))
        }
    } else {
        if liquidity > u64::MAX {
            Err(ErrorCode::ArithmeticOverflow)
        } else {
            Ok((0u64, liquidity as u64))
        }
    }
}

/// Computes the token amounts owed for `liquidity`, given the current sqrt
/// price and the range's lower and upper sqrt prices.
pub fn get_amounts_for_liquidity(
    current_sqrt_price_x96: u128,
    lower_sqrt_price_x96: u128,
    upper_sqrt_price_x96: u128,
    liquidity: u128,
) -> (r: Result<(u64, u64), ErrorCode>)
    ensures
        r == spec_amounts_for_liquidity(
            current_sqrt_price_x96,
            lower_sqrt_price_x96,
            upper_sqrt_price_x96,
            liquidity,
        ),
{
    if current_sqrt_price_x96 >= lower_sqrt_price_x96 && current_sqrt_price_x96
        < upper_sqrt_price_x96 {
        let half: u128 = liquidity / 2;
        if half > u64::MAX as u128 {
            Err(ErrorCode::ArithmeticOverflow)
        } else {
            Ok((half as u64, half as u64))
        }
    } else if current_sqrt_price_x96 < lower_sqrt_price_x96 {
        if liquidity > u64::MAX as u128 {
            Err(ErrorCode::ArithmeticOverflow)
        } else {
            Ok((liquidity as u64, 0))
        }
    } else {
        if liquidity > u64::MAX as u128 {
            Err(ErrorCode::ArithmeticOverflow)
        } else {
            Ok((0, liquidity as u64))
        }
    }
}

/// The output amount of a swap: the input minus the fee of one part in
/// `FEE_DENOMINATOR`, rounded down.
pub open spec fn spec_swap_output(amount_in: u64) -> u64 {
    (amount_in - amount_in as int / FEE_DENOMINATOR as int) as u64
}

/// Outcome of one single-segment swap step against the pool's aggregate
/// liquidity: the whole input is used, the output is the input less the fee,
/// and the sqrt price moves down by `SWAP_PRICE_STEP` when asset 0 is sold
/// for asset 1 and up by the same step otherwise. Fails when the pool has no
/// active liquidity, or when the price step would leave the unsigned 128-bit
/// range.
pub open spec fn spec_swap_segment(
    current_sqrt_price: u128,
    global_liquidity: u128,
    amount_in: u64,
    swap_token_0_for_1: bool,
) -> Result<(u64, u64, u128), ErrorCode> {
    if global_liquidity == 0 {
        Err(ErrorCode::InsufficientPoolLiquidity)
    } else if swap_token_0_for_1 {
        if current_sqrt_price < SWAP_PRICE_STEP {
            Err(ErrorCode::ArithmeticOverflow)
        } else {
            Ok((amount_in, spec_swap_output(amount_in), (current_sqrt_price - SWAP_PRICE_STEP) as u128))
        }
    } else {
        if current_sqrt_price + SWAP_PRICE_STEP > u128::MAX {
            Err(ErrorCode::ArithmeticOverflow)
        } else {
            Ok((amount_in, spec_swap_output(amount_in), (current_sqrt_price + SWAP_PRICE_STEP) as u128))
        }
    }
}

/// Executes one swap segment: returns the input amount used, the output
/// amount after the fee, and the new sqrt price.
pub fn swap_segment(
    current_sqrt_price_x96: u128,
    global_liquidity: u128,
    amount_remaining_in: u64,
    swap_token_0_for_1: bool,
) -> (r: Result<(u64, u64, u128), ErrorCode>)
    ensures
        r == spec_swap_segment(
            current_sqrt_price_x96,
            global_liquidity,
            amount_remaining_in,
            swap_token_0_for_1,
        ),
{
    if global_liquidity == 0 {
        return Err(ErrorCode::InsufficientPoolLiquidity);
    }

    let amount_in_used = amount_remaining_in;
    proof {
        lemma_div_basics_5(amount_in_used as int, FEE_DENOMINATOR as int);
    }
    let amount_out_calculated = match amount_in_used.checked_sub(amount_in_used
        / FEE_DENOMINATOR) {
        Some(out) => out,
        None => {
            return Err(ErrorCode::ArithmeticOverflow);
        },
    };

    let new_sqrt_price = if swap_token_0_for_1 {
        match current_sqrt_price_x96.checked_sub(SWAP_PRICE_STEP) {
            Some(p) => p,
            None => {
                return Err(ErrorCode::ArithmeticOverflow);
            },
        }
    } else {
        match current_sqrt_price_x96.checked_add(SWAP_PRICE_STEP) {
            Some(p) => p,
            None => {
                return Err(ErrorCode::ArithmeticOverflow);
            },
        }
    };

    Ok((amount_in_used, amount_out_calculated, new_sqrt_price))
}

/// Round-trip law: converting a tick to its sqrt price and back yields the
/// same tick, for every `i32` tick index. The intermediate price always
/// fits the ranges both conversions need, so the two conversions also
/// succeed at the executable level.
pub proof fn lemma_tick_price_round_trip(tick: i32)
    ensures
        0 < sqrt_price_of_tick(tick as int) <= i128::MAX,
        tick_of_sqrt_price(sqrt_price_of_tick(tick as int)) == tick as int,
{
    let s = TICK_PRICE_STEP as int;
    assert(i32::MIN * s <= tick as int * s <= i32::MAX * s) by (nonlinear_arith)
        requires
            i32::MIN <= tick as int <= i32::MAX,
            s == TICK_PRICE_STEP as int,
    ;
    lemma_div_trunc_exact(tick as int, s);
}

} // verus!
