//! The paged tick ledger: per-tick liquidity accounting records, grouped
//! into fixed-capacity pages of consecutive ticks.
use vstd::prelude::*;

use crate::AccountId;
use crate::errors::ErrorCode;
use crate::math::div_trunc;
use crate::math::lemma_div_trunc_bounds;
use crate::math::lemma_div_trunc_exact;
use crate::math::rem_trunc;
use vstd::arithmetic::div_mod::lemma_basic_div;
use vstd::arithmetic::div_mod::lemma_fundamental_div_mod;
use vstd::arithmetic::div_mod::lemma_mod_bound;
use vstd::math::abs;
use vstd::pervasive::unreached;

verus! {

/// Number of consecutive ticks one page holds.
pub const TICKS_PER_ARRAY: usize = 30;

/// Liquidity accounting for one tick-spacing-aligned price point.
/// `liquidity_gross` is the total absolute liquidity ever booked against
/// the tick; `liquidity_net` is the net liquidity that becomes active when
/// the price crosses the tick moving upward.
#[derive(Clone, Copy, PartialEq, Eq, Structural, Debug)]
pub struct TickInfo {
    pub initialized: bool,
    pub liquidity_gross: u128,
    pub liquidity_net: i128,
}

/// A tick record no position has ever touched.
pub open spec fn spec_empty_tick() -> TickInfo {
    TickInfo { initialized: false, liquidity_gross: 0, liquidity_net: 0 }
}

/// How one liquidity change lands on a tick record, or `None` when a field
/// would leave its range: the record becomes initialized, its gross
/// liquidity grows by the delta's magnitude, and its net liquidity moves by
/// the signed delta — added at a range's lower bound, subtracted at the
/// upper bound.
pub open spec fn spec_update_liquidity(info: TickInfo, liquidity_delta: int, is_lower: bool) -> Option<
    TickInfo,
> {
    let new_gross = info.liquidity_gross + abs(liquidity_delta);
    let new_net = if is_lower {
        info.liquidity_net + liquidity_delta
    } else {
        info.liquidity_net - liquidity_delta
    };
    if new_gross > u128::MAX || new_net > i128::MAX || new_net < i128::MIN {
        None
    } else {
        Some(
            TickInfo {
                initialized: true,
                liquidity_gross: new_gross as u128,
                liquidity_net: new_net as i128,
            },
        )
    }
}

/// Magnitude of a signed 128-bit value, exact also at the type's minimum.
fn abs_i128(x: i128) -> (r: u128)
    ensures
        r == abs(x as int),
{
    if x >= 0 {
        x as u128
    } else {
        ((-(x + 1)) as u128) + 1
    }
}

impl TickInfo {
    /// A tick record with no liquidity booked against it.
    pub fn empty() -> (r: TickInfo)
        ensures
            r == spec_empty_tick(),
    {
        TickInfo { initialized: false, liquidity_gross: 0, liquidity_net: 0 }
    }

    /// Books one liquidity change on this tick record, all or nothing: on
    /// `ArithmeticOverflow` the record is left exactly as it was.
    pub fn update_liquidity(&mut self, liquidity_delta: i128, is_lower: bool) -> (r: Result<
        (),
        ErrorCode,
    >)
        ensures
            (spec_update_liquidity(*old(self), liquidity_delta as int, is_lower) matches Some(
                updated,
            ) ==> r == Ok::<(), ErrorCode>(()) && *final (self) == updated),
            spec_update_liquidity(*old(self), liquidity_delta as int, is_lower) is None ==> r
                == Err::<(), ErrorCode>(ErrorCode::ArithmeticOverflow) && *final (self) == *old(
                self,
            ),
    {
        let magnitude = abs_i128(liquidity_delta);
        let new_gross = match self.liquidity_gross.checked_add(magnitude) {
            Some(g) => g,
            None => {
                return Err(ErrorCode::ArithmeticOverflow);
            },
        };
        let new_net = if is_lower {
            match self.liquidity_net.checked_add(liquidity_delta) {
                Some(n) => n,
                None => {
                    return Err(ErrorCode::ArithmeticOverflow);
                },
            }
        } else {
            match self.liquidity_net.checked_sub(liquidity_delta) {
                Some(n) => n,
                None => {
                    return Err(ErrorCode::ArithmeticOverflow);
                },
            }
        };
        self.initialized = true;
        self.liquidity_gross = new_gross;
        self.liquidity_net = new_net;
        Ok(())
    }
}

/// Slot offset of `tick` within the page that starts at `starting_tick`:
/// the difference of the two truncated tick-spacing quotients, reduced
/// modulo the page capacity. The formula does not itself reject a tick
/// outside the page; callers must check coverage first.
pub open spec fn spec_tick_offset(tick: int, starting_tick: int, tick_spacing: int) -> int {
    rem_trunc(
        div_trunc(tick, tick_spacing) - div_trunc(starting_tick, tick_spacing),
        TICKS_PER_ARRAY as int,
    )
}

/// Page boundary below `tick`: the page index is the tick-spacing quotient
/// further divided by the page capacity, both truncated toward zero, and
/// the result is that index scaled back to a tick. Because truncation
/// rounds toward zero, for a negative tick that is not itself a page
/// boundary this lands one page above the range that contains the tick.
pub open spec fn spec_page_start(tick: int, tick_spacing: int) -> int {
    div_trunc(div_trunc(tick, tick_spacing), TICKS_PER_ARRAY as int) * (TICKS_PER_ARRAY as int)
        * tick_spacing
}

/// The product of a truncated quotient with its positive divisor stays
/// between zero and the dividend.
pub proof fn lemma_div_trunc_mul_bounds(a: int, b: int)
    requires
        b > 0,
    ensures
        a >= 0 ==> 0 <= div_trunc(a, b) * b <= a,
        a < 0 ==> a <= div_trunc(a, b) * b <= 0,
{
    lemma_div_trunc_bounds(a, b);
    if a >= 0 {
        let q = a / b;
        lemma_fundamental_div_mod(a, b);
        lemma_mod_bound(a, b);
        assert(q * b == b * q && b * q >= 0) by (nonlinear_arith)
            requires
                b > 0,
                q >= 0,
        ;
        assert(div_trunc(a, b) * b == q * b);
    } else {
        let q = (-a) / b;
        lemma_fundamental_div_mod(-a, b);
        lemma_mod_bound(-a, b);
        assert(q * b == b * q && (-q) * b == -(q * b) && b * q >= 0) by (nonlinear_arith)
            requires
                b > 0,
                q >= 0,
        ;
        assert(div_trunc(a, b) * b == (-q) * b);
    }
}

/// For a page-aligned starting tick and a spacing-aligned tick inside the
/// page's covered range, the slot offset is exactly the tick's distance
/// from the page start measured in tick spacings: the modulo never wraps.
pub proof fn lemma_tick_offset_in_page(tick: int, starting_tick: int, tick_spacing: int)
    requires
        tick_spacing > 0,
        starting_tick % ((TICKS_PER_ARRAY as int) * tick_spacing) == 0,
        starting_tick <= tick < starting_tick + (TICKS_PER_ARRAY as int) * tick_spacing,
        tick % tick_spacing == 0,
    ensures
        0 <= spec_tick_offset(tick, starting_tick, tick_spacing) < TICKS_PER_ARRAY as int,
        spec_tick_offset(tick, starting_tick, tick_spacing) * tick_spacing == tick - starting_tick,
        spec_tick_offset(tick, starting_tick, tick_spacing) == div_trunc(tick, tick_spacing)
            - div_trunc(starting_tick, tick_spacing),
{
    let n = TICKS_PER_ARRAY as int;
    let s = tick_spacing;
    let q = tick / s;
    let m = starting_tick / (n * s);
    let page_quot = m * n;
    assert(n * s > 0) by (nonlinear_arith)
        requires
            n == 30,
            s > 0,
    ;
    lemma_fundamental_div_mod(tick, s);
    lemma_fundamental_div_mod(starting_tick, n * s);
    assert(tick == q * s && starting_tick == page_quot * s) by (nonlinear_arith)
        requires
            tick == s * q + tick % s,
            tick % s == 0,
            starting_tick == (n * s) * m + starting_tick % (n * s),
            starting_tick % (n * s) == 0,
            page_quot == m * n,
    ;
    lemma_div_trunc_exact(q, s);
    lemma_div_trunc_exact(page_quot, s);
    let diff = q - page_quot;
    assert(0 <= diff < n) by (nonlinear_arith)
        requires
            s > 0,
            diff == q - page_quot,
            page_quot * s <= q * s < page_quot * s + n * s,
    ;
    lemma_basic_div(diff, n);
    assert(diff * s == q * s - page_quot * s) by (nonlinear_arith)
        requires
            diff == q - page_quot,
    ;
}

/// Page addressing law: every spacing-aligned tick inside a page's covered
/// range maps to a slot offset inside the page, and two distinct such
/// ticks never share a slot.
pub proof fn lemma_page_addressing(tick_a: int, tick_b: int, starting_tick: int, tick_spacing: int)
    requires
        tick_spacing > 0,
        starting_tick % ((TICKS_PER_ARRAY as int) * tick_spacing) == 0,
        starting_tick <= tick_a < starting_tick + (TICKS_PER_ARRAY as int) * tick_spacing,
        starting_tick <= tick_b < starting_tick + (TICKS_PER_ARRAY as int) * tick_spacing,
        tick_a % tick_spacing == 0,
        tick_b % tick_spacing == 0,
    ensures
        0 <= spec_tick_offset(tick_a, starting_tick, tick_spacing) < TICKS_PER_ARRAY as int,
        0 <= spec_tick_offset(tick_b, starting_tick, tick_spacing) < TICKS_PER_ARRAY as int,
        tick_a != tick_b ==> spec_tick_offset(tick_a, starting_tick, tick_spacing)
            != spec_tick_offset(tick_b, starting_tick, tick_spacing),
{
    lemma_tick_offset_in_page(tick_a, starting_tick, tick_spacing);
    lemma_tick_offset_in_page(tick_b, starting_tick, tick_spacing);
    let off_a = spec_tick_offset(tick_a, starting_tick, tick_spacing);
    let off_b = spec_tick_offset(tick_b, starting_tick, tick_spacing);
    assert(off_a == off_b ==> off_a * tick_spacing == off_b * tick_spacing);
}

/// A fixed-capacity page of consecutive tick records for one pool,
/// covering the ticks from `starting_tick` (inclusive) to
/// `starting_tick + TICKS_PER_ARRAY * tick_spacing` (exclusive).
pub struct TickArray {
    pub pool: AccountId,
    pub starting_tick: i32,
    pub ticks: Vec<TickInfo>,
}

impl TickArray {
    /// Page well-formedness for a pool with the given tick spacing: the
    /// spacing is positive, the page holds exactly `TICKS_PER_ARRAY` slots,
    /// and its starting tick is aligned to whole pages.
    pub open spec fn wf(self, tick_spacing: int) -> bool {
        &&& tick_spacing > 0
        &&& self.ticks.len() == TICKS_PER_ARRAY
        &&& self.starting_tick as int % ((TICKS_PER_ARRAY as int) * tick_spacing) == 0
    }

    /// Whether `tick` lies in this page's covered range.
    pub open spec fn covers(self, tick: int, tick_spacing: int) -> bool {
        self.starting_tick <= tick < self.starting_tick + (TICKS_PER_ARRAY as int) * tick_spacing
    }

    /// A freshly created page: all slots empty.
    pub fn new(pool: AccountId, starting_tick: i32, tick_spacing: i32) -> (r: TickArray)
        requires
            tick_spacing > 0,
            starting_tick as int % ((TICKS_PER_ARRAY as int) * tick_spacing as int) == 0,
        ensures
            r.wf(tick_spacing as int),
            r.pool == pool,
            r.starting_tick == starting_tick,
            forall|j: int| 0 <= j < TICKS_PER_ARRAY as int ==> r.ticks@[j] == spec_empty_tick(),
    {
        let mut ticks: Vec<TickInfo> = Vec::new();
        let mut i: usize = 0;
        while i < TICKS_PER_ARRAY
            invariant
                i <= TICKS_PER_ARRAY,
                ticks@.len() == i as int,
                forall|j: int| 0 <= j < i as int ==> ticks@[j] == spec_empty_tick(),
            decreases TICKS_PER_ARRAY - i,
        {
            ticks.push(TickInfo::empty());
            i = i + 1;
        }
        TickArray { pool, starting_tick, ticks }
    }

    /// Page-boundary alignment of the start of the page holding `tick`:
    /// mirrors the page derivation used to address tick-array pages.
    /// The caller must have validated that the tick spacing is positive.
    pub fn get_starting_tick_index(tick: i32, tick_spacing: i32) -> (r: i32)
        requires
            tick_spacing > 0,
        ensures
            r == spec_page_start(tick as int, tick_spacing as int),
    {
        proof {
            lemma_div_trunc_bounds(tick as int, tick_spacing as int);
        }
        let ticks_per_array_i32: i32 = 30;
        let q1: i32 = match tick.checked_div(tick_spacing) {
            Some(q) => q,
            None => unreached(),
        };
        proof {
            lemma_div_trunc_bounds(q1 as int, ticks_per_array_i32 as int);
            lemma_div_trunc_mul_bounds(q1 as int, ticks_per_array_i32 as int);
        }
        let q2: i32 = match q1.checked_div(ticks_per_array_i32) {
            Some(q) => q,
            None => unreached(),
        };
        let scaled: i32 = match q2.checked_mul(ticks_per_array_i32) {
            Some(p) => p,
            None => unreached(),
        };
        proof {
            lemma_div_trunc_mul_bounds(tick as int, tick_spacing as int);
            assert((q1 >= 0 ==> 0 <= scaled as int * tick_spacing as int <= q1 as int
                * tick_spacing as int) && (q1 < 0 ==> q1 as int * tick_spacing as int <= scaled
                as int * tick_spacing as int <= 0)) by (nonlinear_arith)
                requires
                    tick_spacing as int > 0,
                    q1 >= 0 ==> 0 <= scaled as int <= q1 as int,
                    q1 < 0 ==> q1 as int <= scaled as int <= 0,
            ;
        }
        let r: i32 = match scaled.checked_mul(tick_spacing) {
            Some(p) => p,
            None => unreached(),
        };
        r
    }

    /// Slot offset of an aligned, covered tick inside this page, as
    /// executable arithmetic.
    pub fn tick_offset(&self, tick: i32, tick_spacing: i32) -> (r: usize)
        requires
            self.wf(tick_spacing as int),
            self.covers(tick as int, tick_spacing as int),
            tick as int % (tick_spacing as int) == 0,
        ensures
            r as int == spec_tick_offset(
                tick as int,
                self.starting_tick as int,
                tick_spacing as int,
            ),
            r < TICKS_PER_ARRAY,
    {
        proof {
            lemma_tick_offset_in_page(
                tick as int,
                self.starting_tick as int,
                tick_spacing as int,
            );
            lemma_div_trunc_bounds(tick as int, tick_spacing as int);
            lemma_div_trunc_bounds(self.starting_tick as int, tick_spacing as int);
        }
        let q_tick: i32 = match tick.checked_div(tick_spacing) {
            Some(q) => q,
            None => unreached(),
        };
        let q_start: i32 = match self.starting_tick.checked_div(tick_spacing) {
            Some(q) => q,
            None => unreached(),
        };
        let diff: i32 = match q_tick.checked_sub(q_start) {
            Some(d) => d,
            None => unreached(),
        };
        proof {
            lemma_basic_div(diff as int, TICKS_PER_ARRAY as int);
            lemma_fundamental_div_mod(diff as int, TICKS_PER_ARRAY as int);
        }
        let off: i32 = match diff.checked_rem(30) {
            Some(o) => o,
            None => unreached(),
        };
        off as usize
    }

    /// The tick record at an aligned, covered tick's slot, by value.
    pub fn tick_info(&self, tick: i32, tick_spacing: i32) -> (r: TickInfo)
        requires
            self.wf(tick_spacing as int),
            self.covers(tick as int, tick_spacing as int),
            tick as int % (tick_spacing as int) == 0,
        ensures
            r == self.ticks@[spec_tick_offset(
                tick as int,
                self.starting_tick as int,
                tick_spacing as int,
            )],
    {
        let off = self.tick_offset(tick, tick_spacing);
        self.ticks[off]
    }

    /// Replaces the tick record at an aligned, covered tick's slot; every
    /// other slot and every other field keeps its value.
    pub fn set_tick_info(&mut self, tick: i32, tick_spacing: i32, info: TickInfo)
        requires
            old(self).wf(tick_spacing as int),
            old(self).covers(tick as int, tick_spacing as int),
            tick as int % (tick_spacing as int) == 0,
        ensures
            final (self).pool == old(self).pool,
            final (self).starting_tick == old(self).starting_tick,
            final (self).ticks@ == old(self).ticks@.update(
                spec_tick_offset(tick as int, old(self).starting_tick as int, tick_spacing as int),
                info,
            ),
            final (self).wf(tick_spacing as int),
    {
        let off = self.tick_offset(tick, tick_spacing);
        self.ticks.set(off, info);
    }

    /// Borrows the tick record at an aligned, covered tick's slot for
    /// mutation; the page keeps every other slot and field unchanged.
    pub fn get_tick_info_mutable(&mut self, tick: i32, tick_spacing: i32) -> (r: &mut TickInfo)
        requires
            old(self).wf(tick_spacing as int),
            old(self).covers(tick as int, tick_spacing as int),
            tick as int % (tick_spacing as int) == 0,
        ensures
            *r == old(self).ticks@[spec_tick_offset(
                tick as int,
                old(self).starting_tick as int,
                tick_spacing as int,
            )],
            final (self).pool == old(self).pool,
            final (self).starting_tick == old(self).starting_tick,
            final (self).ticks@ == old(self).ticks@.update(
                spec_tick_offset(tick as int, old(self).starting_tick as int, tick_spacing as int),
                *final (r),
            ),
    {
        let off = self.tick_offset(tick, tick_spacing);
        &mut self.ticks[off]
    }
}

} // verus!
