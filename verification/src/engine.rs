//! The liquidity and swap engines: validated, all-or-nothing state
//! transitions of one pool, the tick-ledger pages holding a range's two
//! boundary ticks, and one position. Every operation either commits all of
//! its effects and returns the token amounts for the external ledger to
//! move, or fails before any state it was handed has changed.
use vstd::prelude::*;

use crate::AccountId;
use crate::errors::ErrorCode;
use crate::math::get_amounts_for_liquidity;
use crate::math::get_sqrt_price_from_tick;
use crate::math::get_tick_at_sqrt_price;
use crate::math::lemma_div_trunc_bounds;
use crate::math::spec_amounts_for_liquidity;
use crate::math::spec_swap_segment;
use crate::math::sqrt_price_of_tick;
use crate::math::swap_segment;
use crate::math::tick_of_sqrt_price;
use crate::math::lemma_rem_trunc_mod;
use crate::pool::Pool;
use crate::position::Position;
use crate::tick::TICKS_PER_ARRAY;
use crate::tick::TickArray;
use crate::tick::TickInfo;
use crate::tick::lemma_page_addressing;
use crate::tick::lemma_tick_offset_in_page;
use crate::tick::spec_tick_offset;
use crate::tick::spec_update_liquidity;
use vstd::arithmetic::div_mod::lemma_mod_bound;
use vstd::pervasive::unreached;

verus! {

/// The tick-ledger pages an operation on one tick range works against:
/// the range's two boundary ticks fall either in one shared page or in
/// two distinct pages.
pub enum TickPages {
    /// Both boundary ticks fall in the same page.
    Single(TickArray),
    /// The lower boundary's page, then the upper boundary's page.
    Split(TickArray, TickArray),
}

impl TickPages {
    /// The page holding the range's lower boundary tick.
    pub open spec fn lower_page(self) -> TickArray {
        match self {
            TickPages::Single(a) => a,
            TickPages::Split(a, _) => a,
        }
    }

    /// The page holding the range's upper boundary tick.
    pub open spec fn upper_page(self) -> TickArray {
        match self {
            TickPages::Single(a) => a,
            TickPages::Split(_, b) => b,
        }
    }

    /// Every page is well-formed for the given tick spacing.
    pub open spec fn wf(self, tick_spacing: int) -> bool {
        self.lower_page().wf(tick_spacing) && self.upper_page().wf(tick_spacing)
    }

    /// Every page belongs to the pool with the given identifier.
    pub open spec fn belongs_to(self, pool_id: AccountId) -> bool {
        self.lower_page().pool == pool_id && self.upper_page().pool == pool_id
    }

    /// The pages cover the range's boundary ticks: one shared page covers
    /// both, or the first page covers the lower tick and the second,
    /// distinct page covers the upper tick.
    pub open spec fn covers_range(self, lower_tick: int, upper_tick: int, tick_spacing: int) -> bool {
        &&& self.lower_page().covers(lower_tick, tick_spacing)
        &&& self.upper_page().covers(upper_tick, tick_spacing)
        &&& self is Split ==> self.lower_page().starting_tick != self.upper_page().starting_tick
    }

    /// The record at the range's lower boundary tick.
    pub open spec fn lower_info(self, lower_tick: int, tick_spacing: int) -> TickInfo {
        let a = self.lower_page();
        a.ticks@[spec_tick_offset(lower_tick, a.starting_tick as int, tick_spacing)]
    }

    /// The record at the range's upper boundary tick.
    pub open spec fn upper_info(self, upper_tick: int, tick_spacing: int) -> TickInfo {
        let b = self.upper_page();
        b.ticks@[spec_tick_offset(upper_tick, b.starting_tick as int, tick_spacing)]
    }

    /// Both boundary records can absorb the signed delta without any
    /// field leaving its range.
    pub open spec fn delta_fits(
        self,
        lower_tick: int,
        upper_tick: int,
        tick_spacing: int,
        delta: int,
    ) -> bool {
        &&& spec_update_liquidity(self.lower_info(lower_tick, tick_spacing), delta, true) is Some
        &&& spec_update_liquidity(self.upper_info(upper_tick, tick_spacing), delta, false) is Some
    }
}

/// How a successful range-wide liquidity change relates the pages before
/// the change (`pre`) to the pages after it (`post`): the record at the
/// lower boundary tick absorbs the delta as a lower bound, the record at
/// the upper boundary tick absorbs it as an upper bound, and every other
/// slot and every other field keeps its value.
pub open spec fn pages_after_delta(
    pre: TickPages,
    post: TickPages,
    lower_tick: int,
    upper_tick: int,
    tick_spacing: int,
    delta: int,
) -> bool {
    match (pre, post) {
        (TickPages::Single(a0), TickPages::Single(a1)) => {
            let off_l = spec_tick_offset(lower_tick, a0.starting_tick as int, tick_spacing);
            let off_u = spec_tick_offset(upper_tick, a0.starting_tick as int, tick_spacing);
            match (
                spec_update_liquidity(a0.ticks@[off_l], delta, true),
                spec_update_liquidity(a0.ticks@[off_u], delta, false),
            ) {
                (Some(new_l), Some(new_u)) => {
                    &&& a1.pool == a0.pool
                    &&& a1.starting_tick == a0.starting_tick
                    &&& a1.ticks@ == a0.ticks@.update(off_l, new_l).update(off_u, new_u)
                },
                _ => false,
            }
        },
        (TickPages::Split(a0, b0), TickPages::Split(a1, b1)) => {
            let off_l = spec_tick_offset(lower_tick, a0.starting_tick as int, tick_spacing);
            let off_u = spec_tick_offset(upper_tick, b0.starting_tick as int, tick_spacing);
            match (
                spec_update_liquidity(a0.ticks@[off_l], delta, true),
                spec_update_liquidity(b0.ticks@[off_u], delta, false),
            ) {
                (Some(new_l), Some(new_u)) => {
                    &&& a1.pool == a0.pool
                    &&& a1.starting_tick == a0.starting_tick
                    &&& a1.ticks@ == a0.ticks@.update(off_l, new_l)
                    &&& b1.pool == b0.pool
                    &&& b1.starting_tick == b0.starting_tick
                    &&& b1.ticks@ == b0.ticks@.update(off_u, new_u)
                },
                _ => false,
            }
        },
        _ => false,
    }
}

/// Whether `tick` is an exact multiple of the (positive) tick spacing.
fn is_aligned(tick: i32, tick_spacing: i32) -> (r: bool)
    requires
        tick_spacing > 0,
    ensures
        r <==> (tick as int % (tick_spacing as int) == 0),
{
    proof {
        lemma_rem_trunc_mod(tick as int, tick_spacing as int);
        lemma_div_trunc_bounds(tick as int, tick_spacing as int);
        lemma_mod_bound(tick as int, tick_spacing as int);
        lemma_mod_bound(-(tick as int), tick_spacing as int);
    }
    let rem = match tick.checked_rem(tick_spacing) {
        Some(rm) => rm,
        None => unreached(),
    };
    rem == 0
}

/// Whether `tick` falls inside the page's covered range, computed in a
/// wide type so that no boundary arithmetic can overflow.
fn page_covers(page: &TickArray, tick: i32, tick_spacing: i32) -> (r: bool)
    requires
        page.wf(tick_spacing as int),
    ensures
        r == page.covers(tick as int, tick_spacing as int),
{
    let start_wide: i64 = page.starting_tick as i64;
    let tick_wide: i64 = tick as i64;
    tick_wide >= start_wide && tick_wide < start_wide + (TICKS_PER_ARRAY as i64) * (
    tick_spacing as i64)
}

impl TickPages {
    /// Checks coverage of the range's two boundary ticks.
    pub fn check_covers_range(&self, lower_tick: i32, upper_tick: i32, tick_spacing: i32) -> (r:
        bool)
        requires
            self.wf(tick_spacing as int),
        ensures
            r == self.covers_range(lower_tick as int, upper_tick as int, tick_spacing as int),
    {
        match self {
            TickPages::Single(a) => page_covers(a, lower_tick, tick_spacing) && page_covers(
                a,
                upper_tick,
                tick_spacing,
            ),
            TickPages::Split(a, b) => a.starting_tick != b.starting_tick && page_covers(
                a,
                lower_tick,
                tick_spacing,
            ) && page_covers(b, upper_tick, tick_spacing),
        }
    }

    /// Checks that every page belongs to the pool with the given
    /// identifier.
    pub fn check_belongs_to(&self, pool_id: AccountId) -> (r: bool)
        ensures
            r == self.belongs_to(pool_id),
    {
        match self {
            TickPages::Single(a) => a.pool == pool_id,
            TickPages::Split(a, b) => a.pool == pool_id && b.pool == pool_id,
        }
    }

    /// Reads the record at the range's lower boundary tick.
    fn read_lower_info(&self, lower_tick: i32, tick_spacing: i32) -> (r: TickInfo)
        requires
            self.wf(tick_spacing as int),
            self.lower_page().covers(lower_tick as int, tick_spacing as int),
            lower_tick as int % (tick_spacing as int) == 0,
        ensures
            r == self.lower_info(lower_tick as int, tick_spacing as int),
    {
        match self {
            TickPages::Single(a) => a.tick_info(lower_tick, tick_spacing),
            TickPages::Split(a, _) => a.tick_info(lower_tick, tick_spacing),
        }
    }

    /// Reads the record at the range's upper boundary tick.
    fn read_upper_info(&self, upper_tick: i32, tick_spacing: i32) -> (r: TickInfo)
        requires
            self.wf(tick_spacing as int),
            self.upper_page().covers(upper_tick as int, tick_spacing as int),
            upper_tick as int % (tick_spacing as int) == 0,
        ensures
            r == self.upper_info(upper_tick as int, tick_spacing as int),
    {
        match self {
            TickPages::Single(a) => a.tick_info(upper_tick, tick_spacing),
            TickPages::Split(_, b) => b.tick_info(upper_tick, tick_spacing),
        }
    }

    /// Books a signed liquidity delta on the range's two boundary
    /// records, all or nothing: when either record cannot absorb the
    /// delta, no slot changes and the call fails with
    /// `ArithmeticOverflow`.
    pub fn apply_range_delta(
        &mut self,
        lower_tick: i32,
        upper_tick: i32,
        tick_spacing: i32,
        delta: i128,
    ) -> (r: Result<(), ErrorCode>)
        requires
            old(self).wf(tick_spacing as int),
            old(self).covers_range(lower_tick as int, upper_tick as int, tick_spacing as int),
            lower_tick as int % (tick_spacing as int) == 0,
            upper_tick as int % (tick_spacing as int) == 0,
        ensures
            old(self).delta_fits(
                lower_tick as int,
                upper_tick as int,
                tick_spacing as int,
                delta as int,
            ) ==> r == Ok::<(), ErrorCode>(()) && pages_after_delta(
                *old(self),
                *final (self),
                lower_tick as int,
                upper_tick as int,
                tick_spacing as int,
                delta as int,
            ),
            !old(self).delta_fits(
                lower_tick as int,
                upper_tick as int,
                tick_spacing as int,
                delta as int,
            ) ==> r == Err::<(), ErrorCode>(ErrorCode::ArithmeticOverflow) && *final (self) == *old(
                self,
            ),
            final (self).wf(tick_spacing as int),
    {
        let mut new_l = self.read_lower_info(lower_tick, tick_spacing);
        match new_l.update_liquidity(delta, true) {
            Ok(_u) => (),
            Err(e) => {
                return Err(e);
            },
        }
        let mut new_u = self.read_upper_info(upper_tick, tick_spacing);
        match new_u.update_liquidity(delta, false) {
            Ok(_u) => (),
            Err(e) => {
                return Err(e);
            },
        }
        match self {
            TickPages::Single(a) => {
                a.set_tick_info(lower_tick, tick_spacing, new_l);
                a.set_tick_info(upper_tick, tick_spacing, new_u);
            },
            TickPages::Split(a, b) => {
                a.set_tick_info(lower_tick, tick_spacing, new_l);
                b.set_tick_info(upper_tick, tick_spacing, new_u);
            },
        }
        Ok(())
    }
}

/// A proper tick range: the lower bound strictly below the upper, both
/// exact multiples of the tick spacing.
pub open spec fn spec_valid_range(lower_tick: i32, upper_tick: i32, tick_spacing: int) -> bool {
    &&& lower_tick < upper_tick
    &&& lower_tick as int % tick_spacing == 0
    &&& upper_tick as int % tick_spacing == 0
}

/// Whether the range covers the pool's current tick.
pub open spec fn spec_range_covers_current(pool: Pool, lower_tick: i32, upper_tick: i32) -> bool {
    pool.current_tick >= lower_tick && pool.current_tick < upper_tick
}

/// The token amounts owed for a liquidity change over the range, at the
/// pool's current sqrt price.
pub open spec fn spec_range_amounts(
    pool: Pool,
    lower_tick: i32,
    upper_tick: i32,
    liquidity: u128,
) -> Result<(u64, u64), ErrorCode> {
    spec_amounts_for_liquidity(
        pool.sqrt_price_x96,
        sqrt_price_of_tick(lower_tick as int) as u128,
        sqrt_price_of_tick(upper_tick as int) as u128,
        liquidity,
    )
}

/// The owed amounts of a liquidity change that is known to succeed.
pub open spec fn spec_ok_amounts(pool: Pool, lower_tick: i32, upper_tick: i32, liquidity: u128) -> (
    u64,
    u64,
) {
    match spec_range_amounts(pool, lower_tick, upper_tick, liquidity) {
        Ok(amounts) => amounts,
        Err(_) => (0, 0),
    }
}

/// Why an open-or-add request is refused, or `None` when it goes through.
/// The checks run in this order: a proper, aligned range; funded
/// liquidity; the range covering the current tick; pages that cover the
/// range's bounds and belong to the pool; for an existing position, a
/// matching owner and then a matching pool and range; and finally every
/// checked arithmetic step — the signed delta, both boundary records, the
/// position's and the pool's liquidity totals, and the owed amounts.
pub open spec fn spec_open_check(
    pool: Pool,
    pool_id: AccountId,
    pages: TickPages,
    position: Option<Position>,
    owner: AccountId,
    lower_tick: i32,
    upper_tick: i32,
    liquidity_amount: u128,
) -> Option<ErrorCode> {
    let ts = pool.tick_spacing as int;
    if !spec_valid_range(lower_tick, upper_tick, ts) {
        Some(ErrorCode::InvalidTickRange)
    } else if liquidity_amount == 0 {
        Some(ErrorCode::InsufficientInputAmount)
    } else if !spec_range_covers_current(pool, lower_tick, upper_tick) {
        Some(ErrorCode::MintRangeMustCoverCurrentPrice)
    } else if !(pages.covers_range(lower_tick as int, upper_tick as int, ts) && pages.belongs_to(
        pool_id,
    )) {
        Some(ErrorCode::InvalidTickArrayAccount)
    } else if position matches Some(p) && p.owner != owner {
        Some(ErrorCode::InvalidPositionOwner)
    } else if position matches Some(p) && !(p.pool == pool_id && p.tick_lower == lower_tick
        && p.tick_upper == upper_tick) {
        Some(ErrorCode::InvalidPositionRange)
    } else if liquidity_amount > i128::MAX {
        Some(ErrorCode::ArithmeticOverflow)
    } else if !pages.delta_fits(
        lower_tick as int,
        upper_tick as int,
        ts,
        liquidity_amount as int,
    ) {
        Some(ErrorCode::ArithmeticOverflow)
    } else if position matches Some(p) && p.liquidity + liquidity_amount > u128::MAX {
        Some(ErrorCode::ArithmeticOverflow)
    } else if spec_range_amounts(pool, lower_tick, upper_tick, liquidity_amount) is Err {
        Some(ErrorCode::ArithmeticOverflow)
    } else if pool.global_liquidity + liquidity_amount > u128::MAX {
        Some(ErrorCode::ArithmeticOverflow)
    } else {
        None
    }
}

/// The position after a successful open-or-add: an existing position
/// keeps its key fields and gains the liquidity; a fresh one is created
/// over the requested range, owned by the caller, funded with the whole
/// amount.
pub open spec fn spec_position_after_open(
    position: Option<Position>,
    pool_id: AccountId,
    owner: AccountId,
    lower_tick: i32,
    upper_tick: i32,
    liquidity_amount: u128,
) -> Position {
    match position {
        Some(p) => Position { liquidity: (p.liquidity + liquidity_amount) as u128, ..p },
        None => Position {
            liquidity: liquidity_amount,
            tick_lower: lower_tick,
            tick_upper: upper_tick,
            owner,
            pool: pool_id,
        },
    }
}

/// Opens a position or adds liquidity to an existing one: books the
/// amount on the range's two boundary tick records, credits the position,
/// grows the pool's active liquidity, and returns the token amounts the
/// owner owes the pool's vaults. All-or-nothing: on any refusal the pool,
/// the pages, and the position are exactly as before.
pub fn open_position(
    pool: &mut Pool,
    pool_id: AccountId,
    pages: &mut TickPages,
    position: &mut Option<Position>,
    owner: AccountId,
    lower_tick: i32,
    upper_tick: i32,
    liquidity_amount: u128,
) -> (r: Result<(u64, u64), ErrorCode>)
    requires
        old(pool).wf(),
        old(pages).wf(old(pool).tick_spacing as int),
    ensures
        spec_open_check(
            *old(pool),
            pool_id,
            *old(pages),
            *old(position),
            owner,
            lower_tick,
            upper_tick,
            liquidity_amount,
        ) matches Some(e) ==> r == Err::<(u64, u64), ErrorCode>(e) && *final (pool) == *old(pool)
            && *final (pages) == *old(pages) && *final (position) == *old(position),
        spec_open_check(
            *old(pool),
            pool_id,
            *old(pages),
            *old(position),
            owner,
            lower_tick,
            upper_tick,
            liquidity_amount,
        ) is None ==> ({
            &&& r == Ok::<(u64, u64), ErrorCode>(
                spec_ok_amounts(*old(pool), lower_tick, upper_tick, liquidity_amount),
            )
            &&& *final (pool) == (Pool {
                global_liquidity: (old(pool).global_liquidity + liquidity_amount) as u128,
                ..*old(pool)
            })
            &&& pages_after_delta(
                *old(pages),
                *final (pages),
                lower_tick as int,
                upper_tick as int,
                old(pool).tick_spacing as int,
                liquidity_amount as int,
            )
            &&& *final (position) == Some(
                spec_position_after_open(
                    *old(position),
                    pool_id,
                    owner,
                    lower_tick,
                    upper_tick,
                    liquidity_amount,
                ),
            )
            &&& final (position)->Some_0.wf(old(pool).tick_spacing as int)
            &&& final (position)->Some_0.liquidity > 0
        }),
        final (pool).wf(),
        final (pages).wf(old(pool).tick_spacing as int),
{
    let tick_spacing = pool.tick_spacing;
    if !(lower_tick < upper_tick && is_aligned(lower_tick, tick_spacing) && is_aligned(
        upper_tick,
        tick_spacing,
    )) {
        return Err(ErrorCode::InvalidTickRange);
    }
    if liquidity_amount == 0 {
        return Err(ErrorCode::InsufficientInputAmount);
    }
    if !(pool.current_tick >= lower_tick && pool.current_tick < upper_tick) {
        return Err(ErrorCode::MintRangeMustCoverCurrentPrice);
    }
    if !(pages.check_covers_range(lower_tick, upper_tick, tick_spacing) && pages.check_belongs_to(
        pool_id,
    )) {
        return Err(ErrorCode::InvalidTickArrayAccount);
    }
    let existing: Option<Position> = *position;
    match existing {
        Some(p) => {
            if p.owner != owner {
                return Err(ErrorCode::InvalidPositionOwner);
            }
            if !(p.pool == pool_id && p.tick_lower == lower_tick && p.tick_upper == upper_tick) {
                return Err(ErrorCode::InvalidPositionRange);
            }
        },
        None => {},
    }
    if liquidity_amount > (i128::MAX as u128) {
        return Err(ErrorCode::ArithmeticOverflow);
    }
    let delta: i128 = liquidity_amount as i128;

    let new_position_liquidity: u128 = match existing {
        Some(p) => match p.liquidity.checked_add(liquidity_amount) {
            Some(v) => v,
            None => {
                return Err(ErrorCode::ArithmeticOverflow);
            },
        },
        None => liquidity_amount,
    };
    let lower_price = match get_sqrt_price_from_tick(lower_tick) {
        Ok(p) => p,
        Err(_e) => unreached(),
    };
    let upper_price = match get_sqrt_price_from_tick(upper_tick) {
        Ok(p) => p,
        Err(_e) => unreached(),
    };
    let (amount_0, amount_1) = match get_amounts_for_liquidity(
        pool.sqrt_price_x96,
        lower_price,
        upper_price,
        liquidity_amount,
    ) {
        Ok(amounts) => amounts,
        Err(e) => {
            return Err(e);
        },
    };
    let new_global = match pool.global_liquidity.checked_add(liquidity_amount) {
        Some(g) => g,
        None => {
            return Err(ErrorCode::ArithmeticOverflow);
        },
    };
    match pages.apply_range_delta(lower_tick, upper_tick, tick_spacing, delta) {
        Ok(_u) => (),
        Err(e) => {
            return Err(e);
        },
    }
    *position = Some(
        Position {
            liquidity: new_position_liquidity,
            tick_lower: lower_tick,
            tick_upper: upper_tick,
            owner,
            pool: pool_id,
        },
    );
    pool.global_liquidity = new_global;
    Ok((amount_0, amount_1))
}

/// Why a decrease request is refused, or `None` when it goes through.
/// The validation mirrors an open-or-add, with two differences: the
/// position resolved for the range must actually span it, and the
/// position's and the pool's liquidity must hold at least the amount
/// being removed — removing more than is held is an arithmetic underflow.
pub open spec fn spec_decrease_check(
    pool: Pool,
    pages: TickPages,
    position: Position,
    lower_tick: i32,
    upper_tick: i32,
    liquidity_amount: u128,
) -> Option<ErrorCode> {
    let ts = pool.tick_spacing as int;
    if !spec_valid_range(lower_tick, upper_tick, ts) {
        Some(ErrorCode::InvalidTickRange)
    } else if liquidity_amount == 0 {
        Some(ErrorCode::InsufficientInputAmount)
    } else if !spec_range_covers_current(pool, lower_tick, upper_tick) {
        Some(ErrorCode::MintRangeMustCoverCurrentPrice)
    } else if !pages.covers_range(lower_tick as int, upper_tick as int, ts) {
        Some(ErrorCode::InvalidTickArrayAccount)
    } else if !(position.tick_lower == lower_tick && position.tick_upper == upper_tick) {
        Some(ErrorCode::InvalidPositionRange)
    } else if liquidity_amount > i128::MAX {
        Some(ErrorCode::ArithmeticOverflow)
    } else if !pages.delta_fits(
        lower_tick as int,
        upper_tick as int,
        ts,
        -(liquidity_amount as int),
    ) {
        Some(ErrorCode::ArithmeticOverflow)
    } else if position.liquidity < liquidity_amount {
        Some(ErrorCode::ArithmeticOverflow)
    } else if spec_range_amounts(pool, lower_tick, upper_tick, liquidity_amount) is Err {
        Some(ErrorCode::ArithmeticOverflow)
    } else if pool.global_liquidity < liquidity_amount {
        Some(ErrorCode::ArithmeticOverflow)
    } else {
        None
    }
}

/// Removes liquidity from a position: books the negated amount on the
/// range's two boundary tick records, debits the position and the pool's
/// active liquidity, and returns the token amounts the pool's vaults owe
/// the owner. All-or-nothing: on any refusal the pool, the pages, and the
/// position are exactly as before.
pub fn decrease_liquidity(
    pool: &mut Pool,
    pages: &mut TickPages,
    position: &mut Position,
    lower_tick: i32,
    upper_tick: i32,
    liquidity_amount: u128,
) -> (r: Result<(u64, u64), ErrorCode>)
    requires
        old(pool).wf(),
        old(pages).wf(old(pool).tick_spacing as int),
    ensures
        spec_decrease_check(
            *old(pool),
            *old(pages),
            *old(position),
            lower_tick,
            upper_tick,
            liquidity_amount,
        ) matches Some(e) ==> r == Err::<(u64, u64), ErrorCode>(e) && *final (pool) == *old(pool)
            && *final (pages) == *old(pages) && *final (position) == *old(position),
        spec_decrease_check(
            *old(pool),
            *old(pages),
            *old(position),
            lower_tick,
            upper_tick,
            liquidity_amount,
        ) is None ==> ({
            &&& r == Ok::<(u64, u64), ErrorCode>(
                spec_ok_amounts(*old(pool), lower_tick, upper_tick, liquidity_amount),
            )
            &&& *final (pool) == (Pool {
                global_liquidity: (old(pool).global_liquidity - liquidity_amount) as u128,
                ..*old(pool)
            })
            &&& pages_after_delta(
                *old(pages),
                *final (pages),
                lower_tick as int,
                upper_tick as int,
                old(pool).tick_spacing as int,
                -(liquidity_amount as int),
            )
            &&& *final (position) == (Position {
                liquidity: (old(position).liquidity - liquidity_amount) as u128,
                ..*old(position)
            })
        }),
        final (pool).wf(),
        final (pages).wf(old(pool).tick_spacing as int),
{
    let tick_spacing = pool.tick_spacing;
    if !(lower_tick < upper_tick && is_aligned(lower_tick, tick_spacing) && is_aligned(
        upper_tick,
        tick_spacing,
    )) {
        return Err(ErrorCode::InvalidTickRange);
    }
    if liquidity_amount == 0 {
        return Err(ErrorCode::InsufficientInputAmount);
    }
    if !(pool.current_tick >= lower_tick && pool.current_tick < upper_tick) {
        return Err(ErrorCode::MintRangeMustCoverCurrentPrice);
    }
    if !pages.check_covers_range(lower_tick, upper_tick, tick_spacing) {
        return Err(ErrorCode::InvalidTickArrayAccount);
    }
    if !(position.tick_lower == lower_tick && position.tick_upper == upper_tick) {
        return Err(ErrorCode::InvalidPositionRange);
    }
    if liquidity_amount > (i128::MAX as u128) {
        return Err(ErrorCode::ArithmeticOverflow);
    }
    let delta: i128 = -(liquidity_amount as i128);

    let new_position_liquidity: u128 = match position.liquidity.checked_sub(liquidity_amount) {
        Some(v) => v,
        None => {
            return Err(ErrorCode::ArithmeticOverflow);
        },
    };
    let lower_price = match get_sqrt_price_from_tick(lower_tick) {
        Ok(p) => p,
        Err(_e) => unreached(),
    };
    let upper_price = match get_sqrt_price_from_tick(upper_tick) {
        Ok(p) => p,
        Err(_e) => unreached(),
    };
    let (amount_0, amount_1) = match get_amounts_for_liquidity(
        pool.sqrt_price_x96,
        lower_price,
        upper_price,
        liquidity_amount,
    ) {
        Ok(amounts) => amounts,
        Err(e) => {
            return Err(e);
        },
    };
    let new_global = match pool.global_liquidity.checked_sub(liquidity_amount) {
        Some(g) => g,
        None => {
            return Err(ErrorCode::ArithmeticOverflow);
        },
    };
    match pages.apply_range_delta(lower_tick, upper_tick, tick_spacing, delta) {
        Ok(_u) => (),
        Err(e) => {
            return Err(e);
        },
    }
    position.liquidity = new_position_liquidity;
    pool.global_liquidity = new_global;
    Ok((amount_0, amount_1))
}

/// Why a close request is refused, or `None` when it goes through. The
/// position must exist for the range and still hold liquidity; closing
/// then removes all of it, with the same arithmetic guards as a
/// decrease. A missing position holds nothing to remove.
pub open spec fn spec_close_check(
    pool: Pool,
    pages: TickPages,
    position: Option<Position>,
    lower_tick: i32,
    upper_tick: i32,
) -> Option<ErrorCode> {
    let ts = pool.tick_spacing as int;
    if !spec_valid_range(lower_tick, upper_tick, ts) {
        Some(ErrorCode::InvalidTickRange)
    } else if position is None {
        Some(ErrorCode::NoLiquidityToRemove)
    } else if position matches Some(p) && !(p.tick_lower == lower_tick && p.tick_upper
        == upper_tick) {
        Some(ErrorCode::InvalidPositionRange)
    } else if position matches Some(p) && p.liquidity == 0 {
        Some(ErrorCode::NoLiquidityToRemove)
    } else if !pages.covers_range(lower_tick as int, upper_tick as int, ts) {
        Some(ErrorCode::InvalidTickArrayAccount)
    } else if position matches Some(p) && p.liquidity > i128::MAX {
        Some(ErrorCode::ArithmeticOverflow)
    } else if position matches Some(p) && !pages.delta_fits(
        lower_tick as int,
        upper_tick as int,
        ts,
        -(p.liquidity as int),
    ) {
        Some(ErrorCode::ArithmeticOverflow)
    } else if position matches Some(p) && spec_range_amounts(
        pool,
        lower_tick,
        upper_tick,
        p.liquidity,
    ) is Err {
        Some(ErrorCode::ArithmeticOverflow)
    } else if position matches Some(p) && pool.global_liquidity < p.liquidity {
        Some(ErrorCode::ArithmeticOverflow)
    } else {
        None
    }
}

/// The liquidity a close request removes: everything the position holds.
pub open spec fn spec_close_amount(position: Option<Position>) -> u128 {
    match position {
        Some(p) => p.liquidity,
        None => 0,
    }
}

/// Closes a position: removes all of its remaining liquidity with the
/// same bookkeeping as a decrease, returns the token amounts the pool's
/// vaults owe the owner, and reclaims the position's storage.
/// All-or-nothing: on any refusal the pool, the pages, and the position
/// are exactly as before.
pub fn close_position(
    pool: &mut Pool,
    pages: &mut TickPages,
    position: &mut Option<Position>,
    lower_tick: i32,
    upper_tick: i32,
) -> (r: Result<(u64, u64), ErrorCode>)
    requires
        old(pool).wf(),
        old(pages).wf(old(pool).tick_spacing as int),
    ensures
        spec_close_check(*old(pool), *old(pages), *old(position), lower_tick, upper_tick) matches
            Some(e) ==> r == Err::<(u64, u64), ErrorCode>(e) && *final (pool) == *old(pool)
            && *final (pages) == *old(pages) && *final (position) == *old(position),
        spec_close_check(*old(pool), *old(pages), *old(position), lower_tick, upper_tick) is None
            ==> ({
            &&& r == Ok::<(u64, u64), ErrorCode>(
                spec_ok_amounts(
                    *old(pool),
                    lower_tick,
                    upper_tick,
                    spec_close_amount(*old(position)),
                ),
            )
            &&& *final (pool) == (Pool {
                global_liquidity: (old(pool).global_liquidity - spec_close_amount(*old(position)))
                    as u128,
                ..*old(pool)
            })
            &&& pages_after_delta(
                *old(pages),
                *final (pages),
                lower_tick as int,
                upper_tick as int,
                old(pool).tick_spacing as int,
                -(spec_close_amount(*old(position)) as int),
            )
            &&& *final (position) is None
        }),
        final (pool).wf(),
        final (pages).wf(old(pool).tick_spacing as int),
{
    let tick_spacing = pool.tick_spacing;
    if !(lower_tick < upper_tick && is_aligned(lower_tick, tick_spacing) && is_aligned(
        upper_tick,
        tick_spacing,
    )) {
        return Err(ErrorCode::InvalidTickRange);
    }
    let p = match *position {
        Some(p) => p,
        None => {
            return Err(ErrorCode::NoLiquidityToRemove);
        },
    };
    if !(p.tick_lower == lower_tick && p.tick_upper == upper_tick) {
        return Err(ErrorCode::InvalidPositionRange);
    }
    if p.liquidity == 0 {
        return Err(ErrorCode::NoLiquidityToRemove);
    }
    if !pages.check_covers_range(lower_tick, upper_tick, tick_spacing) {
        return Err(ErrorCode::InvalidTickArrayAccount);
    }
    let liquidity_to_remove = p.liquidity;
    if liquidity_to_remove > (i128::MAX as u128) {
        return Err(ErrorCode::ArithmeticOverflow);
    }
    let delta: i128 = -(liquidity_to_remove as i128);

    let lower_price = match get_sqrt_price_from_tick(lower_tick) {
        Ok(pr) => pr,
        Err(_e) => unreached(),
    };
    let upper_price = match get_sqrt_price_from_tick(upper_tick) {
        Ok(pr) => pr,
        Err(_e) => unreached(),
    };
    let (amount_0, amount_1) = match get_amounts_for_liquidity(
        pool.sqrt_price_x96,
        lower_price,
        upper_price,
        liquidity_to_remove,
    ) {
        Ok(amounts) => amounts,
        Err(e) => {
            return Err(e);
        },
    };
    let new_global = match pool.global_liquidity.checked_sub(liquidity_to_remove) {
        Some(g) => g,
        None => {
            return Err(ErrorCode::ArithmeticOverflow);
        },
    };
    match pages.apply_range_delta(lower_tick, upper_tick, tick_spacing, delta) {
        Ok(_u) => (),
        Err(e) => {
            return Err(e);
        },
    }
    *position = None;
    pool.global_liquidity = new_global;
    Ok((amount_0, amount_1))
}

/// Outcome of pool initialization: the tick spacing must be positive, the
/// two asset mints distinct, and the initial sqrt price convertible to an
/// in-range current tick; the pool then starts with no active liquidity.
pub open spec fn spec_init_pool(
    token_mint_0: AccountId,
    token_mint_1: AccountId,
    token_vault_0: AccountId,
    token_vault_1: AccountId,
    bump: u8,
    tick_spacing: i32,
    initial_sqrt_price: u128,
) -> Result<Pool, ErrorCode> {
    if tick_spacing <= 0 {
        Err(ErrorCode::InvalidTickSpacing)
    } else if token_mint_0 == token_mint_1 {
        Err(ErrorCode::InvalidTokenPair)
    } else if initial_sqrt_price > i128::MAX || tick_of_sqrt_price(initial_sqrt_price as int)
        < i32::MIN || tick_of_sqrt_price(initial_sqrt_price as int) > i32::MAX {
        Err(ErrorCode::ArithmeticOverflow)
    } else {
        Ok(
            Pool {
                token_mint_0,
                token_mint_1,
                token_vault_0,
                token_vault_1,
                global_liquidity: 0,
                sqrt_price_x96: initial_sqrt_price,
                current_tick: tick_of_sqrt_price(initial_sqrt_price as int) as i32,
                tick_spacing,
                bump,
            },
        )
    }
}

/// Creates the pool state for one trading pair at its initial sqrt price,
/// deriving the current tick from that price.
pub fn init_pool(
    token_mint_0: AccountId,
    token_mint_1: AccountId,
    token_vault_0: AccountId,
    token_vault_1: AccountId,
    bump: u8,
    tick_spacing: i32,
    initial_sqrt_price: u128,
) -> (r: Result<Pool, ErrorCode>)
    ensures
        r == spec_init_pool(
            token_mint_0,
            token_mint_1,
            token_vault_0,
            token_vault_1,
            bump,
            tick_spacing,
            initial_sqrt_price,
        ),
        r matches Ok(pool) ==> pool.wf(),
{
    if tick_spacing <= 0 {
        return Err(ErrorCode::InvalidTickSpacing);
    }
    if token_mint_0 == token_mint_1 {
        return Err(ErrorCode::InvalidTokenPair);
    }
    let current_tick = match get_tick_at_sqrt_price(initial_sqrt_price) {
        Ok(t) => t,
        Err(e) => {
            return Err(e);
        },
    };
    Ok(
        Pool {
            token_mint_0,
            token_mint_1,
            token_vault_0,
            token_vault_1,
            global_liquidity: 0,
            sqrt_price_x96: initial_sqrt_price,
            current_tick,
            tick_spacing,
            bump,
        },
    )
}

/// Outcome of one swap against the pool: the pool must have active
/// liquidity and a positive input; the single-segment step then fixes the
/// output and the new sqrt price, the output must reach the caller's
/// floor, and the new price must convert to an in-range current tick. On
/// success only the pool's sqrt price and current tick change.
pub open spec fn spec_swap(
    pool: Pool,
    amount_in: u64,
    swap_token_0_for_1: bool,
    amount_out_minimum: u64,
) -> Result<(Pool, u64), ErrorCode> {
    if pool.global_liquidity == 0 {
        Err(ErrorCode::InsufficientPoolLiquidity)
    } else if amount_in == 0 {
        Err(ErrorCode::InsufficientInputAmount)
    } else {
        match spec_swap_segment(
            pool.sqrt_price_x96,
            pool.global_liquidity,
            amount_in,
            swap_token_0_for_1,
        ) {
            Err(e) => Err(e),
            Ok((amount_in_used, amount_out, new_sqrt_price)) => {
                if amount_out < amount_out_minimum {
                    Err(ErrorCode::SlippageExceeded)
                } else if new_sqrt_price > i128::MAX || tick_of_sqrt_price(new_sqrt_price as int)
                    < i32::MIN || tick_of_sqrt_price(new_sqrt_price as int) > i32::MAX {
                    Err(ErrorCode::ArithmeticOverflow)
                } else {
                    Ok(
                        (
                            Pool {
                                sqrt_price_x96: new_sqrt_price,
                                current_tick: tick_of_sqrt_price(new_sqrt_price as int) as i32,
                                ..pool
                            },
                            amount_out,
                        ),
                    )
                }
            },
        }
    }
}

/// Executes one swap: moves the pool's sqrt price by the fixed step in the
/// trade's direction, re-derives the current tick, and returns the output
/// amount owed to the trader. Fails without touching the pool whenever a
/// precondition, the slippage floor, or the tick re-derivation refuses —
/// in particular, on `SlippageExceeded` the pool's sqrt price and current
/// tick are exactly as before.
pub fn swap(pool: &mut Pool, amount_in: u64, swap_token_0_for_1: bool, amount_out_minimum: u64) -> (r:
    Result<u64, ErrorCode>)
    requires
        old(pool).wf(),
    ensures
        spec_swap(*old(pool), amount_in, swap_token_0_for_1, amount_out_minimum) matches Ok(res)
            ==> r == Ok::<u64, ErrorCode>(res.1) && *final (pool) == res.0,
        spec_swap(*old(pool), amount_in, swap_token_0_for_1, amount_out_minimum) matches Err(e)
            ==> r == Err::<u64, ErrorCode>(e) && *final (pool) == *old(pool),
        final (pool).wf(),
{
    if pool.global_liquidity == 0 {
        return Err(ErrorCode::InsufficientPoolLiquidity);
    }
    if amount_in == 0 {
        return Err(ErrorCode::InsufficientInputAmount);
    }
    let (_amount_in_used, amount_out, new_sqrt_price) = match swap_segment(
        pool.sqrt_price_x96,
        pool.global_liquidity,
        amount_in,
        swap_token_0_for_1,
    ) {
        Ok(step) => step,
        Err(e) => {
            return Err(e);
        },
    };
    if amount_out < amount_out_minimum {
        return Err(ErrorCode::SlippageExceeded);
    }
    let new_tick = match get_tick_at_sqrt_price(new_sqrt_price) {
        Ok(t) => t,
        Err(e) => {
            return Err(e);
        },
    };
    pool.sqrt_price_x96 = new_sqrt_price;
    pool.current_tick = new_tick;
    Ok(amount_out)
}

/// Liquidity conservation: adding liquidity over a range and immediately
/// removing the same amount restores the pool — its global liquidity and
/// every other field — and both boundary records' net liquidity to their
/// values before the addition. The boundary records' gross liquidity does
/// not return: it grows by the amount twice, once per booking, because
/// gross liquidity only ever accumulates.
pub proof fn lemma_liquidity_conservation(
    pre_pool: Pool,
    mid_pool: Pool,
    post_pool: Pool,
    pre_pages: TickPages,
    mid_pages: TickPages,
    post_pages: TickPages,
    lower_tick: i32,
    upper_tick: i32,
    liquidity_amount: u128,
)
    requires
        pre_pool.wf(),
        pre_pages.wf(pre_pool.tick_spacing as int),
        pre_pages.covers_range(lower_tick as int, upper_tick as int, pre_pool.tick_spacing as int),
        spec_valid_range(lower_tick, upper_tick, pre_pool.tick_spacing as int),
        liquidity_amount > 0,
        pre_pool.global_liquidity + liquidity_amount <= u128::MAX,
        mid_pool == (Pool {
            global_liquidity: (pre_pool.global_liquidity + liquidity_amount) as u128,
            ..pre_pool
        }),
        post_pool == (Pool {
            global_liquidity: (mid_pool.global_liquidity - liquidity_amount) as u128,
            ..mid_pool
        }),
        pages_after_delta(
            pre_pages,
            mid_pages,
            lower_tick as int,
            upper_tick as int,
            pre_pool.tick_spacing as int,
            liquidity_amount as int,
        ),
        pages_after_delta(
            mid_pages,
            post_pages,
            lower_tick as int,
            upper_tick as int,
            pre_pool.tick_spacing as int,
            -(liquidity_amount as int),
        ),
    ensures
        post_pool == pre_pool,
        post_pages.lower_info(lower_tick as int, pre_pool.tick_spacing as int).liquidity_net
            == pre_pages.lower_info(lower_tick as int, pre_pool.tick_spacing as int).liquidity_net,
        post_pages.upper_info(upper_tick as int, pre_pool.tick_spacing as int).liquidity_net
            == pre_pages.upper_info(upper_tick as int, pre_pool.tick_spacing as int).liquidity_net,
        post_pages.lower_info(lower_tick as int, pre_pool.tick_spacing as int).liquidity_gross
            == pre_pages.lower_info(lower_tick as int, pre_pool.tick_spacing as int).liquidity_gross
            + 2 * liquidity_amount,
        post_pages.upper_info(upper_tick as int, pre_pool.tick_spacing as int).liquidity_gross
            == pre_pages.upper_info(upper_tick as int, pre_pool.tick_spacing as int).liquidity_gross
            + 2 * liquidity_amount,
{
    let ts = pre_pool.tick_spacing as int;
    let delta = liquidity_amount as int;
    match (pre_pages, mid_pages, post_pages) {
        (TickPages::Single(a0), TickPages::Single(a1), TickPages::Single(a2)) => {
            lemma_page_addressing(lower_tick as int, upper_tick as int, a0.starting_tick as int, ts);
            let off_l = spec_tick_offset(lower_tick as int, a0.starting_tick as int, ts);
            let off_u = spec_tick_offset(upper_tick as int, a0.starting_tick as int, ts);
            let l1 = spec_update_liquidity(a0.ticks@[off_l], delta, true)->Some_0;
            let u1 = spec_update_liquidity(a0.ticks@[off_u], delta, false)->Some_0;
            assert(a1.ticks@ == a0.ticks@.update(off_l, l1).update(off_u, u1));
            assert(a1.ticks@[off_l] == l1);
            assert(a1.ticks@[off_u] == u1);
        },
        (TickPages::Split(a0, b0), TickPages::Split(a1, b1), TickPages::Split(a2, b2)) => {
            lemma_tick_offset_in_page(lower_tick as int, a0.starting_tick as int, ts);
            lemma_tick_offset_in_page(upper_tick as int, b0.starting_tick as int, ts);
            let off_l = spec_tick_offset(lower_tick as int, a0.starting_tick as int, ts);
            let off_u = spec_tick_offset(upper_tick as int, b0.starting_tick as int, ts);
            let l1 = spec_update_liquidity(a0.ticks@[off_l], delta, true)->Some_0;
            let u1 = spec_update_liquidity(b0.ticks@[off_u], delta, false)->Some_0;
            assert(a1.ticks@[off_l] == l1);
            assert(b1.ticks@[off_u] == u1);
        },
        _ => {
            assert(false);
        },
    }
}

/// Monotone gross liquidity: one range-wide booking, whatever the sign of
/// its delta, never decreases any slot's gross liquidity on any page. A
/// sequence of bookings composes this fact step by step, so gross
/// liquidity never decreases across any sequence of liquidity changes.
pub proof fn lemma_gross_monotone(
    pre: TickPages,
    post: TickPages,
    lower_tick: int,
    upper_tick: int,
    tick_spacing: int,
    delta: int,
)
    requires
        pre.wf(tick_spacing),
        pre.covers_range(lower_tick, upper_tick, tick_spacing),
        lower_tick % tick_spacing == 0,
        upper_tick % tick_spacing == 0,
        pages_after_delta(pre, post, lower_tick, upper_tick, tick_spacing, delta),
    ensures
        post.lower_page().ticks@.len() == pre.lower_page().ticks@.len(),
        post.upper_page().ticks@.len() == pre.upper_page().ticks@.len(),
        forall|j: int|
            0 <= j < pre.lower_page().ticks@.len() ==> (#[trigger] post.lower_page().ticks@[j]).liquidity_gross
                >= pre.lower_page().ticks@[j].liquidity_gross,
        forall|j: int|
            0 <= j < pre.upper_page().ticks@.len() ==> (#[trigger] post.upper_page().ticks@[j]).liquidity_gross
                >= pre.upper_page().ticks@[j].liquidity_gross,
{
    match pre {
        TickPages::Single(a0) => {
            lemma_tick_offset_in_page(lower_tick, a0.starting_tick as int, tick_spacing);
            lemma_tick_offset_in_page(upper_tick, a0.starting_tick as int, tick_spacing);
        },
        TickPages::Split(a0, b0) => {
            lemma_tick_offset_in_page(lower_tick, a0.starting_tick as int, tick_spacing);
            lemma_tick_offset_in_page(upper_tick, b0.starting_tick as int, tick_spacing);
        },
    }
}

/// Slippage gate: when the single-segment step goes through but its
/// output falls below the caller's floor, the swap refuses with
/// `SlippageExceeded` — and, by the swap's contract, every refused swap
/// leaves the pool, in particular its sqrt price and current tick,
/// exactly as it was.
pub proof fn lemma_slippage_gate(
    pool: Pool,
    amount_in: u64,
    swap_token_0_for_1: bool,
    amount_out_minimum: u64,
)
    requires
        pool.global_liquidity > 0,
        amount_in > 0,
        spec_swap_segment(
            pool.sqrt_price_x96,
            pool.global_liquidity,
            amount_in,
            swap_token_0_for_1,
        ) matches Ok(step) && step.1 < amount_out_minimum,
    ensures
        spec_swap(pool, amount_in, swap_token_0_for_1, amount_out_minimum) == Err::<
            (Pool, u64),
            ErrorCode,
        >(ErrorCode::SlippageExceeded),
{
}

} // verus!
