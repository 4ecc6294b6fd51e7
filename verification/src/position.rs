//! One owner's liquidity claim over a tick range of one pool.
use vstd::prelude::*;

use crate::AccountId;

verus! {

/// A position exists per (owner, pool, tick range). It is created on the
/// first deposit for that key, grows and shrinks through liquidity
/// changes, and is reclaimed when it is closed with no liquidity left.
#[derive(Clone, Copy, PartialEq, Eq, Structural, Debug)]
pub struct Position {
    pub liquidity: u128,
    pub tick_lower: i32,
    pub tick_upper: i32,
    pub owner: AccountId,
    pub pool: AccountId,
}

impl Position {
    /// Position well-formedness for a pool with the given tick spacing: a
    /// proper range whose two bounds are spacing-aligned. The liquidity may
    /// be zero only transiently, between a full withdrawal and the close
    /// that reclaims the position.
    pub open spec fn wf(self, tick_spacing: int) -> bool {
        &&& self.tick_lower < self.tick_upper
        &&& self.tick_lower as int % tick_spacing == 0
        &&& self.tick_upper as int % tick_spacing == 0
    }
}

} // verus!
