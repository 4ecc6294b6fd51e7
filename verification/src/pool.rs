//! Aggregate state of one trading pair.
use vstd::prelude::*;

use crate::AccountId;
use crate::math::tick_of_sqrt_price;

verus! {

/// One pool per (asset 0, asset 1, tick spacing) triple: the current sqrt
/// price with its derived tick, the total liquidity active at that price,
/// and the identifiers of the pair's mints and custody vaults. `bump` is
/// the authority derivation tag the hosting environment assigned to the
/// pool.
#[derive(Clone, Copy, PartialEq, Eq, Structural, Debug)]
pub struct Pool {
    pub token_mint_0: AccountId,
    pub token_mint_1: AccountId,
    pub token_vault_0: AccountId,
    pub token_vault_1: AccountId,
    pub global_liquidity: u128,
    pub sqrt_price_x96: u128,
    pub current_tick: i32,
    pub tick_spacing: i32,
    pub bump: u8,
}

impl Pool {
    /// Pool well-formedness: a positive tick spacing, distinct asset
    /// mints, a sqrt price inside the signed 128-bit intermediate range
    /// the tick conversion needs, and a current tick consistent with the
    /// sqrt price under the inverse tick mapping.
    pub open spec fn wf(self) -> bool {
        &&& self.tick_spacing > 0
        &&& self.token_mint_0 != self.token_mint_1
        &&& self.sqrt_price_x96 <= i128::MAX
        &&& self.current_tick as int == tick_of_sqrt_price(self.sqrt_price_x96 as int)
    }
}

} // verus!
