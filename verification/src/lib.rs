//! Accounting and pricing core of a concentrated-liquidity market maker
//! (CLMM): tick-index price math, paged per-tick liquidity ledgers, pool and
//! position state, and single-segment swap execution.
//!
//! Custody of funds, account storage, and caller authentication are external
//! collaborators: the engine functions here take the affected state as plain
//! values, validate every request, mutate the state all-or-nothing, and
//! return the token amounts that an external ledger is to move.
use vstd::prelude::*;

pub mod engine;
pub mod errors;
pub mod pool;
pub mod position;
pub mod tick;
pub mod math;

verus! {

/// Identifier of an externally stored entity (an asset mint, a custody
/// vault, or an owner). The core never inspects an identifier; it only
/// compares identifiers for equality.
#[derive(Clone, Copy, PartialEq, Eq, Structural, Debug)]
pub struct AccountId(pub u64);

} // verus!
