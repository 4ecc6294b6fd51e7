//! Error taxonomy of the core. Every failure is terminal for the one
//! operation that raised it: the operation aborts before any state mutation
//! becomes visible, and nothing is retried inside the core.
use vstd::prelude::*;

verus! {

/// Why an operation was refused. Input-validation errors mean the caller
/// must correct the request; state-validation errors mean the request does
/// not fit the current pool or position state; `ArithmeticOverflow` means a
/// checked arithmetic step could not represent its result; and
/// `SlippageExceeded` means the computed output fell below the caller's
/// floor.
#[derive(Clone, Copy, PartialEq, Eq, Structural, Debug)]
pub enum ErrorCode {
    ArithmeticOverflow,
    InvalidTickRange,
    InsufficientInputAmount,
    SlippageExceeded,
    InvalidTickSpacing,
    InvalidTokenPair,
    InvalidPositionOwner,
    InvalidPositionRange,
    InvalidTickArrayAccount,
    MintRangeMustCoverCurrentPrice,
    NoLiquidityToRemove,
    InsufficientPoolLiquidity,
}

} // verus!
