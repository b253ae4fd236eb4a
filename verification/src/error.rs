//! The error taxonomy of the engine. Each kind is distinct and caller
//! visible; no guard failure is ever coerced into another kind. Every
//! failure aborts the operation whole: no partial mutation, no emitted
//! messages.

use vstd::prelude::*;

verus! {

#[derive(Clone, Copy, Debug, PartialEq, Eq, Structural)]
pub enum ContractError {
    /// The caller is not the owner (admin operations), or has no bot-role
    /// entry at all (buy operation).
    Unauthorized,
    /// The caller's bot-role entry exists but is explicitly disabled.
    UnauthorizedRole,
    /// The current chain time is strictly past the order's deadline.
    Expired,
    /// The slippage tolerance exceeds 100% (10000 basis points).
    SlippageOutOfRange,
    /// The declared gas estimate exceeds the gross input amount.
    InsufficientInputForGas,
    /// Nothing would be left to swap once gas and the platform fee are taken.
    InsufficientAmountToSwap,
    /// The withdrawal amount exceeds the accrued pending fee.
    FeeUnderflow,
    /// A fee or amount computation would exceed the numeric range.
    ArithmeticOverflow,
    /// The persistence collaborator could not load or save state. The engine
    /// itself never produces this; the shell around it maps storage faults
    /// here.
    StorageFailure,
}

} // verus!
