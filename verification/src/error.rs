use vstd::prelude::*;

verus! {

/// The one error kind that a failed operation reports.
///
/// An operation that fails leaves every record it was given as it found it.
#[derive(Clone, Copy, Debug, PartialEq, Eq, Structural)]
pub enum PumpError {
    /// A checked arithmetic step left the range of its integer type.
    ArithmeticOverflow,
    /// The curve is not in the state the operation needs, or a reserve that prices the trade is
    /// zero.
    InvalidCurveState,
    /// Pricing would hand out more than the reserve it draws from.
    InvariantViolation,
    /// The curve cannot pay the native balance the trade asks for.
    InsufficientSol,
    /// The curve does not hold the tokens the trade asks for.
    InsufficientTokens,
    /// The amount offered is zero.
    InvalidAmount,
    /// An account handed to the operation is not the one derived for its role, or is held by
    /// another owner or for another asset.
    ExternalAccountMismatch,
    /// The treasury address is the all-zero address.
    InvalidTreasury,
    /// A fee setting lies above its maximum.
    IncorrectValue,
    /// The fee recipient is not the treasury that the configuration names.
    IncorrectFeeRecipient,
}

} // verus!
