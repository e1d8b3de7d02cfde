//! Why a call is refused.

use vstd::prelude::*;

verus! {

/// The refusals that the trading rules themselves pronounce.
#[derive(Clone, Copy, Debug, PartialEq, Eq, Structural)]
pub enum ErrorCode {
    /// A trade was attempted on a deactivated account.
    AccountNotActive,
    /// The traded amount is above the account's ceiling.
    AmountExceedsLimit,
    /// The caller is not the account's owner.
    Unauthorized,
}

/// Every way in which one of the four operations can fail.
#[derive(Clone, Copy, Debug, PartialEq, Eq, Structural)]
pub enum TradingError {
    /// A record already exists at the owner's derived address.
    AccountAlreadyInitialized,
    /// No record exists at the derived address.
    AccountNotInitialized,
    /// The record exists and the trading rules refuse the call.
    Program(ErrorCode),
}

} // verus!
