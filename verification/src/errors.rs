//! The error taxonomy of the protocol.
//!
//! Every operation fails as a whole: an error means no state change at all.

use vstd::prelude::*;

verus! {

/// Why an operation was rejected.  Each variant belongs to one of the
/// protocol's failure classes: wrong state (`LoanNotActive`,
/// `LoanAlreadyActive`, `UserNotWhitelisted`, `LoanNotDueForLiquidation`,
/// `AlreadyInitialized`, `NotInitialized`), invalid argument
/// (`InvalidLoanDuration`, `InvalidLoanMint`, `MathOverflow`), missing
/// authority (`Unauthorized`), record conflict (`AlreadyExists`,
/// `NotFound`) and transfer failure (`InsufficientFunds`).
#[derive(Clone, Copy, Debug, PartialEq, Eq, Structural)]
pub enum ErrorCode {
    /// The singleton configuration already exists.
    AlreadyInitialized,
    /// The operation needs the configuration, which does not exist yet.
    NotInitialized,
    /// The caller is not the founding admin.
    Unauthorized,
    /// A record with this key already exists.
    AlreadyExists,
    /// No record with this key exists.
    NotFound,
    /// The loan record is not active.  The state invariant keeps every
    /// stored loan active — repayment and liquidation retire the record —
    /// so no operation here returns this; it names the wrong-state class
    /// a host may still need to report around the core.
    LoanNotActive,
    /// The loan's due time has not strictly passed.
    LoanNotDueForLiquidation,
    /// The borrower holds no whitelist entry.
    UserNotWhitelisted,
    /// The borrower already holds an active loan.
    LoanAlreadyActive,
    /// The requested duration lies outside the configured bounds.
    InvalidLoanDuration,
    /// The requested loan currency is not one of the two accepted ones.
    InvalidLoanMint,
    /// The paying balance is too small for the transfer.
    InsufficientFunds,
    /// A computed amount or time does not fit its machine type.
    MathOverflow,
}

} // verus!
