//! A verified model of a collateralized lending protocol.
//!
//! A founding admin configures global lending terms and gates participation
//! through a whitelist; whitelisted borrowers take fixed-term, fixed-rate
//! loans against locked collateral, funded from a shared treasury.  The
//! library holds the whole lending/treasury state machine — configuration,
//! admin and whitelist gating, collateral locking, interest computation,
//! loan maturity, repayment and liquidation — as verified code over plain
//! values.  Durable storage, value-transfer execution, the wall clock and
//! event delivery belong to the host: the host reads the clock and hands
//! the timestamp in, and each operation returns the notification record it
//! would emit.

pub mod errors;
pub mod accounts;
pub mod ledger;
pub mod treasury;
pub mod events;
pub mod protocol;
pub mod laws;
