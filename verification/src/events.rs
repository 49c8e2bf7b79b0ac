//! Notification records.
//!
//! Event delivery is fire-and-forget telemetry owned by the host: each
//! successful operation returns the record it would emit, and the host
//! hands it to its sink.  Nothing in the protocol ever reads one back, so
//! delivery is decoupled from the state transition's atomicity.

use vstd::prelude::*;

verus! {

/// Initialization happened: the founding admin and global terms.
#[derive(Clone, Copy, Debug, PartialEq, Eq, Structural)]
pub struct InitializeEvent {
    /// The founding admin.
    pub admin: u64,
    /// The treasury vault's identity.
    pub treasury_vault: u64,
    /// The first accepted loan currency.
    pub usdt_mint: u64,
    /// The second accepted loan currency.
    pub usdc_mint: u64,
    /// Interest rate in basis points.
    pub interest_rate_bps: u16,
    /// Maximum borrow percentage in basis points.
    pub max_borrow_pct_bps: u16,
    /// Smallest accepted loan duration, in seconds.
    pub min_loan_duration_sec: i64,
    /// Largest accepted loan duration, in seconds.
    pub max_loan_duration_sec: i64,
}

/// A registry admin was added.
#[derive(Clone, Copy, Debug, PartialEq, Eq, Structural)]
pub struct AdminAddedEvent {
    /// The founding admin who added the entry.
    pub admin: u64,
    /// The identity the new entry is keyed by.
    pub new_admin_key: u64,
}

/// A user was whitelisted.
#[derive(Clone, Copy, Debug, PartialEq, Eq, Structural)]
pub struct UserWhitelistedEvent {
    /// The caller who created the entry.
    pub admin: u64,
    /// The admitted user.
    pub user_key: u64,
}

/// A user's whitelist entry was removed.
#[derive(Clone, Copy, Debug, PartialEq, Eq, Structural)]
pub struct UserWhitelistRemovedEvent {
    /// The caller who removed the entry.
    pub admin: u64,
    /// The user whose admission was revoked.
    pub user_key: u64,
}

/// The global terms were overwritten.
#[derive(Clone, Copy, Debug, PartialEq, Eq, Structural)]
pub struct ConfigUpdatedEvent {
    /// The founding admin who updated the terms.
    pub admin: u64,
    /// The new interest rate in basis points.
    pub interest_rate_bps: u16,
    /// The new maximum borrow percentage in basis points.
    pub max_borrow_pct_bps: u16,
    /// The new smallest accepted loan duration, in seconds.
    pub min_loan_duration_sec: i64,
    /// The new largest accepted loan duration, in seconds.
    pub max_loan_duration_sec: i64,
}

/// Liquidity arrived in the treasury.
#[derive(Clone, Copy, Debug, PartialEq, Eq, Structural)]
pub struct TreasuryDepositEvent {
    /// The depositing caller.
    pub admin: u64,
    /// The treasury vault's identity.
    pub treasury_vault: u64,
    /// The deposited currency.
    pub token_mint: u64,
    /// The amount moved in, in both the native and the deposited currency.
    pub amount: u64,
}

/// Liquidity left the treasury.
#[derive(Clone, Copy, Debug, PartialEq, Eq, Structural)]
pub struct TreasuryWithdrawalEvent {
    /// The receiving caller.
    pub admin: u64,
    /// The treasury vault's identity.
    pub treasury_vault: u64,
    /// The withdrawn currency.
    pub token_mint: u64,
    /// The amount moved out, in both the native and the withdrawn currency.
    pub amount: u64,
}

/// A loan was originated.
#[derive(Clone, Copy, Debug, PartialEq, Eq, Structural)]
pub struct LoanRequestedEvent {
    /// The borrower.
    pub borrower: u64,
    /// The loan record's key (the borrower's identity).
    pub loan: u64,
    /// Collateral locked into the loan's vault.
    pub collateral_amount: u64,
    /// Principal disbursed from the treasury.
    pub loan_amount: u64,
    /// The currency the loan was disbursed in.
    pub loan_mint: u64,
    /// The absolute time the loan falls due.
    pub due_time: i64,
}

/// A loan was repaid and its records retired.
#[derive(Clone, Copy, Debug, PartialEq, Eq, Structural)]
pub struct LoanRepaidEvent {
    /// The borrower.
    pub borrower: u64,
    /// The loan record's key (the borrower's identity).
    pub loan: u64,
    /// Principal plus interest paid back into the treasury.
    pub repayment_amount: u64,
    /// Collateral returned to the borrower.
    pub collateral_released_amount: u64,
}

/// An overdue loan was liquidated and its records retired.
#[derive(Clone, Copy, Debug, PartialEq, Eq, Structural)]
pub struct LoanLiquidatedEvent {
    /// The borrower whose collateral was seized.
    pub borrower: u64,
    /// The loan record's key (the borrower's identity).
    pub loan: u64,
    /// The vault's full balance, seized into the treasury.
    pub collateral_liquidated_amount: u64,
}

} // verus!
