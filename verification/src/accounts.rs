//! The persisted records of the protocol.
//!
//! Identities and currencies are plain `u64` keys handed in by the host,
//! which owns addressing; monetary amounts are unsigned 64-bit minor units;
//! times are Unix seconds.

use vstd::prelude::*;

verus! {

/// The singleton global configuration, created once at initialization and
/// mutated only by a configuration update.  No bounds validation is
/// performed when it is written: loan requests validate against whatever
/// it holds.
#[derive(Clone, Copy, Debug, PartialEq, Eq, Structural)]
pub struct ProgramConfig {
    /// The founding admin: the only identity that may update the
    /// configuration or add registry admins.
    pub initial_admin: u64,
    /// The treasury vault's identity, recorded for notifications.
    pub treasury_vault: u64,
    /// The first accepted loan currency; also the collateral currency.
    pub usdt_mint: u64,
    /// The second accepted loan currency.
    pub usdc_mint: u64,
    /// Interest rate in basis points, fixed at origination into each loan.
    pub interest_rate_bps: u16,
    /// Maximum borrow percentage in basis points (recorded, not enforced).
    pub max_borrow_pct_bps: u16,
    /// Smallest accepted loan duration, in seconds.
    pub min_loan_duration_sec: i64,
    /// Largest accepted loan duration, in seconds.
    pub max_loan_duration_sec: i64,
}

/// A registry admin record, keyed by the admin's identity.  Entries are
/// created by the founding admin and never deactivated; no authorization
/// check consults them — configuration and registry changes are gated on
/// the founding admin alone.
#[derive(Clone, Copy, Debug, PartialEq, Eq, Structural)]
pub struct AdminEntry {
    /// The admin's identity (equal to the record's key).
    pub admin_key: u64,
    /// Whether the entry is active; always true once created.
    pub is_active: bool,
}

/// A whitelist record, keyed by the user's identity.  Created to admit a
/// user, deleted to revoke admission.
#[derive(Clone, Copy, Debug, PartialEq, Eq, Structural)]
pub struct WhitelistEntry {
    /// The user's identity (equal to the record's key).
    pub user_key: u64,
    /// Whether the user is admitted; always true once created.
    pub is_whitelisted: bool,
}

/// A loan record, keyed by the borrower's identity: the key uniqueness is
/// what keeps each borrower to at most one open loan.
#[derive(Clone, Copy, Debug, PartialEq, Eq, Structural)]
pub struct Loan {
    /// The borrower's identity (equal to the record's key).
    pub borrower: u64,
    /// The key of the loan's collateral vault (the borrower's identity).
    pub collateral_vault: u64,
    /// Collateral locked at origination, in collateral-currency units.
    pub collateral_locked_usdt_amount: u64,
    /// The principal disbursed from the treasury.
    pub loan_amount_borrowed: u64,
    /// The currency the loan was disbursed in.
    pub loan_mint: u64,
    /// Principal plus interest, computed once at origination.
    pub repayment_amount: u64,
    /// The absolute Unix time after which the loan may be liquidated.
    pub loan_due_time: i64,
    /// Whether the loan is open; every stored record is active, since
    /// repayment and liquidation both remove the record.
    pub is_active: bool,
}

/// A per-loan vault holding the borrower's locked collateral.  It exists
/// exactly as long as the loan does: repayment returns its balance to the
/// borrower and liquidation seizes it into the treasury, and either way
/// both records are retired together, restoring the borrower's no-loan
/// state.
#[derive(Clone, Copy, Debug, PartialEq, Eq, Structural)]
pub struct CollateralVault {
    /// The borrower the vault is scoped to (equal to the record's key).
    pub borrower: u64,
    /// The vault's full balance, in collateral-currency units.
    pub balance: u64,
}

} // verus!
