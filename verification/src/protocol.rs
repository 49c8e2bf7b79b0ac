//! The lending/treasury state machine.
//!
//! One value of [`LendingProtocol`] holds every record the protocol owns:
//! the singleton configuration, the admin registry, the whitelist, the
//! treasury, the per-borrower loan records with their collateral vaults,
//! and the wallet balances the external transfer executor keeps for the
//! identities around the protocol.  Each operation is one host call: it
//! validates, then either commits every effect and returns the
//! notification record, or returns an error having changed nothing.
//!
//! The host supplies what the machine cannot know: who signed the call
//! (`caller` and `borrower` arguments carry already-authenticated
//! identities) and the clock reading (`now`).
//!
//! Authorization policy, stated here once and pinned by the contracts:
//! `update_config` and `add_admin` are gated on the founding admin alone —
//! registry entries confer no authority.  Whitelisting, whitelist removal,
//! deposit and withdrawal are open to any authenticated caller.

use vstd::prelude::*;
use std::collections::HashMap;
use crate::accounts::{AdminEntry, CollateralVault, Loan, ProgramConfig, WhitelistEntry};
use crate::errors::ErrorCode;
use crate::events::{
    AdminAddedEvent, ConfigUpdatedEvent, InitializeEvent, LoanLiquidatedEvent, LoanRepaidEvent,
    LoanRequestedEvent, TreasuryDepositEvent, TreasuryWithdrawalEvent, UserWhitelistRemovedEvent,
    UserWhitelistedEvent,
};
use crate::ledger::Ledger;
use crate::treasury::TreasuryVault;

verus! {

/// The native currency every identity also holds a balance in; a deposit
/// or withdrawal moves it alongside the named token currency.
pub const NATIVE_CURRENCY: u64 = 0;

/// The basis-point denominator: 10000 basis points are the whole.
pub const BPS_DENOMINATOR: u64 = 10000;

/// The whole state the protocol owns, plus the wallet balances around it.
pub struct LendingProtocol {
    /// The singleton configuration; `None` until `initialize`.
    pub config: Option<ProgramConfig>,
    /// Registry admin records, keyed by admin identity.
    pub admins: HashMap<u64, AdminEntry>,
    /// Whitelist records, keyed by user identity.
    pub whitelist: HashMap<u64, WhitelistEntry>,
    /// The pooled treasury, keyed by currency.
    pub treasury: TreasuryVault,
    /// Loan records, keyed by borrower identity: the key uniqueness keeps
    /// each borrower to at most one open loan.
    pub loans: HashMap<u64, Loan>,
    /// Collateral vaults, keyed by borrower identity.
    pub collateral_vaults: HashMap<u64, CollateralVault>,
    /// Wallet balances of users and admins.
    pub wallets: Ledger,
}

impl LendingProtocol {
    /// Every record is internally consistent: a loan and its vault exist
    /// together, are keyed by their borrower and agree on the locked
    /// collateral; stored loans are active; registry and whitelist entries
    /// are keyed by their identity and active; and no loan predates
    /// initialization.
    pub open spec fn wf(&self) -> bool {
        &&& forall|b: u64| #[trigger] self.loans@.contains_key(b) ==> {
            &&& self.loans@[b].borrower == b
            &&& self.loans@[b].collateral_vault == b
            &&& self.loans@[b].is_active
        }
        &&& forall|b: u64|
            #![trigger self.loans@.contains_key(b)]
            #![trigger self.collateral_vaults@.contains_key(b)]
            self.loans@.contains_key(b) <==> self.collateral_vaults@.contains_key(b)
        &&& forall|b: u64| #[trigger] self.collateral_vaults@.contains_key(b)
            && self.loans@.contains_key(b) ==> {
            &&& self.collateral_vaults@[b].borrower == b
            &&& self.collateral_vaults@[b].balance == self.loans@[b].collateral_locked_usdt_amount
        }
        &&& forall|a: u64| #[trigger] self.admins@.contains_key(a) ==> {
            &&& self.admins@[a].admin_key == a
            &&& self.admins@[a].is_active
        }
        &&& forall|u: u64| #[trigger] self.whitelist@.contains_key(u) ==> {
            &&& self.whitelist@[u].user_key == u
            &&& self.whitelist@[u].is_whitelisted
        }
        &&& self.config is None ==> forall|b: u64| !(#[trigger] self.loans@.contains_key(b))
    }

    /// Whether the singleton configuration exists.
    pub open spec fn is_initialized(&self) -> bool {
        self.config is Some
    }

    /// Whether `user` holds a whitelist entry.
    pub open spec fn spec_is_whitelisted(&self, user: u64) -> bool {
        self.whitelist@.contains_key(user)
    }

    /// Whether `borrower` holds an open loan.
    pub open spec fn has_loan(&self, borrower: u64) -> bool {
        self.loans@.contains_key(borrower)
    }

    /// A fresh, uninitialized protocol: no records, every balance zero.
    pub fn new() -> (s: LendingProtocol)
        ensures
            s.wf(),
            !s.is_initialized(),
            s.admins@ == Map::<u64, AdminEntry>::empty(),
            s.whitelist@ == Map::<u64, WhitelistEntry>::empty(),
            s.loans@ == Map::<u64, Loan>::empty(),
            s.collateral_vaults@ == Map::<u64, CollateralVault>::empty(),
            forall|c: u64| #[trigger] s.treasury.spec_balance(c) == 0,
            forall|o: u64, c: u64| #[trigger] s.wallets.spec_balance(o, c) == 0,
    {
        LendingProtocol {
            config: None,
            admins: HashMap::new(),
            whitelist: HashMap::new(),
            treasury: TreasuryVault::new(),
            loans: HashMap::new(),
            collateral_vaults: HashMap::new(),
            wallets: Ledger::new(),
        }
    }

    /// Why `initialize` would be rejected, or `None` if it succeeds.
    pub open spec fn initialize_check(pre: LendingProtocol) -> Option<ErrorCode> {
        if pre.config is Some {
            Some(ErrorCode::AlreadyInitialized)
        } else {
            None
        }
    }

    /// Creates the singleton configuration and the treasury, recording the
    /// caller as the founding admin.  The numeric parameters are stored as
    /// given: bounds are validated at loan request time, not here.
    pub fn initialize(
        &mut self,
        admin: u64,
        treasury_vault: u64,
        usdt_mint: u64,
        usdc_mint: u64,
        interest_rate_bps: u16,
        max_borrow_pct_bps: u16,
        min_loan_duration_sec: i64,
        max_loan_duration_sec: i64,
    ) -> (r: Result<InitializeEvent, ErrorCode>)
        requires
            old(self).wf(),
        ensures
            final(self).wf(),
            match r {
                Ok(ev) => {
                    &&& Self::initialize_check(*old(self)) is None
                    &&& final(self).config == Some(
                        ProgramConfig {
                            initial_admin: admin,
                            treasury_vault,
                            usdt_mint,
                            usdc_mint,
                            interest_rate_bps,
                            max_borrow_pct_bps,
                            min_loan_duration_sec,
                            max_loan_duration_sec,
                        },
                    )
                    &&& final(self).admins == old(self).admins
                    &&& final(self).whitelist == old(self).whitelist
                    &&& final(self).treasury == old(self).treasury
                    &&& final(self).loans == old(self).loans
                    &&& final(self).collateral_vaults == old(self).collateral_vaults
                    &&& final(self).wallets == old(self).wallets
                    &&& ev == (InitializeEvent {
                        admin,
                        treasury_vault,
                        usdt_mint,
                        usdc_mint,
                        interest_rate_bps,
                        max_borrow_pct_bps,
                        min_loan_duration_sec,
                        max_loan_duration_sec,
                    })
                },
                Err(e) => {
                    &&& Some(e) == Self::initialize_check(*old(self))
                    &&& *final(self) == *old(self)
                },
            },
    {
        if self.config.is_some() {
            return Err(ErrorCode::AlreadyInitialized);
        }
        self.config = Some(
            ProgramConfig {
                initial_admin: admin,
                treasury_vault,
                usdt_mint,
                usdc_mint,
                interest_rate_bps,
                max_borrow_pct_bps,
                min_loan_duration_sec,
                max_loan_duration_sec,
            },
        );
        Ok(
            InitializeEvent {
                admin,
                treasury_vault,
                usdt_mint,
                usdc_mint,
                interest_rate_bps,
                max_borrow_pct_bps,
                min_loan_duration_sec,
                max_loan_duration_sec,
            },
        )
    }

    /// Why `update_config` would be rejected, or `None` if it succeeds.
    pub open spec fn update_config_check(pre: LendingProtocol, caller: u64) -> Option<ErrorCode> {
        if pre.config is None {
            Some(ErrorCode::NotInitialized)
        } else if caller != pre.config->Some_0.initial_admin {
            Some(ErrorCode::Unauthorized)
        } else {
            None
        }
    }

    /// Overwrites the four numeric terms at once.  Only the founding
    /// admin recorded in the configuration may call this; holding a
    /// registry admin entry confers no right to it.
    pub fn update_config(
        &mut self,
        caller: u64,
        interest_rate_bps: u16,
        max_borrow_pct_bps: u16,
        min_loan_duration_sec: i64,
        max_loan_duration_sec: i64,
    ) -> (r: Result<ConfigUpdatedEvent, ErrorCode>)
        requires
            old(self).wf(),
        ensures
            final(self).wf(),
            match r {
                Ok(ev) => {
                    &&& Self::update_config_check(*old(self), caller) is None
                    &&& final(self).config == Some(
                        ProgramConfig {
                            interest_rate_bps,
                            max_borrow_pct_bps,
                            min_loan_duration_sec,
                            max_loan_duration_sec,
                            ..old(self).config->Some_0
                        },
                    )
                    &&& final(self).admins == old(self).admins
                    &&& final(self).whitelist == old(self).whitelist
                    &&& final(self).treasury == old(self).treasury
                    &&& final(self).loans == old(self).loans
                    &&& final(self).collateral_vaults == old(self).collateral_vaults
                    &&& final(self).wallets == old(self).wallets
                    &&& ev == (ConfigUpdatedEvent {
                        admin: caller,
                        interest_rate_bps,
                        max_borrow_pct_bps,
                        min_loan_duration_sec,
                        max_loan_duration_sec,
                    })
                },
                Err(e) => {
                    &&& Some(e) == Self::update_config_check(*old(self), caller)
                    &&& *final(self) == *old(self)
                },
            },
    {
        let cfg = match &self.config {
            Some(c) => *c,
            None => {
                return Err(ErrorCode::NotInitialized);
            },
        };
        if caller != cfg.initial_admin {
            return Err(ErrorCode::Unauthorized);
        }
        self.config = Some(
            ProgramConfig {
                interest_rate_bps,
                max_borrow_pct_bps,
                min_loan_duration_sec,
                max_loan_duration_sec,
                ..cfg
            },
        );
        Ok(
            ConfigUpdatedEvent {
                admin: caller,
                interest_rate_bps,
                max_borrow_pct_bps,
                min_loan_duration_sec,
                max_loan_duration_sec,
            },
        )
    }

    /// Why `add_admin` would be rejected, or `None` if it succeeds.
    pub open spec fn add_admin_check(
        pre: LendingProtocol,
        caller: u64,
        new_admin_key: u64,
    ) -> Option<ErrorCode> {
        if pre.config is None {
            Some(ErrorCode::NotInitialized)
        } else if caller != pre.config->Some_0.initial_admin {
            Some(ErrorCode::Unauthorized)
        } else if pre.admins@.contains_key(new_admin_key) {
            Some(ErrorCode::AlreadyExists)
        } else {
            None
        }
    }

    /// Creates an active registry entry for `new_admin_key`.  Only the
    /// founding admin may call this, and a second entry for the same
    /// identity is a creation conflict.
    pub fn add_admin(&mut self, caller: u64, new_admin_key: u64) -> (r: Result<
        AdminAddedEvent,
        ErrorCode,
    >)
        requires
            old(self).wf(),
        ensures
            final(self).wf(),
            match r {
                Ok(ev) => {
                    &&& Self::add_admin_check(*old(self), caller, new_admin_key) is None
                    &&& final(self).admins@ == old(self).admins@.insert(
                        new_admin_key,
                        AdminEntry { admin_key: new_admin_key, is_active: true },
                    )
                    &&& final(self).config == old(self).config
                    &&& final(self).whitelist == old(self).whitelist
                    &&& final(self).treasury == old(self).treasury
                    &&& final(self).loans == old(self).loans
                    &&& final(self).collateral_vaults == old(self).collateral_vaults
                    &&& final(self).wallets == old(self).wallets
                    &&& ev == (AdminAddedEvent { admin: caller, new_admin_key })
                },
                Err(e) => {
                    &&& Some(e) == Self::add_admin_check(*old(self), caller, new_admin_key)
                    &&& *final(self) == *old(self)
                },
            },
    {
        let cfg = match &self.config {
            Some(c) => *c,
            None => {
                return Err(ErrorCode::NotInitialized);
            },
        };
        if caller != cfg.initial_admin {
            return Err(ErrorCode::Unauthorized);
        }
        if self.admins.contains_key(&new_admin_key) {
            return Err(ErrorCode::AlreadyExists);
        }
        self.admins.insert(new_admin_key, AdminEntry { admin_key: new_admin_key, is_active: true });
        Ok(AdminAddedEvent { admin: caller, new_admin_key })
    }

    /// Why `whitelist_user` would be rejected, or `None` if it succeeds.
    pub open spec fn whitelist_user_check(pre: LendingProtocol, user_key: u64) -> Option<
        ErrorCode,
    > {
        if pre.whitelist@.contains_key(user_key) {
            Some(ErrorCode::AlreadyExists)
        } else {
            None
        }
    }

    /// Admits `user_key`: creates its whitelist entry.  Open to any
    /// authenticated caller by the protocol's authorization policy; a
    /// second entry for the same user is a creation conflict.
    pub fn whitelist_user(&mut self, caller: u64, user_key: u64) -> (r: Result<
        UserWhitelistedEvent,
        ErrorCode,
    >)
        requires
            old(self).wf(),
        ensures
            final(self).wf(),
            match r {
                Ok(ev) => {
                    &&& Self::whitelist_user_check(*old(self), user_key) is None
                    &&& final(self).whitelist@ == old(self).whitelist@.insert(
                        user_key,
                        WhitelistEntry { user_key, is_whitelisted: true },
                    )
                    &&& final(self).config == old(self).config
                    &&& final(self).admins == old(self).admins
                    &&& final(self).treasury == old(self).treasury
                    &&& final(self).loans == old(self).loans
                    &&& final(self).collateral_vaults == old(self).collateral_vaults
                    &&& final(self).wallets == old(self).wallets
                    &&& ev == (UserWhitelistedEvent { admin: caller, user_key })
                },
                Err(e) => {
                    &&& Some(e) == Self::whitelist_user_check(*old(self), user_key)
                    &&& *final(self) == *old(self)
                },
            },
    {
        if self.whitelist.contains_key(&user_key) {
            return Err(ErrorCode::AlreadyExists);
        }
        self.whitelist.insert(user_key, WhitelistEntry { user_key, is_whitelisted: true });
        Ok(UserWhitelistedEvent { admin: caller, user_key })
    }

    /// Why `remove_whitelist` would be rejected, or `None` if it succeeds.
    pub open spec fn remove_whitelist_check(pre: LendingProtocol, user_key: u64) -> Option<
        ErrorCode,
    > {
        if !pre.whitelist@.contains_key(user_key) {
            Some(ErrorCode::NotFound)
        } else {
            None
        }
    }

    /// Revokes `user_key`'s admission: deletes its whitelist entry and
    /// reclaims the record's storage to the caller.  Open to any
    /// authenticated caller by the protocol's authorization policy.
    pub fn remove_whitelist(&mut self, caller: u64, user_key: u64) -> (r: Result<
        UserWhitelistRemovedEvent,
        ErrorCode,
    >)
        requires
            old(self).wf(),
        ensures
            final(self).wf(),
            match r {
                Ok(ev) => {
                    &&& Self::remove_whitelist_check(*old(self), user_key) is None
                    &&& final(self).whitelist@ == old(self).whitelist@.remove(user_key)
                    &&& final(self).config == old(self).config
                    &&& final(self).admins == old(self).admins
                    &&& final(self).treasury == old(self).treasury
                    &&& final(self).loans == old(self).loans
                    &&& final(self).collateral_vaults == old(self).collateral_vaults
                    &&& final(self).wallets == old(self).wallets
                    &&& ev == (UserWhitelistRemovedEvent { admin: caller, user_key })
                },
                Err(e) => {
                    &&& Some(e) == Self::remove_whitelist_check(*old(self), user_key)
                    &&& *final(self) == *old(self)
                },
            },
    {
        if !self.whitelist.contains_key(&user_key) {
            return Err(ErrorCode::NotFound);
        }
        self.whitelist.remove(&user_key);
        Ok(UserWhitelistRemovedEvent { admin: caller, user_key })
    }

    /// `post` is `pre` with the two wallet cells shifted by their deltas —
    /// added up when the cells coincide — and every other cell unchanged.
    pub open spec fn wallets_shifted2(
        pre: Ledger,
        post: Ledger,
        o1: u64,
        c1: u64,
        d1: int,
        o2: u64,
        c2: u64,
        d2: int,
    ) -> bool {
        forall|o: u64, c: u64|
            #![trigger post.spec_balance(o, c)]
            post.spec_balance(o, c) == pre.spec_balance(o, c) + (if o == o1 && c == c1 {
                d1
            } else {
                0
            }) + (if o == o2 && c == c2 {
                d2
            } else {
                0
            })
    }

    /// `post` is `pre` with the two treasury balances shifted by their
    /// deltas — added up when the currencies coincide — and every other
    /// balance unchanged.
    pub open spec fn treasury_shifted2(
        pre: TreasuryVault,
        post: TreasuryVault,
        c1: u64,
        d1: int,
        c2: u64,
        d2: int,
    ) -> bool {
        forall|c: u64|
            #![trigger post.spec_balance(c)]
            post.spec_balance(c) == pre.spec_balance(c) + (if c == c1 {
                d1
            } else {
                0
            }) + (if c == c2 {
                d2
            } else {
                0
            })
    }

    /// `post` is `pre` with one treasury balance shifted by `d1` and every
    /// other balance unchanged.
    pub open spec fn treasury_shifted1(
        pre: TreasuryVault,
        post: TreasuryVault,
        c1: u64,
        d1: int,
    ) -> bool {
        forall|c: u64|
            #![trigger post.spec_balance(c)]
            post.spec_balance(c) == pre.spec_balance(c) + (if c == c1 {
                d1
            } else {
                0
            })
    }

    /// Why `deposit_to_treasury` would be rejected, or `None` if it
    /// succeeds.  The two legs — the native one, then the one in
    /// `currency` — are checked in order against the balances each would
    /// see, so both succeed or nothing moves.
    pub open spec fn deposit_check(
        pre: LendingProtocol,
        caller: u64,
        amount: u64,
        currency: u64,
    ) -> Option<ErrorCode> {
        if pre.config is None {
            Some(ErrorCode::NotInitialized)
        } else if pre.wallets.spec_balance(caller, NATIVE_CURRENCY) < amount {
            Some(ErrorCode::InsufficientFunds)
        } else if pre.treasury.spec_balance(NATIVE_CURRENCY) + amount > u64::MAX {
            Some(ErrorCode::MathOverflow)
        } else if pre.wallets.spec_balance(caller, currency) - (if currency == NATIVE_CURRENCY {
            amount as int
        } else {
            0
        }) < amount {
            Some(ErrorCode::InsufficientFunds)
        } else if pre.treasury.spec_balance(currency) + (if currency == NATIVE_CURRENCY {
            amount as int
        } else {
            0
        }) + amount > u64::MAX {
            Some(ErrorCode::MathOverflow)
        } else {
            None
        }
    }

    /// Feeds the treasury: moves `amount` of the native currency and
    /// `amount` of `currency` from the caller into the pool, atomically —
    /// if either leg cannot go through, nothing moves.  Open to any
    /// authenticated caller by the protocol's authorization policy.
    pub fn deposit_to_treasury(&mut self, admin: u64, amount: u64, currency: u64) -> (r: Result<
        TreasuryDepositEvent,
        ErrorCode,
    >)
        requires
            old(self).wf(),
        ensures
            final(self).wf(),
            match r {
                Ok(ev) => {
                    &&& Self::deposit_check(*old(self), admin, amount, currency) is None
                    &&& Self::wallets_shifted2(
                        old(self).wallets,
                        final(self).wallets,
                        admin,
                        NATIVE_CURRENCY,
                        -(amount as int),
                        admin,
                        currency,
                        -(amount as int),
                    )
                    &&& Self::treasury_shifted2(
                        old(self).treasury,
                        final(self).treasury,
                        NATIVE_CURRENCY,
                        amount as int,
                        currency,
                        amount as int,
                    )
                    &&& final(self).config == old(self).config
                    &&& final(self).admins == old(self).admins
                    &&& final(self).whitelist == old(self).whitelist
                    &&& final(self).loans == old(self).loans
                    &&& final(self).collateral_vaults == old(self).collateral_vaults
                    &&& ev == (TreasuryDepositEvent {
                        admin,
                        treasury_vault: old(self).config->Some_0.treasury_vault,
                        token_mint: currency,
                        amount,
                    })
                },
                Err(e) => {
                    &&& Some(e) == Self::deposit_check(*old(self), admin, amount, currency)
                    &&& *final(self) == *old(self)
                },
            },
    {
        let cfg = match &self.config {
            Some(c) => *c,
            None => {
                return Err(ErrorCode::NotInitialized);
            },
        };
        let native0 = self.wallets.balance_of(admin, NATIVE_CURRENCY);
        if native0 < amount {
            return Err(ErrorCode::InsufficientFunds);
        }
        let treasury_native0 = self.treasury.balance_of(NATIVE_CURRENCY);
        if amount > u64::MAX - treasury_native0 {
            return Err(ErrorCode::MathOverflow);
        }
        let token_avail = if currency == NATIVE_CURRENCY {
            native0 - amount
        } else {
            self.wallets.balance_of(admin, currency)
        };
        if token_avail < amount {
            return Err(ErrorCode::InsufficientFunds);
        }
        let treasury_token0 = if currency == NATIVE_CURRENCY {
            treasury_native0 + amount
        } else {
            self.treasury.balance_of(currency)
        };
        if amount > u64::MAX - treasury_token0 {
            return Err(ErrorCode::MathOverflow);
        }
        self.wallets.debit(admin, NATIVE_CURRENCY, amount);
        self.wallets.debit(admin, currency, amount);
        self.treasury.credit(NATIVE_CURRENCY, amount);
        self.treasury.credit(currency, amount);
        Ok(
            TreasuryDepositEvent {
                admin,
                treasury_vault: cfg.treasury_vault,
                token_mint: currency,
                amount,
            },
        )
    }

    /// Why `withdraw_from_treasury` would be rejected, or `None` if it
    /// succeeds.  The two legs are checked in order, as in
    /// [`Self::deposit_check`], but from the pool to the caller.
    pub open spec fn withdraw_check(
        pre: LendingProtocol,
        caller: u64,
        amount: u64,
        currency: u64,
    ) -> Option<ErrorCode> {
        if pre.config is None {
            Some(ErrorCode::NotInitialized)
        } else if pre.treasury.spec_balance(NATIVE_CURRENCY) < amount {
            Some(ErrorCode::InsufficientFunds)
        } else if pre.wallets.spec_balance(caller, NATIVE_CURRENCY) + amount > u64::MAX {
            Some(ErrorCode::MathOverflow)
        } else if pre.treasury.spec_balance(currency) - (if currency == NATIVE_CURRENCY {
            amount as int
        } else {
            0
        }) < amount {
            Some(ErrorCode::InsufficientFunds)
        } else if pre.wallets.spec_balance(caller, currency) + (if currency == NATIVE_CURRENCY {
            amount as int
        } else {
            0
        }) + amount > u64::MAX {
            Some(ErrorCode::MathOverflow)
        } else {
            None
        }
    }

    /// Drains the treasury towards the caller: moves `amount` of the
    /// native currency and `amount` of `currency` out of the pool,
    /// atomically.  The transfer out is authorized by the vault's own
    /// signing capability; a shortfall in the pool is reported as the
    /// transfer executor rejects it, not pre-judged.  Open to any
    /// authenticated caller by the protocol's authorization policy.
    pub fn withdraw_from_treasury(&mut self, admin: u64, amount: u64, currency: u64) -> (r: Result<
        TreasuryWithdrawalEvent,
        ErrorCode,
    >)
        requires
            old(self).wf(),
        ensures
            final(self).wf(),
            match r {
                Ok(ev) => {
                    &&& Self::withdraw_check(*old(self), admin, amount, currency) is None
                    &&& Self::wallets_shifted2(
                        old(self).wallets,
                        final(self).wallets,
                        admin,
                        NATIVE_CURRENCY,
                        amount as int,
                        admin,
                        currency,
                        amount as int,
                    )
                    &&& Self::treasury_shifted2(
                        old(self).treasury,
                        final(self).treasury,
                        NATIVE_CURRENCY,
                        -(amount as int),
                        currency,
                        -(amount as int),
                    )
                    &&& final(self).config == old(self).config
                    &&& final(self).admins == old(self).admins
                    &&& final(self).whitelist == old(self).whitelist
                    &&& final(self).loans == old(self).loans
                    &&& final(self).collateral_vaults == old(self).collateral_vaults
                    &&& ev == (TreasuryWithdrawalEvent {
                        admin,
                        treasury_vault: old(self).config->Some_0.treasury_vault,
                        token_mint: currency,
                        amount,
                    })
                },
                Err(e) => {
                    &&& Some(e) == Self::withdraw_check(*old(self), admin, amount, currency)
                    &&& *final(self) == *old(self)
                },
            },
    {
        let cfg = match &self.config {
            Some(c) => *c,
            None => {
                return Err(ErrorCode::NotInitialized);
            },
        };
        let treasury_native0 = self.treasury.balance_of(NATIVE_CURRENCY);
        if treasury_native0 < amount {
            return Err(ErrorCode::InsufficientFunds);
        }
        let native0 = self.wallets.balance_of(admin, NATIVE_CURRENCY);
        if amount > u64::MAX - native0 {
            return Err(ErrorCode::MathOverflow);
        }
        let treasury_token_avail = if currency == NATIVE_CURRENCY {
            treasury_native0 - amount
        } else {
            self.treasury.balance_of(currency)
        };
        if treasury_token_avail < amount {
            return Err(ErrorCode::InsufficientFunds);
        }
        let token0 = if currency == NATIVE_CURRENCY {
            native0 + amount
        } else {
            self.wallets.balance_of(admin, currency)
        };
        if amount > u64::MAX - token0 {
            return Err(ErrorCode::MathOverflow);
        }
        self.treasury.debit(NATIVE_CURRENCY, amount);
        self.treasury.debit(currency, amount);
        self.wallets.credit(admin, NATIVE_CURRENCY, amount);
        self.wallets.credit(admin, currency, amount);
        Ok(
            TreasuryWithdrawalEvent {
                admin,
                treasury_vault: cfg.treasury_vault,
                token_mint: currency,
                amount,
            },
        )
    }

    /// Whether `duration_sec` lies within the configured loan-duration
    /// bounds.  When the configuration holds an empty range, no duration
    /// does.
    pub open spec fn duration_in_bounds(cfg: ProgramConfig, duration_sec: i64) -> bool {
        cfg.min_loan_duration_sec <= duration_sec && duration_sec <= cfg.max_loan_duration_sec
    }

    /// Whether `mint` is one of the two accepted loan currencies.
    pub open spec fn mint_accepted(cfg: ProgramConfig, mint: u64) -> bool {
        mint == cfg.usdc_mint || mint == cfg.usdt_mint
    }

    /// Principal plus simple interest, floored: the amount owed at
    /// repayment, fixed once at origination.
    pub open spec fn spec_repayment_amount(principal: u64, rate_bps: u16) -> int {
        principal + (principal * rate_bps) / (BPS_DENOMINATOR as int)
    }

    /// The loan record origination writes, with its repayment amount and
    /// due time computed from the configuration and the clock reading.
    pub open spec fn originated_loan(
        cfg: ProgramConfig,
        borrower: u64,
        collateral_amount: u64,
        loan_amount: u64,
        requested_loan_mint: u64,
        loan_duration_sec: i64,
        now: i64,
    ) -> Loan {
        Loan {
            borrower,
            collateral_vault: borrower,
            collateral_locked_usdt_amount: collateral_amount,
            loan_amount_borrowed: loan_amount,
            loan_mint: requested_loan_mint,
            repayment_amount: Self::spec_repayment_amount(loan_amount, cfg.interest_rate_bps) as u64,
            loan_due_time: (now + loan_duration_sec) as i64,
            is_active: true,
        }
    }

    /// Why `request_loan` would be rejected, or `None` if it succeeds:
    /// the gating and argument checks in order, then the computed amounts
    /// that must fit their types, then the two transfer legs — collateral
    /// in, principal out — each against the balances it would see.
    pub open spec fn request_loan_check(
        pre: LendingProtocol,
        borrower: u64,
        collateral_amount: u64,
        loan_amount: u64,
        loan_duration_sec: i64,
        requested_loan_mint: u64,
        now: i64,
    ) -> Option<ErrorCode> {
        if pre.config is None {
            Some(ErrorCode::NotInitialized)
        } else {
            let cfg = pre.config->Some_0;
            if !pre.whitelist@.contains_key(borrower) {
                Some(ErrorCode::UserNotWhitelisted)
            } else if pre.loans@.contains_key(borrower) {
                Some(ErrorCode::LoanAlreadyActive)
            } else if !Self::duration_in_bounds(cfg, loan_duration_sec) {
                Some(ErrorCode::InvalidLoanDuration)
            } else if !Self::mint_accepted(cfg, requested_loan_mint) {
                Some(ErrorCode::InvalidLoanMint)
            } else if Self::spec_repayment_amount(loan_amount, cfg.interest_rate_bps) > u64::MAX {
                Some(ErrorCode::MathOverflow)
            } else if now + loan_duration_sec > i64::MAX || now + loan_duration_sec < i64::MIN {
                Some(ErrorCode::MathOverflow)
            } else if pre.wallets.spec_balance(borrower, cfg.usdt_mint) < collateral_amount {
                Some(ErrorCode::InsufficientFunds)
            } else if pre.treasury.spec_balance(requested_loan_mint) < loan_amount {
                Some(ErrorCode::InsufficientFunds)
            } else if pre.wallets.spec_balance(borrower, requested_loan_mint) - (
            if requested_loan_mint == cfg.usdt_mint {
                collateral_amount as int
            } else {
                0
            }) + loan_amount > u64::MAX {
                Some(ErrorCode::MathOverflow)
            } else {
                None
            }
        }
    }

    /// Originates a loan for the authenticated `borrower`: locks
    /// `collateral_amount` of the collateral currency into a fresh vault,
    /// disburses `loan_amount` of `requested_loan_mint` from the treasury
    /// under the treasury's own signing capability, and writes the loan
    /// record with its repayment amount and due time fixed now.  All of
    /// it is atomic: any rejection leaves every record and balance as it
    /// was.  `now` is the clock oracle's reading, taken once for this
    /// call.
    pub fn request_loan(
        &mut self,
        borrower: u64,
        collateral_amount: u64,
        loan_amount: u64,
        loan_duration_sec: i64,
        requested_loan_mint: u64,
        now: i64,
    ) -> (r: Result<LoanRequestedEvent, ErrorCode>)
        requires
            old(self).wf(),
        ensures
            final(self).wf(),
            match r {
                Ok(ev) => {
                    &&& Self::request_loan_check(
                        *old(self),
                        borrower,
                        collateral_amount,
                        loan_amount,
                        loan_duration_sec,
                        requested_loan_mint,
                        now,
                    ) is None
                    &&& final(self).loans@ == old(self).loans@.insert(
                        borrower,
                        Self::originated_loan(
                            old(self).config->Some_0,
                            borrower,
                            collateral_amount,
                            loan_amount,
                            requested_loan_mint,
                            loan_duration_sec,
                            now,
                        ),
                    )
                    &&& final(self).collateral_vaults@ == old(self).collateral_vaults@.insert(
                        borrower,
                        CollateralVault { borrower, balance: collateral_amount },
                    )
                    &&& Self::wallets_shifted2(
                        old(self).wallets,
                        final(self).wallets,
                        borrower,
                        old(self).config->Some_0.usdt_mint,
                        -(collateral_amount as int),
                        borrower,
                        requested_loan_mint,
                        loan_amount as int,
                    )
                    &&& Self::treasury_shifted1(
                        old(self).treasury,
                        final(self).treasury,
                        requested_loan_mint,
                        -(loan_amount as int),
                    )
                    &&& final(self).config == old(self).config
                    &&& final(self).admins == old(self).admins
                    &&& final(self).whitelist == old(self).whitelist
                    &&& ev == (LoanRequestedEvent {
                        borrower,
                        loan: borrower,
                        collateral_amount,
                        loan_amount,
                        loan_mint: requested_loan_mint,
                        due_time: (now + loan_duration_sec) as i64,
                    })
                },
                Err(e) => {
                    &&& Some(e) == Self::request_loan_check(
                        *old(self),
                        borrower,
                        collateral_amount,
                        loan_amount,
                        loan_duration_sec,
                        requested_loan_mint,
                        now,
                    )
                    &&& *final(self) == *old(self)
                },
            },
    {
        let cfg = match &self.config {
            Some(c) => *c,
            None => {
                return Err(ErrorCode::NotInitialized);
            },
        };
        if !self.whitelist.contains_key(&borrower) {
            return Err(ErrorCode::UserNotWhitelisted);
        }
        if self.loans.contains_key(&borrower) {
            return Err(ErrorCode::LoanAlreadyActive);
        }
        if !(loan_duration_sec >= cfg.min_loan_duration_sec
            && loan_duration_sec <= cfg.max_loan_duration_sec) {
            return Err(ErrorCode::InvalidLoanDuration);
        }
        if !(requested_loan_mint == cfg.usdc_mint || requested_loan_mint == cfg.usdt_mint) {
            return Err(ErrorCode::InvalidLoanMint);
        }
        proof {
            assert((loan_amount as u128) * (cfg.interest_rate_bps as u128) < 0x1_0000_0000_0000_0000_0000u128)
                by (nonlinear_arith)
                requires
                    (loan_amount as u128) < 0x1_0000_0000_0000_0000u128,
                    (cfg.interest_rate_bps as u128) < 0x1_0000u128,
            ;
        }
        let interest: u128 = (loan_amount as u128) * (cfg.interest_rate_bps as u128)
            / (BPS_DENOMINATOR as u128);
        let repayment_wide: u128 = (loan_amount as u128) + interest;
        if repayment_wide > (u64::MAX as u128) {
            return Err(ErrorCode::MathOverflow);
        }
        let repayment_amount: u64 = repayment_wide as u64;
        let overflows_due = if loan_duration_sec >= 0 {
            now > i64::MAX - loan_duration_sec
        } else {
            now < i64::MIN - loan_duration_sec
        };
        if overflows_due {
            return Err(ErrorCode::MathOverflow);
        }
        let due_time: i64 = now + loan_duration_sec;
        let collateral0 = self.wallets.balance_of(borrower, cfg.usdt_mint);
        if collateral0 < collateral_amount {
            return Err(ErrorCode::InsufficientFunds);
        }
        let pool0 = self.treasury.balance_of(requested_loan_mint);
        if pool0 < loan_amount {
            return Err(ErrorCode::InsufficientFunds);
        }
        let borrower_mint_mid = if requested_loan_mint == cfg.usdt_mint {
            collateral0 - collateral_amount
        } else {
            self.wallets.balance_of(borrower, requested_loan_mint)
        };
        if loan_amount > u64::MAX - borrower_mint_mid {
            return Err(ErrorCode::MathOverflow);
        }
        self.wallets.debit(borrower, cfg.usdt_mint, collateral_amount);
        self.treasury.debit(requested_loan_mint, loan_amount);
        self.wallets.credit(borrower, requested_loan_mint, loan_amount);
        self.loans.insert(
            borrower,
            Loan {
                borrower,
                collateral_vault: borrower,
                collateral_locked_usdt_amount: collateral_amount,
                loan_amount_borrowed: loan_amount,
                loan_mint: requested_loan_mint,
                repayment_amount,
                loan_due_time: due_time,
                is_active: true,
            },
        );
        self.collateral_vaults.insert(
            borrower,
            CollateralVault { borrower, balance: collateral_amount },
        );
        Ok(
            LoanRequestedEvent {
                borrower,
                loan: borrower,
                collateral_amount,
                loan_amount,
                loan_mint: requested_loan_mint,
                due_time,
            },
        )
    }

    /// Why `repay_loan` would be rejected, or `None` if it succeeds: the
    /// borrower's open loan must exist, and the two legs — repayment in,
    /// collateral back — are checked in order against the balances each
    /// would see.
    pub open spec fn repay_loan_check(pre: LendingProtocol, borrower: u64) -> Option<ErrorCode> {
        if pre.config is None {
            Some(ErrorCode::NotInitialized)
        } else if !pre.loans@.contains_key(borrower) {
            Some(ErrorCode::NotFound)
        } else {
            let cfg = pre.config->Some_0;
            let loan = pre.loans@[borrower];
            if pre.wallets.spec_balance(borrower, loan.loan_mint) < loan.repayment_amount {
                Some(ErrorCode::InsufficientFunds)
            } else if pre.treasury.spec_balance(loan.loan_mint) + loan.repayment_amount
                > u64::MAX {
                Some(ErrorCode::MathOverflow)
            } else if pre.wallets.spec_balance(borrower, cfg.usdt_mint) - (
            if loan.loan_mint == cfg.usdt_mint {
                loan.repayment_amount as int
            } else {
                0
            }) + loan.collateral_locked_usdt_amount > u64::MAX {
                Some(ErrorCode::MathOverflow)
            } else {
                None
            }
        }
    }

    /// Repays the authenticated `borrower`'s loan in full: moves exactly
    /// the fixed repayment amount back into the treasury, returns the
    /// vault's collateral to the borrower, and deletes both the loan and
    /// the vault, reclaiming their storage to the borrower.  No partial
    /// repayment exists, and any rejection leaves every record and
    /// balance as it was.  Ownership is inherent: the records are keyed
    /// by the borrower itself.
    pub fn repay_loan(&mut self, borrower: u64) -> (r: Result<LoanRepaidEvent, ErrorCode>)
        requires
            old(self).wf(),
        ensures
            final(self).wf(),
            match r {
                Ok(ev) => {
                    &&& Self::repay_loan_check(*old(self), borrower) is None
                    &&& final(self).loans@ == old(self).loans@.remove(borrower)
                    &&& final(self).collateral_vaults@ == old(self).collateral_vaults@.remove(
                        borrower,
                    )
                    &&& Self::wallets_shifted2(
                        old(self).wallets,
                        final(self).wallets,
                        borrower,
                        old(self).loans@[borrower].loan_mint,
                        -(old(self).loans@[borrower].repayment_amount as int),
                        borrower,
                        old(self).config->Some_0.usdt_mint,
                        old(self).loans@[borrower].collateral_locked_usdt_amount as int,
                    )
                    &&& Self::treasury_shifted1(
                        old(self).treasury,
                        final(self).treasury,
                        old(self).loans@[borrower].loan_mint,
                        old(self).loans@[borrower].repayment_amount as int,
                    )
                    &&& final(self).config == old(self).config
                    &&& final(self).admins == old(self).admins
                    &&& final(self).whitelist == old(self).whitelist
                    &&& ev == (LoanRepaidEvent {
                        borrower,
                        loan: borrower,
                        repayment_amount: old(self).loans@[borrower].repayment_amount,
                        collateral_released_amount: old(
                            self,
                        ).loans@[borrower].collateral_locked_usdt_amount,
                    })
                },
                Err(e) => {
                    &&& Some(e) == Self::repay_loan_check(*old(self), borrower)
                    &&& *final(self) == *old(self)
                },
            },
    {
        let cfg = match &self.config {
            Some(c) => *c,
            None => {
                return Err(ErrorCode::NotInitialized);
            },
        };
        let loan = match self.loans.get(&borrower) {
            Some(l) => *l,
            None => {
                return Err(ErrorCode::NotFound);
            },
        };
        let wallet0 = self.wallets.balance_of(borrower, loan.loan_mint);
        if wallet0 < loan.repayment_amount {
            return Err(ErrorCode::InsufficientFunds);
        }
        let pool0 = self.treasury.balance_of(loan.loan_mint);
        if loan.repayment_amount > u64::MAX - pool0 {
            return Err(ErrorCode::MathOverflow);
        }
        let collateral_base = if loan.loan_mint == cfg.usdt_mint {
            wallet0 - loan.repayment_amount
        } else {
            self.wallets.balance_of(borrower, cfg.usdt_mint)
        };
        if loan.collateral_locked_usdt_amount > u64::MAX - collateral_base {
            return Err(ErrorCode::MathOverflow);
        }
        self.wallets.debit(borrower, loan.loan_mint, loan.repayment_amount);
        self.treasury.credit(loan.loan_mint, loan.repayment_amount);
        self.wallets.credit(borrower, cfg.usdt_mint, loan.collateral_locked_usdt_amount);
        self.loans.remove(&borrower);
        self.collateral_vaults.remove(&borrower);
        Ok(
            LoanRepaidEvent {
                borrower,
                loan: borrower,
                repayment_amount: loan.repayment_amount,
                collateral_released_amount: loan.collateral_locked_usdt_amount,
            },
        )
    }

    /// Why `liquidate_loan` would be rejected, or `None` if it succeeds:
    /// the loan must exist and its due time must have strictly passed.
    pub open spec fn liquidate_loan_check(
        pre: LendingProtocol,
        borrower: u64,
        now: i64,
    ) -> Option<ErrorCode> {
        if pre.config is None {
            Some(ErrorCode::NotInitialized)
        } else if !pre.loans@.contains_key(borrower) {
            Some(ErrorCode::NotFound)
        } else if now <= pre.loans@[borrower].loan_due_time {
            Some(ErrorCode::LoanNotDueForLiquidation)
        } else if pre.treasury.spec_balance(pre.config->Some_0.usdt_mint)
            + pre.collateral_vaults@[borrower].balance > u64::MAX {
            Some(ErrorCode::MathOverflow)
        } else {
            None
        }
    }

    /// Liquidates `borrower`'s overdue loan: seizes the vault's entire
    /// balance — whatever it holds, not the figure recorded at
    /// origination — into the treasury, and retires both the loan and the
    /// vault, restoring the borrower's no-loan state.  Permissionless by
    /// design: any identity may trigger it, so no caller argument exists;
    /// the seizure is authorized by the vault's own signing capability.
    /// `now` is the clock oracle's reading, taken once for this call, and
    /// liquidation is allowed only strictly after the due time.
    pub fn liquidate_loan(&mut self, borrower: u64, now: i64) -> (r: Result<
        LoanLiquidatedEvent,
        ErrorCode,
    >)
        requires
            old(self).wf(),
        ensures
            final(self).wf(),
            match r {
                Ok(ev) => {
                    &&& Self::liquidate_loan_check(*old(self), borrower, now) is None
                    &&& final(self).loans@ == old(self).loans@.remove(borrower)
                    &&& final(self).collateral_vaults@ == old(self).collateral_vaults@.remove(
                        borrower,
                    )
                    &&& Self::treasury_shifted1(
                        old(self).treasury,
                        final(self).treasury,
                        old(self).config->Some_0.usdt_mint,
                        old(self).collateral_vaults@[borrower].balance as int,
                    )
                    &&& final(self).wallets == old(self).wallets
                    &&& final(self).config == old(self).config
                    &&& final(self).admins == old(self).admins
                    &&& final(self).whitelist == old(self).whitelist
                    &&& ev == (LoanLiquidatedEvent {
                        borrower,
                        loan: borrower,
                        collateral_liquidated_amount: old(self).collateral_vaults@[borrower].balance,
                    })
                },
                Err(e) => {
                    &&& Some(e) == Self::liquidate_loan_check(*old(self), borrower, now)
                    &&& *final(self) == *old(self)
                },
            },
    {
        let cfg = match &self.config {
            Some(c) => *c,
            None => {
                return Err(ErrorCode::NotInitialized);
            },
        };
        let loan = match self.loans.get(&borrower) {
            Some(l) => *l,
            None => {
                return Err(ErrorCode::NotFound);
            },
        };
        if now <= loan.loan_due_time {
            return Err(ErrorCode::LoanNotDueForLiquidation);
        }
        let seized = match self.collateral_vaults.get(&borrower) {
            Some(v) => v.balance,
            None => {
                proof {
                    assert(false);
                }
                0
            },
        };
        let pool0 = self.treasury.balance_of(cfg.usdt_mint);
        if seized > u64::MAX - pool0 {
            return Err(ErrorCode::MathOverflow);
        }
        self.treasury.credit(cfg.usdt_mint, seized);
        self.loans.remove(&borrower);
        self.collateral_vaults.remove(&borrower);
        Ok(LoanLiquidatedEvent { borrower, loan: borrower, collateral_liquidated_amount: seized })
    }

    /// Funds arriving from outside the protocol entirely — the host's
    /// stand-in for minting or receiving from elsewhere: raises one
    /// wallet balance, rejecting an amount that would not fit.
    pub fn credit_wallet(&mut self, owner: u64, currency: u64, amount: u64) -> (r: Result<
        (),
        ErrorCode,
    >)
        requires
            old(self).wf(),
        ensures
            final(self).wf(),
            final(self).config == old(self).config,
            final(self).admins == old(self).admins,
            final(self).whitelist == old(self).whitelist,
            final(self).treasury == old(self).treasury,
            final(self).loans == old(self).loans,
            final(self).collateral_vaults == old(self).collateral_vaults,
            match r {
                Ok(()) => {
                    &&& old(self).wallets.spec_balance(owner, currency) + amount <= u64::MAX
                    &&& final(self).wallets.spec_balance(owner, currency) == old(
                        self,
                    ).wallets.spec_balance(owner, currency) + amount
                    &&& Ledger::updated_only(old(self).wallets, final(self).wallets, owner, currency)
                },
                Err(e) => {
                    &&& e == ErrorCode::MathOverflow
                    &&& old(self).wallets.spec_balance(owner, currency) + amount > u64::MAX
                    &&& *final(self) == *old(self)
                },
            },
    {
        let cur = self.wallets.balance_of(owner, currency);
        if amount > u64::MAX - cur {
            return Err(ErrorCode::MathOverflow);
        }
        self.wallets.credit(owner, currency, amount);
        Ok(())
    }

    /// Whether the singleton configuration exists.
    pub fn initialized(&self) -> (r: bool)
        ensures
            r == self.is_initialized(),
    {
        self.config.is_some()
    }

    /// Reads the configuration, if it exists.
    pub fn get_config(&self) -> (r: Option<ProgramConfig>)
        ensures
            r == self.config,
    {
        self.config
    }

    /// Whether `user` holds a whitelist entry: the query the loan engine
    /// gates origination on.
    pub fn is_whitelisted(&self, user: u64) -> (r: bool)
        ensures
            r == self.spec_is_whitelisted(user),
    {
        self.whitelist.contains_key(&user)
    }

    /// Whether `id` holds a registry admin entry.  No authorization check
    /// consults this: it is a query surface only.
    pub fn is_admin(&self, id: u64) -> (r: bool)
        ensures
            r == self.admins@.contains_key(id),
    {
        self.admins.contains_key(&id)
    }

    /// Reads `borrower`'s open loan record, if one exists.
    pub fn get_loan(&self, borrower: u64) -> (r: Option<Loan>)
        ensures
            r == if self.has_loan(borrower) {
                Some(self.loans@[borrower])
            } else {
                None::<Loan>
            },
    {
        match self.loans.get(&borrower) {
            Some(l) => Some(*l),
            None => None,
        }
    }

    /// Reads `borrower`'s collateral vault, if one exists.
    pub fn get_collateral_vault(&self, borrower: u64) -> (r: Option<CollateralVault>)
        ensures
            r == if self.collateral_vaults@.contains_key(borrower) {
                Some(self.collateral_vaults@[borrower])
            } else {
                None::<CollateralVault>
            },
    {
        match self.collateral_vaults.get(&borrower) {
            Some(v) => Some(*v),
            None => None,
        }
    }

    /// Reads the treasury's pooled balance in `currency`.
    pub fn treasury_balance(&self, currency: u64) -> (r: u64)
        ensures
            r == self.treasury.spec_balance(currency),
    {
        self.treasury.balance_of(currency)
    }

    /// Reads `owner`'s wallet balance in `currency`.
    pub fn wallet_balance(&self, owner: u64, currency: u64) -> (r: u64)
        ensures
            r == self.wallets.spec_balance(owner, currency),
    {
        self.wallets.balance_of(owner, currency)
    }
}

} // verus!
