//! The shared treasury: pooled lending liquidity.
//!
//! An independent ledger keyed by currency, fed by admin deposits and loan
//! repayments, drained by withdrawals and loan disbursals, and the sink
//! for seized collateral.  Transfers out of it are authorized by the
//! vault's own signing capability, never by a caller's signature, so the
//! protocol alone decides when it pays.

use vstd::prelude::*;
use std::collections::HashMap;

verus! {

/// The treasury's per-currency balances; an absent key means zero.
pub struct TreasuryVault {
    /// Pooled balance held in each currency.
    pub balances: HashMap<u64, u64>,
}

impl TreasuryVault {
    /// The pooled balance held in `currency`; zero when no entry exists.
    pub open spec fn spec_balance(&self, currency: u64) -> u64 {
        if self.balances@.contains_key(currency) {
            self.balances@[currency]
        } else {
            0
        }
    }

    /// All balances outside the one `currency` are the same in `pre` and
    /// `post`.
    pub open spec fn updated_only(pre: TreasuryVault, post: TreasuryVault, currency: u64) -> bool {
        forall|c: u64|
            #![trigger post.spec_balance(c)]
            c != currency ==> post.spec_balance(c) == pre.spec_balance(c)
    }

    /// An empty treasury: every balance is zero.
    pub fn new() -> (t: TreasuryVault)
        ensures
            forall|c: u64| #[trigger] t.spec_balance(c) == 0,
    {
        TreasuryVault { balances: HashMap::new() }
    }

    /// Reads one pooled balance.
    pub fn balance_of(&self, currency: u64) -> (r: u64)
        ensures
            r == self.spec_balance(currency),
    {
        match self.balances.get(&currency) {
            Some(v) => *v,
            None => 0,
        }
    }

    /// Raises one pooled balance by `amount`, which the caller has shown
    /// to fit, and touches no other currency.
    pub fn credit(&mut self, currency: u64, amount: u64)
        requires
            old(self).spec_balance(currency) + amount <= u64::MAX,
        ensures
            final(self).spec_balance(currency) == old(self).spec_balance(currency) + amount,
            Self::updated_only(*old(self), *final(self), currency),
    {
        let cur = self.balance_of(currency);
        self.balances.insert(currency, cur + amount);
    }

    /// Lowers one pooled balance by `amount`, which the caller has shown
    /// to fit, and touches no other currency.
    pub fn debit(&mut self, currency: u64, amount: u64)
        requires
            old(self).spec_balance(currency) >= amount,
        ensures
            final(self).spec_balance(currency) == old(self).spec_balance(currency) - amount,
            Self::updated_only(*old(self), *final(self), currency),
    {
        let cur = self.balance_of(currency);
        self.balances.insert(currency, cur - amount);
    }
}

} // verus!
