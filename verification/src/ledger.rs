//! Wallet balances of the identities around the protocol.
//!
//! The ledger stands for the per-account balances that the external
//! transfer executor keeps for users: each `(owner, currency)` pair has an
//! unsigned balance, zero when no account exists.  The protocol reads and
//! moves these balances only through the verified operations here, so a
//! transfer can never create or destroy funds.

use vstd::prelude::*;
use std::collections::HashMap;

verus! {

/// The key a wallet balance is stored under: the owner identity in the
/// high 64 bits, the currency in the low 64 bits, so distinct pairs give
/// distinct keys.
pub open spec fn account_key(owner: u64, currency: u64) -> u128 {
    (owner * 0x1_0000_0000_0000_0000 + currency) as u128
}

/// Distinct `(owner, currency)` pairs are stored under distinct keys.
pub proof fn lemma_account_key_injective(o1: u64, c1: u64, o2: u64, c2: u64)
    requires
        account_key(o1, c1) == account_key(o2, c2),
    ensures
        o1 == o2,
        c1 == c2,
{
}

/// Per-owner, per-currency wallet balances.
pub struct Ledger {
    /// Balances keyed by [`account_key`]; an absent key means balance zero.
    pub accounts: HashMap<u128, u64>,
}

impl Ledger {
    /// The balance of `owner` in `currency`; zero when no account exists.
    pub open spec fn spec_balance(&self, owner: u64, currency: u64) -> u64 {
        if self.accounts@.contains_key(account_key(owner, currency)) {
            self.accounts@[account_key(owner, currency)]
        } else {
            0
        }
    }

    /// All balances outside the one `(owner, currency)` pair are the same
    /// in `pre` and `post`.
    pub open spec fn updated_only(pre: Ledger, post: Ledger, owner: u64, currency: u64) -> bool {
        forall|o: u64, c: u64|
            #![trigger post.spec_balance(o, c)]
            !(o == owner && c == currency) ==> post.spec_balance(o, c) == pre.spec_balance(o, c)
    }

    /// An empty ledger: every balance is zero.
    pub fn new() -> (l: Ledger)
        ensures
            forall|o: u64, c: u64| #[trigger] l.spec_balance(o, c) == 0,
    {
        Ledger { accounts: HashMap::new() }
    }

    /// Reads one balance.
    pub fn balance_of(&self, owner: u64, currency: u64) -> (r: u64)
        ensures
            r == self.spec_balance(owner, currency),
    {
        let k: u128 = (owner as u128) * 0x1_0000_0000_0000_0000u128 + (currency as u128);
        match self.accounts.get(&k) {
            Some(v) => *v,
            None => 0,
        }
    }

    /// Raises one balance by `amount`, which the caller has shown to fit,
    /// and touches no other balance.
    pub fn credit(&mut self, owner: u64, currency: u64, amount: u64)
        requires
            old(self).spec_balance(owner, currency) + amount <= u64::MAX,
        ensures
            final(self).spec_balance(owner, currency)
                == old(self).spec_balance(owner, currency) + amount,
            Self::updated_only(*old(self), *final(self), owner, currency),
    {
        let cur = self.balance_of(owner, currency);
        let k: u128 = (owner as u128) * 0x1_0000_0000_0000_0000u128 + (currency as u128);
        self.accounts.insert(k, cur + amount);
        proof {
            Self::lemma_other_keys_unchanged(*old(self), *self, owner, currency);
        }
    }

    /// Lowers one balance by `amount`, which the caller has shown to fit,
    /// and touches no other balance.
    pub fn debit(&mut self, owner: u64, currency: u64, amount: u64)
        requires
            old(self).spec_balance(owner, currency) >= amount,
        ensures
            final(self).spec_balance(owner, currency)
                == old(self).spec_balance(owner, currency) - amount,
            Self::updated_only(*old(self), *final(self), owner, currency),
    {
        let cur = self.balance_of(owner, currency);
        let k: u128 = (owner as u128) * 0x1_0000_0000_0000_0000u128 + (currency as u128);
        self.accounts.insert(k, cur - amount);
        proof {
            Self::lemma_other_keys_unchanged(*old(self), *self, owner, currency);
        }
    }

    /// After a write under `(owner, currency)`'s key, every other pair
    /// still reads its old balance.
    proof fn lemma_other_keys_unchanged(pre: Ledger, post: Ledger, owner: u64, currency: u64)
        requires
            post.accounts@ =~= pre.accounts@.insert(
                account_key(owner, currency),
                post.accounts@[account_key(owner, currency)],
            ),
        ensures
            Self::updated_only(pre, post, owner, currency),
    {
        assert forall|o: u64, c: u64| !(o == owner && c == currency) implies #[trigger] post
            .spec_balance(o, c) == pre.spec_balance(o, c) by {
            if account_key(o, c) == account_key(owner, currency) {
                lemma_account_key_injective(o, c, owner, currency);
            }
        }
    }
}

} // verus!
