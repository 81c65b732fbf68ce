//! The narrow ledger capability the registry consumes: per-account free and
//! reserved balances, with `reserve` and `unreserve` moving stake between
//! the two. The fungible ledger itself (transfers, issuance) is out of
//! scope; the registry only locks and releases stake, and every operation
//! of the registry keeps each account's total balance unchanged.

use vstd::prelude::*;
use std::collections::HashMap;
use crate::errors::Error;

verus! {

broadcast use vstd::std_specs::hash::group_hash_axioms;

/// One account's balances: stake at the account's free disposal, and stake
/// reserved (locked, not spent) against it.
#[derive(Clone, Copy, Debug, PartialEq, Eq)]
pub struct AccountBalance {
    pub free: u64,
    pub reserved: u64,
}

/// The balances of all accounts. An account absent from the map holds
/// nothing, free or reserved.
pub struct Ledger {
    pub accounts: HashMap<u64, AccountBalance>,
}

impl Ledger {
    /// Every account's two balances fit a single total, so moving stake
    /// between them can never overflow.
    pub open spec fn wf(self) -> bool {
        forall|a: u64| self.accounts@.contains_key(a)
            ==> (#[trigger] self.accounts@[a]).free + self.accounts@[a].reserved <= u64::MAX
    }

    /// The stake at the account's free disposal.
    pub open spec fn spec_free(self, account: u64) -> int {
        if self.accounts@.contains_key(account) {
            self.accounts@[account].free as int
        } else {
            0
        }
    }

    /// The stake reserved against the account.
    pub open spec fn spec_reserved(self, account: u64) -> int {
        if self.accounts@.contains_key(account) {
            self.accounts@[account].reserved as int
        } else {
            0
        }
    }

    /// The account's total balance, free and reserved together.
    pub open spec fn total_of(self, account: u64) -> int {
        self.spec_free(account) + self.spec_reserved(account)
    }

    /// No account's total balance differs between the two ledgers: stake
    /// may have moved between free and reserved, but none was created or
    /// destroyed.
    pub open spec fn totals_unchanged(pre: Ledger, post: Ledger) -> bool {
        forall|a: u64| #[trigger] post.total_of(a) == pre.total_of(a)
    }

    /// Both balances of every account other than `account` are unchanged.
    pub open spec fn others_unchanged(pre: Ledger, post: Ledger, account: u64) -> bool {
        forall|a: u64| a != account ==> #[trigger] post.spec_free(a) == pre.spec_free(a)
            && post.spec_reserved(a) == pre.spec_reserved(a)
    }

    /// Whether the account's free balance covers `amount`.
    pub open spec fn can_reserve(self, account: u64, amount: u64) -> bool {
        self.spec_free(account) >= amount
    }

    /// An empty ledger: no account holds anything.
    pub fn new() -> (l: Ledger)
        ensures
            l.wf(),
            forall|a: u64| #[trigger] l.spec_free(a) == 0 && l.spec_reserved(a) == 0,
    {
        Ledger { accounts: HashMap::new() }
    }

    /// Host-side endowment: sets the account's free balance outright and
    /// clears its reserved balance. The one way value enters this ledger;
    /// the registry itself never calls it.
    pub fn endow(&mut self, account: u64, amount: u64)
        requires
            old(self).wf(),
        ensures
            final(self).wf(),
            final(self).spec_free(account) == amount,
            final(self).spec_reserved(account) == 0,
            Ledger::others_unchanged(*old(self), *final(self), account),
    {
        self.accounts.insert(account, AccountBalance { free: amount, reserved: 0 });
    }

    /// The account's free balance.
    pub fn free_of(&self, account: u64) -> (r: u64)
        ensures
            r == self.spec_free(account),
    {
        match self.accounts.get(&account) {
            Some(b) => b.free,
            None => 0,
        }
    }

    /// The account's reserved balance.
    pub fn reserved_of(&self, account: u64) -> (r: u64)
        ensures
            r == self.spec_reserved(account),
    {
        match self.accounts.get(&account) {
            Some(b) => b.reserved,
            None => 0,
        }
    }

    /// Moves `amount` from the account's free balance to its reserved
    /// balance, failing without any effect when the free balance cannot
    /// cover it.
    pub fn reserve(&mut self, account: u64, amount: u64) -> (r: Result<(), Error>)
        requires
            old(self).wf(),
        ensures
            final(self).wf(),
            r is Ok <==> old(self).can_reserve(account, amount),
            r is Err ==> r == Err::<(), Error>(Error::InsufficientBalance)
                && *final(self) == *old(self),
            r is Ok ==> final(self).spec_free(account) == old(self).spec_free(account) - amount
                && final(self).spec_reserved(account) == old(self).spec_reserved(account) + amount,
            Ledger::others_unchanged(*old(self), *final(self), account),
            Ledger::totals_unchanged(*old(self), *final(self)),
    {
        let b = match self.accounts.get(&account) {
            Some(b) => *b,
            None => AccountBalance { free: 0, reserved: 0 },
        };
        if b.free < amount {
            Err(Error::InsufficientBalance)
        } else {
            self.accounts.insert(
                account,
                AccountBalance { free: b.free - amount, reserved: b.reserved + amount },
            );
            Ok(())
        }
    }

    /// Moves back from the account's reserved balance to its free balance
    /// as much of `amount` as is actually reserved, and returns the amount
    /// moved. Never fails: releasing more than is reserved releases what
    /// there is.
    pub fn unreserve(&mut self, account: u64, amount: u64) -> (released: u64)
        requires
            old(self).wf(),
        ensures
            final(self).wf(),
            released == if amount <= old(self).spec_reserved(account) {
                amount as int
            } else {
                old(self).spec_reserved(account)
            },
            final(self).spec_reserved(account) == old(self).spec_reserved(account) - released,
            final(self).spec_free(account) == old(self).spec_free(account) + released,
            Ledger::others_unchanged(*old(self), *final(self), account),
            Ledger::totals_unchanged(*old(self), *final(self)),
    {
        let b = match self.accounts.get(&account) {
            Some(b) => *b,
            None => AccountBalance { free: 0, reserved: 0 },
        };
        let released = if amount <= b.reserved { amount } else { b.reserved };
        self.accounts.insert(
            account,
            AccountBalance { free: b.free + released, reserved: b.reserved - released },
        );
        released
    }
}

} // verus!
