//! A model of the fungible-balance ledger the registry charges its fees
//! against.
//!
//! The surrounding ledger is a collaborator of the engine, not part of it;
//! the engine only relies on the interface modelled here: reading an
//! account's free balance, checking that a withdrawal would leave every
//! lock satisfied, and withdrawing an amount.  The model keeps per-account
//! free and reserved balances and a list of lock amounts, together with the
//! total issuance and the existential deposit below which a free balance is
//! removed as dust.

use std::collections::HashMap;
use vstd::prelude::*;

use crate::types::{AccountId, Balance, Error};

verus! {

broadcast use vstd::std_specs::hash::group_hash_axioms;

/// The balances and locks the ledger holds for one account.
#[derive(Debug)]
pub struct AccountData {
    /// The spendable balance.
    pub free: Balance,
    /// The balance set aside by reservations; it counts towards the total
    /// balance but cannot be withdrawn.
    pub reserved: Balance,
    /// Amounts the free balance may not drop below while the lock is in
    /// effect.
    pub locks: Vec<Balance>,
}

/// The mathematical value of an [`AccountData`].
pub struct AccountModel {
    /// The spendable balance.
    pub free: Balance,
    /// The reserved balance.
    pub reserved: Balance,
    /// The lock amounts in effect.
    pub locks: Seq<Balance>,
}

impl View for AccountData {
    type V = AccountModel;

    open spec fn view(&self) -> AccountModel {
        AccountModel { free: self.free, reserved: self.reserved, locks: self.locks@ }
    }
}

/// The mathematical value of a [`Ledger`].
pub struct LedgerModel {
    /// Every account the ledger knows, with its balances and locks.
    pub accounts: Map<AccountId, AccountModel>,
    /// The total amount of currency in existence.
    pub issuance: Balance,
    /// The least free balance an account may keep; a withdrawal that leaves
    /// less removes the remainder as dust.
    pub existential_deposit: Balance,
}

/// `a + b`, clamped to the largest representable balance.
pub open spec fn sat_add(a: Balance, b: Balance) -> Balance {
    if a + b <= Balance::MAX {
        (a + b) as Balance
    } else {
        Balance::MAX
    }
}

/// `a - b`, clamped to zero.
pub open spec fn sat_sub(a: Balance, b: Balance) -> Balance {
    if a >= b {
        (a - b) as Balance
    } else {
        0
    }
}

impl LedgerModel {
    /// The free balance of `who`; zero for an account the ledger does not
    /// know.
    pub open spec fn free(self, who: AccountId) -> Balance {
        if self.accounts.contains_key(who) {
            self.accounts[who].free
        } else {
            0
        }
    }

    /// The reserved balance of `who`.
    pub open spec fn reserved(self, who: AccountId) -> Balance {
        if self.accounts.contains_key(who) {
            self.accounts[who].reserved
        } else {
            0
        }
    }

    /// The lock amounts in effect for `who`.
    pub open spec fn locks(self, who: AccountId) -> Seq<Balance> {
        if self.accounts.contains_key(who) {
            self.accounts[who].locks
        } else {
            Seq::empty()
        }
    }

    /// Whether a free balance of `new_balance` would satisfy every lock in
    /// effect for `who`.  This is distinct from the balance sufficing
    /// numerically: a lock can block a withdrawal the raw balance would
    /// allow.
    pub open spec fn can_withdraw(self, who: AccountId, new_balance: Balance) -> bool {
        forall|i: int|
            0 <= i < self.locks(who).len() ==> #[trigger] self.locks(who)[i] <= new_balance
    }

    /// Whether withdrawing `amount` from `who` succeeds: the free balance
    /// covers the amount and the remainder satisfies every lock.
    pub open spec fn withdraw_allowed(self, who: AccountId, amount: Balance) -> bool {
        &&& amount <= self.free(who)
        &&& self.can_withdraw(who, (self.free(who) - amount) as Balance)
    }

    /// The ledger after a successful withdrawal of `amount` from `who`.
    /// If the remaining free balance is positive but below the existential
    /// deposit, it is removed as dust; the issuance drops by the amount
    /// withdrawn plus any dust.  Meaningful under
    /// [`LedgerModel::withdraw_allowed`].
    pub open spec fn after_withdraw(self, who: AccountId, amount: Balance) -> LedgerModel {
        if !self.accounts.contains_key(who) {
            self
        } else {
            let acct = self.accounts[who];
            let remaining = (acct.free - amount) as Balance;
            let dust: Balance = if 0 < remaining && remaining < self.existential_deposit {
                remaining
            } else {
                0
            };
            let new_free: Balance = if dust > 0 {
                0
            } else {
                remaining
            };
            LedgerModel {
                accounts: self.accounts.insert(
                    who,
                    AccountModel { free: new_free, reserved: acct.reserved, locks: acct.locks },
                ),
                issuance: sat_sub(self.issuance, sat_add(amount, dust)),
                existential_deposit: self.existential_deposit,
            }
        }
    }

    /// The ledger after depositing `amount` into `who`, creating the
    /// account if needed.  A deposit below the existential deposit into an
    /// unknown account is lost.
    pub open spec fn after_deposit(self, who: AccountId, amount: Balance) -> LedgerModel {
        if self.accounts.contains_key(who) {
            let acct = self.accounts[who];
            LedgerModel {
                accounts: self.accounts.insert(
                    who,
                    AccountModel {
                        free: sat_add(acct.free, amount),
                        reserved: acct.reserved,
                        locks: acct.locks,
                    },
                ),
                issuance: sat_add(self.issuance, amount),
                existential_deposit: self.existential_deposit,
            }
        } else if amount >= self.existential_deposit {
            LedgerModel {
                accounts: self.accounts.insert(
                    who,
                    AccountModel { free: amount, reserved: 0, locks: Seq::empty() },
                ),
                issuance: sat_add(self.issuance, amount),
                existential_deposit: self.existential_deposit,
            }
        } else {
            self
        }
    }

    /// The ledger after moving `amount` of `who`'s free balance into
    /// reservation.  Meaningful when `amount <= self.free(who)` and the
    /// account exists.
    pub open spec fn after_reserve(self, who: AccountId, amount: Balance) -> LedgerModel {
        if !self.accounts.contains_key(who) {
            self
        } else {
            let acct = self.accounts[who];
            LedgerModel {
                accounts: self.accounts.insert(
                    who,
                    AccountModel {
                        free: (acct.free - amount) as Balance,
                        reserved: sat_add(acct.reserved, amount),
                        locks: acct.locks,
                    },
                ),
                issuance: self.issuance,
                existential_deposit: self.existential_deposit,
            }
        }
    }

    /// The ledger after adding a lock of `amount` on `who`.  A lock on an
    /// account the ledger does not know has no effect.
    pub open spec fn after_add_lock(self, who: AccountId, amount: Balance) -> LedgerModel {
        if !self.accounts.contains_key(who) {
            self
        } else {
            let acct = self.accounts[who];
            LedgerModel {
                accounts: self.accounts.insert(
                    who,
                    AccountModel {
                        free: acct.free,
                        reserved: acct.reserved,
                        locks: acct.locks.push(amount),
                    },
                ),
                issuance: self.issuance,
                existential_deposit: self.existential_deposit,
            }
        }
    }
}

/// The mathematical values of every account in an account map.
pub open spec fn account_views(m: Map<AccountId, AccountData>) -> Map<AccountId, AccountModel> {
    m.map_values(|a: AccountData| a@)
}

proof fn lemma_account_views_index(m: Map<AccountId, AccountData>, k: AccountId)
    ensures
        account_views(m).contains_key(k) == m.contains_key(k),
        m.contains_key(k) ==> account_views(m)[k] == m[k]@,
{
}

proof fn lemma_account_views_remove_insert(
    m: Map<AccountId, AccountData>,
    k: AccountId,
    v: AccountData,
)
    ensures
        account_views(m.remove(k).insert(k, v)) == account_views(m).insert(k, v@),
{
    assert(account_views(m.remove(k).insert(k, v)) =~= account_views(m).insert(k, v@));
}

proof fn lemma_account_views_remove_absent(m: Map<AccountId, AccountData>, k: AccountId)
    requires
        !m.contains_key(k),
    ensures
        account_views(m.remove(k)) == account_views(m),
{
    assert(m.remove(k) =~= m);
}

/// The balance ledger: per-account balances and locks, with the total
/// issuance and the existential deposit fixed at construction.
pub struct Ledger {
    accounts: HashMap<AccountId, AccountData>,
    issuance: Balance,
    existential_deposit: Balance,
}

impl View for Ledger {
    type V = LedgerModel;

    closed spec fn view(&self) -> LedgerModel {
        LedgerModel {
            accounts: account_views(self.accounts@),
            issuance: self.issuance,
            existential_deposit: self.existential_deposit,
        }
    }
}

impl Ledger {
    /// An empty ledger with the given existential deposit.
    pub fn new(existential_deposit: Balance) -> (r: Ledger)
        ensures
            r@ == (LedgerModel {
                accounts: Map::empty(),
                issuance: 0,
                existential_deposit,
            }),
    {
        let r = Ledger { accounts: HashMap::new(), issuance: 0, existential_deposit };
        proof {
            assert(account_views(r.accounts@) =~= Map::<AccountId, AccountModel>::empty());
        }
        r
    }

    /// The free balance of `who`.
    pub fn free_balance(&self, who: AccountId) -> (r: Balance)
        ensures
            r == self@.free(who),
    {
        match self.accounts.get(&who) {
            Some(acct) => acct.free,
            None => 0,
        }
    }

    /// The total balance of `who`: free plus reserved, clamped to the
    /// largest representable balance.
    pub fn total_balance(&self, who: AccountId) -> (r: Balance)
        ensures
            r == sat_add(self@.free(who), self@.reserved(who)),
    {
        match self.accounts.get(&who) {
            Some(acct) => match acct.free.checked_add(acct.reserved) {
                Some(v) => v,
                None => Balance::MAX,
            },
            None => 0,
        }
    }

    /// The total amount of currency in existence.
    pub fn total_issuance(&self) -> (r: Balance)
        ensures
            r == self@.issuance,
    {
        self.issuance
    }

    /// Whether a free balance of `new_balance` would satisfy every lock in
    /// effect for `who`.
    pub fn ensure_can_withdraw(&self, who: AccountId, new_balance: Balance) -> (r: bool)
        ensures
            r == self@.can_withdraw(who, new_balance),
    {
        match self.accounts.get(&who) {
            None => true,
            Some(acct) => {
                let n = acct.locks.len();
                for i in 0..n
                    invariant
                        n == acct.locks.len(),
                        self@.locks(who) == acct.locks@,
                        forall|j: int| 0 <= j < i ==> #[trigger] acct.locks@[j] <= new_balance,
                {
                    if acct.locks[i] > new_balance {
                        return false;
                    }
                }
                true
            },
        }
    }

    /// Withdraws `amount` from `who`'s free balance, returning the debit
    /// amount to hand to fee disposal.  Fails without any change when the
    /// free balance does not cover the amount or a lock blocks the
    /// withdrawal; a remaining free balance below the existential deposit
    /// is removed as dust.
    pub fn withdraw(&mut self, who: AccountId, amount: Balance) -> (r: Result<Balance, Error>)
        ensures
            r is Ok <==> old(self)@.withdraw_allowed(who, amount),
            r is Ok ==> r == Ok::<Balance, Error>(amount) && final(self)@ == old(self)@.after_withdraw(
                who,
                amount,
            ),
            r is Err ==> final(self)@ == old(self)@ && r == Err::<Balance, Error>(
                if amount > old(self)@.free(who) {
                    Error::InsufficientFunds
                } else {
                    Error::WithdrawalBlocked
                },
            ),
    {
        let free = self.free_balance(who);
        let remaining = match free.checked_sub(amount) {
            None => {
                return Err(Error::InsufficientFunds);
            },
            Some(v) => v,
        };
        if !self.ensure_can_withdraw(who, remaining) {
            return Err(Error::WithdrawalBlocked);
        }
        match self.accounts.remove(&who) {
            None => {
                proof {
                    lemma_account_views_index(old(self).accounts@, who);
                    lemma_account_views_remove_absent(old(self).accounts@, who);
                }
                Ok(amount)
            },
            Some(acct) => {
                let dust: Balance = if remaining > 0 && remaining < self.existential_deposit {
                    remaining
                } else {
                    0
                };
                let new_free: Balance = if dust > 0 {
                    0
                } else {
                    remaining
                };
                let burned = match amount.checked_add(dust) {
                    Some(v) => v,
                    None => Balance::MAX,
                };
                let new_acct = AccountData {
                    free: new_free,
                    reserved: acct.reserved,
                    locks: acct.locks,
                };
                self.accounts.insert(who, new_acct);
                self.issuance = match self.issuance.checked_sub(burned) {
                    Some(v) => v,
                    None => 0,
                };
                proof {
                    lemma_account_views_index(old(self).accounts@, who);
                    lemma_account_views_remove_insert(old(self).accounts@, who, new_acct);
                }
                Ok(amount)
            },
        }
    }

    /// Deposits `amount` into `who`'s free balance, creating the account if
    /// the amount reaches the existential deposit; a smaller deposit into
    /// an unknown account is lost.
    pub fn deposit_creating(&mut self, who: AccountId, amount: Balance)
        ensures
            final(self)@ == old(self)@.after_deposit(who, amount),
    {
        match self.accounts.remove(&who) {
            Some(acct) => {
                let new_acct = AccountData {
                    free: match acct.free.checked_add(amount) {
                        Some(v) => v,
                        None => Balance::MAX,
                    },
                    reserved: acct.reserved,
                    locks: acct.locks,
                };
                self.accounts.insert(who, new_acct);
                self.issuance = match self.issuance.checked_add(amount) {
                    Some(v) => v,
                    None => Balance::MAX,
                };
                proof {
                    lemma_account_views_index(old(self).accounts@, who);
                    lemma_account_views_remove_insert(old(self).accounts@, who, new_acct);
                }
            },
            None => {
                proof {
                    lemma_account_views_index(old(self).accounts@, who);
                    lemma_account_views_remove_absent(old(self).accounts@, who);
                }
                if amount >= self.existential_deposit {
                    let new_acct = AccountData { free: amount, reserved: 0, locks: Vec::new() };
                    self.accounts.insert(who, new_acct);
                    self.issuance = match self.issuance.checked_add(amount) {
                        Some(v) => v,
                        None => Balance::MAX,
                    };
                    proof {
                        lemma_account_views_remove_insert(old(self).accounts@, who, new_acct);
                    }
                }
            },
        }
    }

    /// Moves `amount` of `who`'s free balance into reservation.  Fails
    /// without any change when the free balance does not cover the amount.
    pub fn reserve(&mut self, who: AccountId, amount: Balance) -> (r: Result<(), Error>)
        ensures
            r is Ok <==> amount <= old(self)@.free(who),
            r is Ok ==> final(self)@ == old(self)@.after_reserve(who, amount),
            r is Err ==> final(self)@ == old(self)@ && r == Err::<(), Error>(
                Error::InsufficientFunds,
            ),
    {
        match self.accounts.remove(&who) {
            None => {
                proof {
                    lemma_account_views_index(old(self).accounts@, who);
                    lemma_account_views_remove_absent(old(self).accounts@, who);
                }
                if amount == 0 {
                    Ok(())
                } else {
                    Err(Error::InsufficientFunds)
                }
            },
            Some(acct) => {
                match acct.free.checked_sub(amount) {
                    None => {
                        self.accounts.insert(who, acct);
                        proof {
                            lemma_account_views_remove_insert(old(self).accounts@, who, acct);
                            assert(old(self)@.accounts.insert(who, old(self)@.accounts[who])
                                =~= old(self)@.accounts);
                        }
                        Err(Error::InsufficientFunds)
                    },
                    Some(new_free) => {
                        let new_acct = AccountData {
                            free: new_free,
                            reserved: match acct.reserved.checked_add(amount) {
                                Some(v) => v,
                                None => Balance::MAX,
                            },
                            locks: acct.locks,
                        };
                        self.accounts.insert(who, new_acct);
                        proof {
                            lemma_account_views_remove_insert(old(self).accounts@, who, new_acct);
                        }
                        Ok(())
                    },
                }
            },
        }
    }

    /// Adds a lock of `amount` on `who`: the free balance may not drop
    /// below the amount while the lock is in effect.  A lock on an account
    /// the ledger does not know has no effect.
    pub fn add_lock(&mut self, who: AccountId, amount: Balance)
        ensures
            final(self)@ == old(self)@.after_add_lock(who, amount),
    {
        match self.accounts.remove(&who) {
            None => {
                proof {
                    lemma_account_views_index(old(self).accounts@, who);
                    lemma_account_views_remove_absent(old(self).accounts@, who);
                }
            },
            Some(acct) => {
                let mut locks = acct.locks;
                locks.push(amount);
                let new_acct = AccountData { free: acct.free, reserved: acct.reserved, locks };
                self.accounts.insert(who, new_acct);
                proof {
                    lemma_account_views_index(old(self).accounts@, who);
                    lemma_account_views_remove_insert(old(self).accounts@, who, new_acct);
                }
            },
        }
    }
}

} // verus!
