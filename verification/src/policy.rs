//! The policy interface the host supplies to the engine: the fee to charge
//! for an operation, the expiration horizon of the resulting entry, and
//! what happens to a paid fee.

use vstd::prelude::*;

use crate::ledger::{Ledger, LedgerModel};
use crate::types::{AccountId, Balance, Height, Name, Operation, OperationType};

verus! {

/// The engine's configuration trait.  A host implements it to decide the
/// fee of each operation, how long the resulting entry lives, and where a
/// paid fee goes.  Each executable method must return exactly what its
/// specification function of the same implementation says, so that the
/// engine's contracts can speak of the policy precisely.
pub trait Trait: Sized {
    /// The fee [`Trait::get_name_fee`] returns, or `None` where the policy
    /// disallows the operation.
    spec fn spec_name_fee(&self, op: Operation) -> Option<Balance>;

    /// The horizon [`Trait::get_expiration`] returns: the number of
    /// height-units before the entry expires, or `None` for an entry that
    /// never expires.
    spec fn spec_expiration(&self, op: Operation) -> Option<Height>;

    /// The ledger [`Trait::deposit_fee`] leaves behind after disposing of a
    /// withdrawn fee of `amount`.
    spec fn spec_deposit_fee(&self, ledger: LedgerModel, amount: Balance) -> LedgerModel;

    /// Computes the fee the sender has to pay for the operation.  `None`
    /// means the policy disallows the operation (for example a name it
    /// considers invalid).
    fn get_name_fee(&self, op: &Operation) -> (r: Option<Balance>)
        ensures
            r == self.spec_name_fee(*op),
    ;

    /// Computes the number of height-units before the name produced by the
    /// operation expires again.  `None` means the name never expires.
    fn get_expiration(&self, op: &Operation) -> (r: Option<Height>)
        ensures
            r == self.spec_expiration(*op),
    ;

    /// Takes ownership of a fee of `amount` withdrawn for an operation.  An
    /// implementation may leave the ledger alone to burn the fee, credit a
    /// destination account, or anything else it states.
    fn deposit_fee(&self, ledger: &mut Ledger, amount: Balance)
        ensures
            final(ledger)@ == self.spec_deposit_fee(old(ledger)@, amount),
    ;
}

/// A simple policy: one flat fee per operation kind, one expiration horizon
/// for every entry, and fees credited to a fixed receiver account.
pub struct FlatFeePolicy {
    /// The fee of a registration.
    pub registration_fee: Balance,
    /// The fee of an update or transfer of an existing name.
    pub update_fee: Balance,
    /// The number of height-units before an entry expires, or `None` for
    /// entries that never expire.
    pub expiration_blocks: Option<Height>,
    /// The account credited with every paid fee.
    pub fee_receiver: AccountId,
}

impl Trait for FlatFeePolicy {
    open spec fn spec_name_fee(&self, op: Operation) -> Option<Balance> {
        match op.operation {
            OperationType::Registration => Some(self.registration_fee),
            OperationType::Update => Some(self.update_fee),
        }
    }

    open spec fn spec_expiration(&self, op: Operation) -> Option<Height> {
        self.expiration_blocks
    }

    open spec fn spec_deposit_fee(&self, ledger: LedgerModel, amount: Balance) -> LedgerModel {
        ledger.after_deposit(self.fee_receiver, amount)
    }

    fn get_name_fee(&self, op: &Operation) -> (r: Option<Balance>) {
        match op.operation {
            OperationType::Registration => Some(self.registration_fee),
            OperationType::Update => Some(self.update_fee),
        }
    }

    fn get_expiration(&self, op: &Operation) -> (r: Option<Height>) {
        self.expiration_blocks
    }

    fn deposit_fee(&self, ledger: &mut Ledger, amount: Balance) {
        ledger.deposit_creating(self.fee_receiver, amount);
    }
}

/// A policy that disallows every operation on a name above a bound — the
/// kind of format rule a host may enforce — and otherwise behaves like the
/// wrapped flat-fee policy.
pub struct BoundedNamePolicy {
    /// The largest name the policy allows.
    pub max_name: Name,
    /// The fees and expiration horizon for allowed names.
    pub fees: FlatFeePolicy,
}

impl Trait for BoundedNamePolicy {
    open spec fn spec_name_fee(&self, op: Operation) -> Option<Balance> {
        if op.name > self.max_name {
            None
        } else {
            self.fees.spec_name_fee(op)
        }
    }

    open spec fn spec_expiration(&self, op: Operation) -> Option<Height> {
        self.fees.spec_expiration(op)
    }

    open spec fn spec_deposit_fee(&self, ledger: LedgerModel, amount: Balance) -> LedgerModel {
        self.fees.spec_deposit_fee(ledger, amount)
    }

    fn get_name_fee(&self, op: &Operation) -> (r: Option<Balance>) {
        if op.name > self.max_name {
            None
        } else {
            self.fees.get_name_fee(op)
        }
    }

    fn get_expiration(&self, op: &Operation) -> (r: Option<Height>) {
        self.fees.get_expiration(op)
    }

    fn deposit_fee(&self, ledger: &mut Ledger, amount: Balance) {
        self.fees.deposit_fee(ledger, amount);
    }
}

} // verus!
