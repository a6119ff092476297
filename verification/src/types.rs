//! The data types of the name registry: stored name entries, resolved
//! operations, domain events and error reasons.

use vstd::prelude::*;

verus! {

/// Account identifiers of the surrounding ledger.
pub type AccountId = u64;

/// Name identifiers.  Each name is unique within the registry.
pub type Name = u64;

/// Values associated with a name.
pub type Value = u64;

/// Currency amounts of the balance ledger.
pub type Balance = u128;

/// The ledger's monotonically increasing progress counter, used for
/// expiration scheduling.
pub type Height = u64;

/// All data stored with a name in the registry.
#[derive(Clone, Copy, Debug, PartialEq, Eq, Structural)]
pub struct NameData {
    /// The name's associated value.
    pub value: Value,
    /// The name's current owner.
    pub owner: AccountId,
    /// The height at which the name expires, or `None` if it never expires.
    /// The expiration index also records scheduled heights, but the value
    /// here is authoritative: a stale index entry whose height no longer
    /// matches this field must not expire the name.
    pub expiration: Option<Height>,
}

/// The kind of a name operation.
#[derive(Clone, Copy, Debug, PartialEq, Eq, Structural)]
pub enum OperationType {
    /// The name was not registered before the operation.
    Registration,
    /// The name exists and its owner is changing it.
    Update,
}

/// All data necessary to actually perform a name operation.  This is
/// returned by validation and can then be passed to execution, once a host
/// has run whatever additional checks it wants in between.
#[derive(Clone, Copy, Debug, PartialEq, Eq, Structural)]
pub struct Operation {
    /// The kind of this operation.
    pub operation: OperationType,
    /// The name being operated on.
    pub name: Name,
    /// The value it is being set to.
    pub value: Value,
    /// The sender of the operation, who pays the name fee.
    pub sender: AccountId,
    /// The owner the name is assigned to.
    pub recipient: AccountId,
    /// The name fee to pay, fully resolved and affordability-checked.
    pub fee: Balance,
}

/// Domain events recorded by execution.
#[derive(Clone, Copy, Debug, PartialEq, Eq, Structural)]
pub enum Event {
    /// A name was newly created.
    NameRegistered(Name),
    /// A name was updated (or created).  Carries the new stored entry.
    NameUpdated(Name, NameData),
}

/// The reasons for which a name operation is rejected.
#[derive(Clone, Copy, Debug, PartialEq, Eq, Structural)]
pub enum Error {
    /// The sender does not own the registered name it tries to change.
    NotOwner,
    /// The fee policy disallows the operation.
    PolicyRejected,
    /// The sender's free balance does not cover the fee.
    InsufficientFunds,
    /// The balance would suffice, but a ledger-side lock blocks the
    /// withdrawal.
    WithdrawalBlocked,
    /// The fee could no longer be withdrawn at execution time even though
    /// validation had passed; the balance moved in between.  Execution
    /// leaves all state unchanged in this case.
    FeeWithdrawalRace,
}

impl Error {
    /// A human-readable description of the rejection.
    pub fn message(&self) -> (r: &'static str)
        ensures
            r == self.spec_message(),
    {
        match self {
            Error::NotOwner => "non-owner name update",
            Error::PolicyRejected => "operation violates name policy",
            Error::InsufficientFunds => "insufficient balance for name fee",
            Error::WithdrawalBlocked => "cannot withdraw name fee from sender",
            Error::FeeWithdrawalRace => "name fee withdrawal failed at execution",
        }
    }

    /// What [`Error::message`] returns for each reason.
    pub open spec fn spec_message(self) -> &'static str {
        match self {
            Error::NotOwner => "non-owner name update",
            Error::PolicyRejected => "operation violates name policy",
            Error::InsufficientFunds => "insufficient balance for name fee",
            Error::WithdrawalBlocked => "cannot withdraw name fee from sender",
            Error::FeeWithdrawalRace => "name fee withdrawal failed at execution",
        }
    }
}

} // verus!
