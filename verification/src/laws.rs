//! The laws of the registry, stated over the same specification functions
//! the engine's contracts use and proved once and for all.

use vstd::prelude::*;

use crate::ledger::LedgerModel;
use crate::policy::Trait;
use crate::registry::{
    spec_check, spec_execute_registry, spec_resolved_operation, spec_sweep, RegistryModel,
};
use crate::types::{AccountId, Balance, Error, Height, Name, NameData, Operation, Value};

verus! {

/// Validation succeeds exactly when the name is free or owned by the
/// sender, the policy quotes a fee for the resolved request, the sender's
/// free balance covers that fee, and every lock tolerates the remaining
/// balance — and then the result is the resolved request carrying that fee.
pub proof fn lemma_check_success_exact<T: Trait>(
    policy: T,
    names: Map<Name, NameData>,
    ledger: LedgerModel,
    sender: AccountId,
    name: Name,
    value: Option<Value>,
    recipient: Option<AccountId>,
)
    ensures
        ({
            let base = spec_resolved_operation(names, sender, name, value, recipient);
            let r = spec_check(policy, names, ledger, sender, name, value, recipient);
            &&& (r is Ok <==> {
                &&& !(names.contains_key(name) && names[name].owner != sender)
                &&& policy.spec_name_fee(base) is Some
                &&& policy.spec_name_fee(base)->Some_0 <= ledger.free(sender)
                &&& ledger.can_withdraw(
                    sender,
                    (ledger.free(sender) - policy.spec_name_fee(base)->Some_0) as Balance,
                )
            })
            &&& (r is Ok ==> r->Ok_0 == Operation {
                fee: policy.spec_name_fee(base)->Some_0,
                ..base
            })
        }),
{
}

/// Ownership is enforced: for every registered name and every account other
/// than its owner, validation rejects the request with [`Error::NotOwner`],
/// whatever value or recipient it asks for and whatever the ledger holds.
/// Validation mutates nothing to begin with, so such a request leaves all
/// state untouched.
pub proof fn lemma_non_owner_rejected<T: Trait>(
    policy: T,
    names: Map<Name, NameData>,
    ledger: LedgerModel,
    sender: AccountId,
    name: Name,
    value: Option<Value>,
    recipient: Option<AccountId>,
)
    requires
        names.contains_key(name),
        names[name].owner != sender,
    ensures
        spec_check(policy, names, ledger, sender, name, value, recipient) == Err::<
            Operation,
            Error,
        >(Error::NotOwner),
{
}

/// A no-op update is idempotent: when the owner of a registered name asks
/// for an update with no value and no recipient, the operation that
/// validates and then executes leaves the entry's value and owner exactly
/// as they were, and touches no other name.  Only the expiration field and
/// the expiration index may change.
pub proof fn lemma_noop_update_preserves_entry<T: Trait>(
    policy: T,
    reg: RegistryModel,
    ledger: LedgerModel,
    height: Height,
    sender: AccountId,
    name: Name,
)
    requires
        reg.names.contains_key(name),
        reg.names[name].owner == sender,
        spec_check(policy, reg.names, ledger, sender, name, None, None) is Ok,
    ensures
        ({
            let op = spec_check(policy, reg.names, ledger, sender, name, None, None)->Ok_0;
            let after = spec_execute_registry(policy, reg, height, op);
            &&& after.names.contains_key(name)
            &&& after.names[name].value == reg.names[name].value
            &&& after.names[name].owner == reg.names[name].owner
            &&& forall|m: Name|
                m != name ==> (#[trigger] after.names.contains_key(m) <==> reg.names.contains_key(
                    m,
                )) && (after.names.contains_key(m) ==> after.names[m] == reg.names[m])
        }),
{
}

/// Names are first come, first served: once an operation registering a name
/// has executed, its recipient is the owner, and a later request for the
/// same name from any other account fails validation with
/// [`Error::NotOwner`], whatever the ledger holds by then.
pub proof fn lemma_first_come_first_served<T: Trait>(
    policy: T,
    reg: RegistryModel,
    height: Height,
    op: Operation,
    later_ledger: LedgerModel,
    second_sender: AccountId,
    value: Option<Value>,
    recipient: Option<AccountId>,
)
    requires
        second_sender != op.recipient,
    ensures
        ({
            let after = spec_execute_registry(policy, reg, height, op);
            &&& after.names.contains_key(op.name)
            &&& after.names[op.name].owner == op.recipient
            &&& spec_check(
                policy,
                after.names,
                later_ledger,
                second_sender,
                op.name,
                value,
                recipient,
            ) == Err::<Operation, Error>(Error::NotOwner)
        }),
{
}

/// Stale expiration index entries are tolerated: a sweep at a height the
/// live entry no longer names leaves the name registered, with its value,
/// owner and expiration untouched.  In particular, after a name scheduled
/// to expire at one height is renewed to a different height, a sweep at the
/// old height does not expire it.
pub proof fn lemma_stale_index_entry_ignored(reg: RegistryModel, height: Height, name: Name)
    requires
        reg.names.contains_key(name),
        reg.names[name].expiration != Some(height),
    ensures
        spec_sweep(reg, height).names.contains_key(name),
        spec_sweep(reg, height).names[name] == reg.names[name],
{
}

} // verus!
