//! The name registry engine: validation ([`check_assuming_signed`]),
//! execution ([`execute`]), the convenience entry points [`update`] and
//! [`transfer`], and the height-advancement sweep
//! ([`process_expirations`]).
//!
//! Validation is a pure decision: it resolves a request into an
//! [`Operation`] or rejects it, and mutates nothing.  Execution commits a
//! resolved operation atomically: the fee withdrawal is its first action,
//! and if that fails nothing at all changes.

use std::collections::HashMap;
use vstd::prelude::*;

use crate::ledger::{Ledger, LedgerModel};
use crate::policy::Trait;
use crate::types::{AccountId, Balance, Error, Event, Height, Name, NameData, Operation, OperationType, Value};

verus! {

broadcast use vstd::std_specs::hash::group_hash_axioms;

/// The mathematical value of a [`Registry`].
pub struct RegistryModel {
    /// The authoritative name store.  A name is registered exactly when it
    /// is a key here.
    pub names: Map<Name, NameData>,
    /// The expiration index: heights at which a name was once scheduled to
    /// expire.  Entries are never rewritten when a name is later updated,
    /// so stale entries are expected; the live entry's own expiration field
    /// decides.
    pub expirations: Seq<(Height, Name)>,
    /// The events recorded so far, oldest first.
    pub events: Seq<Event>,
}

/// The operation a request resolves to before the fee is known: the kind
/// and baseline value follow from whether the name is registered, a missing
/// value keeps the existing value (or the default for a registration), and
/// a missing recipient keeps the sender as owner.
pub open spec fn spec_resolved_operation(
    names: Map<Name, NameData>,
    sender: AccountId,
    name: Name,
    value: Option<Value>,
    recipient: Option<AccountId>,
) -> Operation {
    let registered = names.contains_key(name);
    Operation {
        operation: if registered {
            OperationType::Update
        } else {
            OperationType::Registration
        },
        name,
        value: match value {
            Some(v) => v,
            None => if registered {
                names[name].value
            } else {
                0
            },
        },
        sender,
        recipient: match recipient {
            Some(r) => r,
            None => sender,
        },
        fee: 0,
    }
}

/// What validation decides: the resolved operation, or the first rejection
/// in this order: a registered name not owned by the sender, a fee the
/// policy refuses to quote, a fee above the free balance, a lock that
/// blocks the withdrawal.
pub open spec fn spec_check<T: Trait>(
    policy: T,
    names: Map<Name, NameData>,
    ledger: LedgerModel,
    sender: AccountId,
    name: Name,
    value: Option<Value>,
    recipient: Option<AccountId>,
) -> Result<Operation, Error> {
    if names.contains_key(name) && names[name].owner != sender {
        Err(Error::NotOwner)
    } else {
        let base = spec_resolved_operation(names, sender, name, value, recipient);
        match policy.spec_name_fee(base) {
            None => Err(Error::PolicyRejected),
            Some(fee) => if fee > ledger.free(sender) {
                Err(Error::InsufficientFunds)
            } else if !ledger.can_withdraw(sender, (ledger.free(sender) - fee) as Balance) {
                Err(Error::WithdrawalBlocked)
            } else {
                Ok(
                    Operation {
                        operation: base.operation,
                        name: base.name,
                        value: base.value,
                        sender: base.sender,
                        recipient: base.recipient,
                        fee,
                    },
                )
            },
        }
    }
}

/// The height at which the entry produced by `op` expires: the current
/// height plus the policy's horizon, clamped to at least one height-unit so
/// that a scheduled expiration always lies in the future; `None` where the
/// policy says the name never expires.
pub open spec fn spec_expiration_height<T: Trait>(
    policy: T,
    height: Height,
    op: Operation,
) -> Option<Height> {
    match policy.spec_expiration(op) {
        None => None,
        Some(b) => Some(
            (height + (if b == 0 {
                1 as Height
            } else {
                b
            })) as Height,
        ),
    }
}

/// Whether the expiration height of `op` fits in a height value; execution
/// requires it so that the addition cannot overflow.
pub open spec fn expiration_fits<T: Trait>(policy: T, height: Height, op: Operation) -> bool {
    match policy.spec_expiration(op) {
        None => true,
        Some(b) => height + (if b == 0 {
            1 as Height
        } else {
            b
        }) <= Height::MAX,
    }
}

/// The entry execution writes for `op`.
pub open spec fn spec_new_entry<T: Trait>(policy: T, height: Height, op: Operation) -> NameData {
    NameData {
        value: op.value,
        owner: op.recipient,
        expiration: spec_expiration_height(policy, height, op),
    }
}

/// The registry after a successful execution of `op` at `height`: the
/// entry is written unconditionally, an index entry is added for a finite
/// expiration, and the events are recorded — a registration event first for
/// a registration, then always the update event.
pub open spec fn spec_execute_registry<T: Trait>(
    policy: T,
    reg: RegistryModel,
    height: Height,
    op: Operation,
) -> RegistryModel {
    let data = spec_new_entry(policy, height, op);
    RegistryModel {
        names: reg.names.insert(op.name, data),
        expirations: match data.expiration {
            Some(h) => reg.expirations.push((h, op.name)),
            None => reg.expirations,
        },
        events: (match op.operation {
            OperationType::Registration => reg.events.push(Event::NameRegistered(op.name)),
            OperationType::Update => reg.events,
        }).push(Event::NameUpdated(op.name, data)),
    }
}

/// The ledger after a successful execution of `op`: the fee is withdrawn
/// from the sender and handed to the policy's fee disposal.
pub open spec fn spec_execute_ledger<T: Trait>(
    policy: T,
    ledger: LedgerModel,
    op: Operation,
) -> LedgerModel {
    policy.spec_deposit_fee(ledger.after_withdraw(op.sender, op.fee), op.fee)
}

/// Whether a sweep at `height` removes `n`: the index schedules `n` at
/// `height`, and the live entry's own expiration still agrees.  A stale
/// index entry — one whose height the live entry no longer carries — never
/// removes a name.
pub open spec fn sweep_removes(reg: RegistryModel, height: Height, n: Name) -> bool {
    &&& reg.expirations.contains((height, n))
    &&& reg.names.contains_key(n)
    &&& reg.names[n].expiration == Some(height)
}

/// The index entries of `entries` whose height differs from `height`, in
/// order: what a sweep at `height` leaves in the index.
pub open spec fn entries_not_at(height: Height, entries: Seq<(Height, Name)>) -> Seq<
    (Height, Name),
>
    decreases entries.len(),
{
    if entries.len() == 0 {
        Seq::empty()
    } else {
        let rest = entries_not_at(height, entries.drop_last());
        if entries.last().0 != height {
            rest.push(entries.last())
        } else {
            rest
        }
    }
}

/// The registry after a height-advancement sweep at `height`: the index
/// entries of that height are consumed, and exactly the names they schedule
/// whose live expiration agrees are removed.
pub open spec fn spec_sweep(reg: RegistryModel, height: Height) -> RegistryModel {
    RegistryModel {
        names: reg.names.remove_keys(Set::new(|n: Name| sweep_removes(reg, height, n))),
        expirations: entries_not_at(height, reg.expirations),
        events: reg.events,
    }
}

/// Whether one of the first `i` index entries removes `n` in a sweep at
/// `height`.
spec fn swept_before(reg: RegistryModel, height: Height, n: Name, i: int) -> bool {
    &&& reg.names.contains_key(n)
    &&& reg.names[n].expiration == Some(height)
    &&& exists|j: int| 0 <= j < i && #[trigger] reg.expirations[j] == (height, n)
}

/// The name store and expiration index, together with the recorded events.
pub struct Registry {
    names: HashMap<Name, NameData>,
    expirations: Vec<(Height, Name)>,
    events: Vec<Event>,
}

impl View for Registry {
    type V = RegistryModel;

    closed spec fn view(&self) -> RegistryModel {
        RegistryModel {
            names: self.names@,
            expirations: self.expirations@,
            events: self.events@,
        }
    }
}

impl Registry {
    /// An empty registry: no names, no scheduled expirations, no events.
    pub fn new() -> (r: Registry)
        ensures
            r@ == (RegistryModel {
                names: Map::empty(),
                expirations: Seq::empty(),
                events: Seq::empty(),
            }),
    {
        Registry { names: HashMap::new(), expirations: Vec::new(), events: Vec::new() }
    }

    /// The stored entry of `name`, or `None` if the name is not registered.
    pub fn get_name(&self, name: Name) -> (r: Option<NameData>)
        ensures
            r == (if self@.names.contains_key(name) {
                Some(self@.names[name])
            } else {
                None::<NameData>
            }),
    {
        match self.names.get(&name) {
            Some(data) => Some(*data),
            None => None,
        }
    }

    /// Writes an entry directly, bypassing validation and fees.  This is
    /// the raw insert of the backing store, for hosts that build up state
    /// themselves.
    pub fn insert_name(&mut self, name: Name, data: NameData)
        ensures
            final(self)@ == (RegistryModel {
                names: old(self)@.names.insert(name, data),
                expirations: old(self)@.expirations,
                events: old(self)@.events,
            }),
    {
        self.names.insert(name, data);
    }

    /// The events recorded so far, oldest first.
    pub fn events(&self) -> (r: &Vec<Event>)
        ensures
            r@ == self@.events,
    {
        &self.events
    }

    /// The expiration index entries, in insertion order.
    pub fn expiration_entries(&self) -> (r: &Vec<(Height, Name)>)
        ensures
            r@ == self@.expirations,
    {
        &self.expirations
    }
}

/// Checks whether a name operation is valid, assuming the sender's
/// signature was already verified.  A missing value keeps the existing
/// value, or the default value for a name that does not exist yet; a
/// missing recipient keeps the sender as owner.  Returns the fully resolved
/// operation to pass to [`execute`], or the reason for rejection.  Nothing
/// is mutated either way.
pub fn check_assuming_signed<T: Trait>(
    policy: &T,
    registry: &Registry,
    ledger: &Ledger,
    sender: AccountId,
    name: Name,
    value: Option<Value>,
    recipient: Option<AccountId>,
) -> (r: Result<Operation, Error>)
    ensures
        r == spec_check(*policy, registry@.names, ledger@, sender, name, value, recipient),
        r == Err::<Operation, Error>(Error::NotOwner) <==> registry@.names.contains_key(name)
            && registry@.names[name].owner != sender,
{
    let (typ, old_value) = match registry.names.get(&name) {
        None => (OperationType::Registration, 0),
        Some(data) => {
            if sender != data.owner {
                return Err(Error::NotOwner);
            }
            (OperationType::Update, data.value)
        },
    };
    let value = match value {
        None => old_value,
        Some(new_value) => new_value,
    };
    let recipient = match recipient {
        None => sender,
        Some(new_recipient) => new_recipient,
    };
    let mut op = Operation { operation: typ, name, value, sender, recipient, fee: 0 };
    op.fee = match policy.get_name_fee(&op) {
        None => {
            return Err(Error::PolicyRejected);
        },
        Some(f) => f,
    };
    let new_balance = match ledger.free_balance(sender).checked_sub(op.fee) {
        None => {
            return Err(Error::InsufficientFunds);
        },
        Some(b) => b,
    };
    if !ledger.ensure_can_withdraw(sender, new_balance) {
        return Err(Error::WithdrawalBlocked);
    }
    Ok(op)
}

/// Executes the state change (and records the events) for a validated
/// operation.  The fee withdrawal is the very first action: if it fails —
/// the balance moved between validation and execution — the call returns
/// [`Error::FeeWithdrawalRace`] and nothing at all changes.  On success the
/// fee goes to the policy's fee disposal, the entry is written, a finite
/// expiration is indexed, and the events are recorded.
pub fn execute<T: Trait>(
    policy: &T,
    registry: &mut Registry,
    ledger: &mut Ledger,
    height: Height,
    op: Operation,
) -> (r: Result<(), Error>)
    requires
        expiration_fits(*policy, height, op),
    ensures
        r is Ok <==> old(ledger)@.withdraw_allowed(op.sender, op.fee),
        r is Err ==> r == Err::<(), Error>(Error::FeeWithdrawalRace)
            && final(registry)@ == old(registry)@ && final(ledger)@ == old(ledger)@,
        r is Ok ==> final(registry)@ == spec_execute_registry(*policy, old(registry)@, height, op)
            && final(ledger)@ == spec_execute_ledger(*policy, old(ledger)@, op),
{
    let token = match ledger.withdraw(op.sender, op.fee) {
        Err(_) => {
            return Err(Error::FeeWithdrawalRace);
        },
        Ok(t) => t,
    };
    policy.deposit_fee(ledger, token);

    let expiration_height = match policy.get_expiration(&op) {
        None => None,
        Some(b) => {
            let clamped: Height = if b == 0 {
                1
            } else {
                b
            };
            Some(height + clamped)
        },
    };

    let data = NameData { value: op.value, owner: op.recipient, expiration: expiration_height };
    registry.names.insert(op.name, data);
    match expiration_height {
        Some(h) => {
            registry.expirations.push((h, op.name));
        },
        None => {},
    }

    match op.operation {
        OperationType::Registration => {
            registry.events.push(Event::NameRegistered(op.name));
        },
        OperationType::Update => {},
    }
    registry.events.push(Event::NameUpdated(op.name, data));

    Ok(())
}

/// Tries to update a name with a given value, validating and executing in
/// one step.  If the name does not exist yet it is registered to the
/// sender; if it exists, only the current owner may update it.  Because
/// nothing happens between validation and execution, a request that
/// validates always commits.
pub fn update<T: Trait>(
    policy: &T,
    registry: &mut Registry,
    ledger: &mut Ledger,
    height: Height,
    sender: AccountId,
    name: Name,
    value: Value,
) -> (r: Result<(), Error>)
    requires
        (match spec_check(
            *policy,
            old(registry)@.names,
            old(ledger)@,
            sender,
            name,
            Some(value),
            None,
        ) {
            Ok(op) => expiration_fits(*policy, height, op),
            Err(_) => true,
        }),
    ensures
        (match spec_check(
            *policy,
            old(registry)@.names,
            old(ledger)@,
            sender,
            name,
            Some(value),
            None,
        ) {
            Err(e) => r == Err::<(), Error>(e) && final(registry)@ == old(registry)@
                && final(ledger)@ == old(ledger)@,
            Ok(op) => r is Ok && final(registry)@ == spec_execute_registry(
                *policy,
                old(registry)@,
                height,
                op,
            ) && final(ledger)@ == spec_execute_ledger(*policy, old(ledger)@, op),
        }),
{
    let op = match check_assuming_signed(policy, registry, ledger, sender, name, Some(value), None) {
        Err(e) => {
            return Err(e);
        },
        Ok(op) => op,
    };
    execute(policy, registry, ledger, height, op)
}

/// Tries to transfer a name to a given recipient, validating and executing
/// in one step.  If the name does not exist it is registered directly to
/// the recipient with the default value.
pub fn transfer<T: Trait>(
    policy: &T,
    registry: &mut Registry,
    ledger: &mut Ledger,
    height: Height,
    sender: AccountId,
    name: Name,
    recipient: AccountId,
) -> (r: Result<(), Error>)
    requires
        (match spec_check(
            *policy,
            old(registry)@.names,
            old(ledger)@,
            sender,
            name,
            None,
            Some(recipient),
        ) {
            Ok(op) => expiration_fits(*policy, height, op),
            Err(_) => true,
        }),
    ensures
        (match spec_check(
            *policy,
            old(registry)@.names,
            old(ledger)@,
            sender,
            name,
            None,
            Some(recipient),
        ) {
            Err(e) => r == Err::<(), Error>(e) && final(registry)@ == old(registry)@
                && final(ledger)@ == old(ledger)@,
            Ok(op) => r is Ok && final(registry)@ == spec_execute_registry(
                *policy,
                old(registry)@,
                height,
                op,
            ) && final(ledger)@ == spec_execute_ledger(*policy, old(ledger)@, op),
        }),
{
    let op = match check_assuming_signed(
        policy,
        registry,
        ledger,
        sender,
        name,
        None,
        Some(recipient),
    ) {
        Err(e) => {
            return Err(e);
        },
        Ok(op) => op,
    };
    execute(policy, registry, ledger, height, op)
}

/// Processes the expiration index for `height`: every index entry of that
/// height is consumed, and a name it schedules is removed exactly when the
/// live entry's own expiration still names this height.  Index entries of
/// other heights, all other names, and the event log are untouched.
pub fn process_expirations(registry: &mut Registry, height: Height)
    ensures
        final(registry)@ == spec_sweep(old(registry)@, height),
{
    let ghost reg0 = registry@;
    let n = registry.expirations.len();
    let mut remaining: Vec<(Height, Name)> = Vec::new();
    let mut i: usize = 0;
    while i < n
        invariant
            i <= n,
            n == registry.expirations.len(),
            registry@.expirations == reg0.expirations,
            registry@.events == reg0.events,
            remaining@ == entries_not_at(height, reg0.expirations.subrange(0, i as int)),
            forall|m: Name| #[trigger]
                registry@.names.contains_key(m) ==> reg0.names.contains_key(m)
                    && registry@.names[m] == reg0.names[m],
            forall|m: Name| #[trigger]
                reg0.names.contains_key(m) ==> (registry@.names.contains_key(m)
                    <==> !swept_before(reg0, height, m, i as int)),
        decreases n - i,
    {
        let e = registry.expirations[i];
        proof {
            let sub = reg0.expirations.subrange(0, i as int);
            let sub1 = reg0.expirations.subrange(0, i + 1 as int);
            assert(sub1 =~= sub.push(e));
            assert(sub1.drop_last() =~= sub);
            assert(sub1.last() == e);
        }
        if e.0 == height {
            let dead = match registry.names.get(&e.1) {
                Some(data) => match data.expiration {
                    Some(h) => h == height,
                    None => false,
                },
                None => false,
            };
            if dead {
                let ghost prev = registry@.names;
                registry.names.remove(&e.1);
                proof {
                    assert(registry@.names == prev.remove(e.1));
                    assert forall|m: Name| #[trigger]
                        registry@.names.contains_key(m) implies prev.contains_key(m)
                        && registry@.names[m] == prev[m] by {
                        assert(prev.remove(e.1).contains_key(m));
                    }
                }
            }
            proof {
                assert(reg0.expirations[i as int] == (height, e.1));
            }
        } else {
            remaining.push(e);
        }
        i += 1;
    }
    proof {
        assert(reg0.expirations.subrange(0, n as int) =~= reg0.expirations);
        assert forall|m: Name| #[trigger] sweep_removes(reg0, height, m) implies swept_before(
            reg0,
            height,
            m,
            n as int,
        ) by {
            let j = choose|j: int|
                0 <= j < reg0.expirations.len() && #[trigger] reg0.expirations[j] == (height, m);
            assert(0 <= j < n && reg0.expirations[j] == (height, m));
        }
        assert forall|m: Name| #[trigger] swept_before(reg0, height, m, n as int) implies
            sweep_removes(reg0, height, m) by {
            let j = choose|j: int| 0 <= j < n && #[trigger] reg0.expirations[j] == (height, m);
            assert(reg0.expirations[j] == (height, m));
            assert(reg0.expirations.contains((height, m)));
        }
        let target = spec_sweep(reg0, height).names;
        assert forall|m: Name| #[trigger] registry@.names.contains_key(m) implies
            target.contains_key(m) && registry@.names[m] == target[m] by {
            assert(reg0.names.contains_key(m));
            assert(!swept_before(reg0, height, m, n as int));
            assert(!sweep_removes(reg0, height, m));
        }
        assert forall|m: Name| #[trigger] target.contains_key(m) implies
            registry@.names.contains_key(m) by {
            assert(reg0.names.contains_key(m));
            assert(!sweep_removes(reg0, height, m));
            assert(!swept_before(reg0, height, m, n as int));
        }
        assert(registry@.names =~= target);
    }
    registry.expirations = remaining;
    proof {
        assert(registry@ == spec_sweep(reg0, height));
    }
}

} // verus!
