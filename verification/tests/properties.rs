//! Scenario tests for the registry's stated properties: ownership
//! enforcement, atomic execution, idempotent no-op updates, staleness
//! tolerance of the expiration index, first-come-first-served registration,
//! and the end-to-end fee flow; plus the policy-rejection path, expiration
//! clamping and the ledger's edge behaviour.

use names::ledger::Ledger;
use names::policy::{BoundedNamePolicy, FlatFeePolicy};
use names::registry;
use names::registry::Registry;
use names::types::{Error, Event, NameData, Operation, OperationType};

const FEE_RECEIVER: u64 = 12345;

fn policy_with_expiration(expiration_blocks: Option<u64>) -> FlatFeePolicy {
    FlatFeePolicy {
        registration_fee: 100,
        update_fee: 0,
        expiration_blocks,
        fee_receiver: FEE_RECEIVER,
    }
}

#[test]
fn ownership_check_rejects_and_mutates_nothing() {
    let policy = policy_with_expiration(None);
    let mut reg = Registry::new();
    let mut ledger = Ledger::new(1000);
    ledger.deposit_creating(10, 5000);
    reg.insert_name(100, NameData { value: 7, owner: 20, expiration: None });

    // Any value/recipient combination from a non-owner is rejected.
    for (value, recipient) in [
        (None, None),
        (Some(1), None),
        (None, Some(10)),
        (Some(2), Some(30)),
    ] {
        assert_eq!(
            registry::check_assuming_signed(&policy, &reg, &ledger, 10, 100, value, recipient),
            Err(Error::NotOwner)
        );
    }
    assert_eq!(
        reg.get_name(100),
        Some(NameData { value: 7, owner: 20, expiration: None })
    );
    assert_eq!(reg.events(), &Vec::new());
    assert_eq!(ledger.total_balance(10), 5000);
}

#[test]
fn failed_fee_withdrawal_changes_nothing() {
    let policy = policy_with_expiration(Some(5));
    let mut reg = Registry::new();
    let mut ledger = Ledger::new(1000);
    ledger.deposit_creating(10, 2000);
    assert_eq!(registry::update(&policy, &mut reg, &mut ledger, 1, 10, 100, 42), Ok(()));

    let entry_before = reg.get_name(100);
    let index_before = reg.expiration_entries().clone();
    let events_before = reg.events().clone();

    assert_eq!(
        registry::execute(
            &policy,
            &mut reg,
            &mut ledger,
            2,
            Operation {
                operation: OperationType::Update,
                name: 100,
                value: 60,
                sender: 10,
                recipient: 20,
                fee: 9999,
            }
        ),
        Err(Error::FeeWithdrawalRace)
    );

    assert_eq!(reg.get_name(100), entry_before);
    assert_eq!(reg.expiration_entries(), &index_before);
    assert_eq!(reg.events(), &events_before);
    // The registration fee went to an unknown receiver below the
    // existential deposit, so it was burned; the failed execution must not
    // move anything further.
    assert_eq!(ledger.total_balance(10), 1900);
    assert_eq!(ledger.total_balance(FEE_RECEIVER), 0);
    assert_eq!(ledger.total_issuance(), 1900);
}

#[test]
fn noop_update_keeps_value_and_owner() {
    let policy = policy_with_expiration(Some(10));
    let mut reg = Registry::new();
    let mut ledger = Ledger::new(1000);
    ledger.deposit_creating(10, 5000);
    assert_eq!(registry::update(&policy, &mut reg, &mut ledger, 1, 10, 100, 42), Ok(()));
    assert_eq!(
        reg.get_name(100),
        Some(NameData { value: 42, owner: 10, expiration: Some(11) })
    );

    let op = registry::check_assuming_signed(&policy, &reg, &ledger, 10, 100, None, None)
        .expect("owner no-op update must validate");
    assert_eq!(
        op,
        Operation {
            operation: OperationType::Update,
            name: 100,
            value: 42,
            sender: 10,
            recipient: 10,
            fee: 0,
        }
    );
    assert_eq!(registry::execute(&policy, &mut reg, &mut ledger, 5, op), Ok(()));

    // Value and owner are untouched; only the expiration and its index moved.
    assert_eq!(
        reg.get_name(100),
        Some(NameData { value: 42, owner: 10, expiration: Some(15) })
    );
    assert_eq!(reg.expiration_entries(), &vec![(11, 100), (15, 100)]);
}

#[test]
fn stale_expiration_entry_is_ignored() {
    let policy = policy_with_expiration(Some(10));
    let mut reg = Registry::new();
    let mut ledger = Ledger::new(1000);
    ledger.deposit_creating(10, 5000);
    // Register at height 1: scheduled to expire at 11.
    assert_eq!(registry::update(&policy, &mut reg, &mut ledger, 1, 10, 100, 42), Ok(()));
    // Renew at height 5: the live entry now expires at 15, but the old
    // index entry for 11 stays behind.
    assert_eq!(registry::update(&policy, &mut reg, &mut ledger, 5, 10, 100, 42), Ok(()));
    assert_eq!(reg.expiration_entries(), &vec![(11, 100), (15, 100)]);

    // The sweep at the stale height consumes the index entry but must not
    // expire the renewed name.
    registry::process_expirations(&mut reg, 11);
    assert_eq!(
        reg.get_name(100),
        Some(NameData { value: 42, owner: 10, expiration: Some(15) })
    );
    assert_eq!(reg.expiration_entries(), &vec![(15, 100)]);

    // The sweep at the live height expires it.
    registry::process_expirations(&mut reg, 15);
    assert_eq!(reg.get_name(100), None);
    assert_eq!(reg.expiration_entries(), &Vec::new());
}

#[test]
fn expired_name_is_registrable_again() {
    let policy = policy_with_expiration(Some(10));
    let mut reg = Registry::new();
    let mut ledger = Ledger::new(1000);
    ledger.deposit_creating(10, 5000);
    ledger.deposit_creating(20, 5000);
    assert_eq!(registry::update(&policy, &mut reg, &mut ledger, 1, 10, 100, 42), Ok(()));
    registry::process_expirations(&mut reg, 11);
    assert_eq!(reg.get_name(100), None);
    // A different account can now register the freed name.
    assert_eq!(registry::update(&policy, &mut reg, &mut ledger, 12, 20, 100, 9), Ok(()));
    assert_eq!(
        reg.get_name(100),
        Some(NameData { value: 9, owner: 20, expiration: Some(22) })
    );
}

#[test]
fn first_come_first_served() {
    let policy = policy_with_expiration(None);
    let mut reg = Registry::new();
    let mut ledger = Ledger::new(1000);
    ledger.deposit_creating(10, 5000);
    ledger.deposit_creating(20, 5000);

    // Both accounts could afford the same unregistered name; the first to
    // execute becomes owner.
    assert_eq!(registry::update(&policy, &mut reg, &mut ledger, 0, 10, 100, 42), Ok(()));
    // The second, processed afterwards, now sees a registered name it does
    // not own.
    assert_eq!(
        registry::check_assuming_signed(&policy, &reg, &ledger, 20, 100, Some(666), None),
        Err(Error::NotOwner)
    );
    assert_eq!(
        registry::update(&policy, &mut reg, &mut ledger, 0, 20, 100, 666),
        Err(Error::NotOwner)
    );
    assert_eq!(
        reg.get_name(100),
        Some(NameData { value: 42, owner: 10, expiration: None })
    );
}

#[test]
fn end_to_end_fee_flow() {
    let policy = policy_with_expiration(None);
    let mut reg = Registry::new();
    let mut ledger = Ledger::new(1000);
    ledger.deposit_creating(10, 5000);
    ledger.deposit_creating(FEE_RECEIVER, 1000);

    let op = registry::check_assuming_signed(&policy, &reg, &ledger, 10, 77, None, None)
        .expect("registration must validate");
    assert_eq!(op.fee, 100);
    assert_eq!(registry::execute(&policy, &mut reg, &mut ledger, 0, op), Ok(()));
    assert_eq!(
        reg.get_name(77),
        Some(NameData { value: 0, owner: 10, expiration: None })
    );
    assert_eq!(ledger.total_balance(10), 4900);
    assert_eq!(ledger.total_balance(FEE_RECEIVER), 1100);
    assert_eq!(
        reg.events(),
        &vec![
            Event::NameRegistered(77),
            Event::NameUpdated(77, NameData { value: 0, owner: 10, expiration: None }),
        ]
    );

    let op = registry::check_assuming_signed(&policy, &reg, &ledger, 10, 77, Some(42), None)
        .expect("owner update must validate");
    assert_eq!(op.fee, 0);
    assert_eq!(registry::execute(&policy, &mut reg, &mut ledger, 0, op), Ok(()));
    assert_eq!(
        reg.get_name(77),
        Some(NameData { value: 42, owner: 10, expiration: None })
    );
    assert_eq!(ledger.total_balance(10), 4900);
    assert_eq!(ledger.total_balance(FEE_RECEIVER), 1100);
    assert_eq!(
        reg.events(),
        &vec![
            Event::NameRegistered(77),
            Event::NameUpdated(77, NameData { value: 0, owner: 10, expiration: None }),
            Event::NameUpdated(77, NameData { value: 42, owner: 10, expiration: None }),
        ]
    );
}

#[test]
fn policy_rejection() {
    let policy = BoundedNamePolicy { max_name: 1000, fees: policy_with_expiration(None) };
    let reg = Registry::new();
    let mut ledger = Ledger::new(1000);
    ledger.deposit_creating(10, 5000);

    let r = registry::check_assuming_signed(&policy, &reg, &ledger, 10, 2000, None, None);
    assert_eq!(r, Err(Error::PolicyRejected));
    assert_eq!(r.unwrap_err().message(), "operation violates name policy");

    assert_eq!(
        registry::check_assuming_signed(&policy, &reg, &ledger, 10, 500, None, None),
        Ok(Operation {
            operation: OperationType::Registration,
            name: 500,
            value: 0,
            sender: 10,
            recipient: 10,
            fee: 100,
        })
    );
}

#[test]
fn zero_expiration_horizon_is_clamped() {
    let policy = policy_with_expiration(Some(0));
    let mut reg = Registry::new();
    let mut ledger = Ledger::new(1000);
    ledger.deposit_creating(10, 5000);
    assert_eq!(registry::update(&policy, &mut reg, &mut ledger, 7, 10, 100, 42), Ok(()));
    // A zero horizon becomes one height-unit, so the entry is reachable by
    // the next sweep instead of lying in the past forever.
    assert_eq!(
        reg.get_name(100),
        Some(NameData { value: 42, owner: 10, expiration: Some(8) })
    );
    assert_eq!(reg.expiration_entries(), &vec![(8, 100)]);
    registry::process_expirations(&mut reg, 8);
    assert_eq!(reg.get_name(100), None);
}

#[test]
fn sweep_only_consumes_its_height() {
    let policy = policy_with_expiration(Some(10));
    let mut reg = Registry::new();
    let mut ledger = Ledger::new(1000);
    ledger.deposit_creating(10, 5000);
    assert_eq!(registry::update(&policy, &mut reg, &mut ledger, 1, 10, 100, 1), Ok(()));
    assert_eq!(registry::update(&policy, &mut reg, &mut ledger, 2, 10, 200, 2), Ok(()));
    assert_eq!(reg.expiration_entries(), &vec![(11, 100), (12, 200)]);

    registry::process_expirations(&mut reg, 11);
    assert_eq!(reg.get_name(100), None);
    assert_eq!(
        reg.get_name(200),
        Some(NameData { value: 2, owner: 10, expiration: Some(12) })
    );
    assert_eq!(reg.expiration_entries(), &vec![(12, 200)]);
}

#[test]
fn withdrawal_dust_is_burned() {
    let mut ledger = Ledger::new(1000);
    ledger.deposit_creating(10, 5000);
    assert_eq!(ledger.free_balance(10), 5000);
    assert_eq!(ledger.withdraw(10, 4200), Ok(4200));
    // The remaining 800 lies below the existential deposit of 1000 and is
    // removed as dust.
    assert_eq!(ledger.total_balance(10), 0);
    assert_eq!(ledger.total_issuance(), 0);
}

#[test]
fn small_deposit_into_unknown_account_is_lost() {
    let mut ledger = Ledger::new(1000);
    ledger.deposit_creating(99, 500);
    assert_eq!(ledger.total_balance(99), 0);
    assert_eq!(ledger.total_issuance(), 0);
    ledger.deposit_creating(99, 1000);
    assert_eq!(ledger.total_balance(99), 1000);
    assert_eq!(ledger.total_issuance(), 1000);
}

#[test]
fn withdraw_failure_reports_the_reason() {
    let mut ledger = Ledger::new(1000);
    ledger.deposit_creating(10, 2000);
    assert_eq!(ledger.withdraw(10, 3000), Err(Error::InsufficientFunds));
    ledger.add_lock(10, 1500);
    assert_eq!(ledger.withdraw(10, 1000), Err(Error::WithdrawalBlocked));
    assert_eq!(ledger.total_balance(10), 2000);
    assert_eq!(ledger.withdraw(10, 500), Ok(500));
    assert_eq!(ledger.total_balance(10), 1500);
    assert_eq!(ledger.reserve(10, 9999), Err(Error::InsufficientFunds));
}
