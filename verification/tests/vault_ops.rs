use derived_ledger::addr::Address;
use derived_ledger::authority::Actor;
use derived_ledger::errors::LedgerError;
use derived_ledger::store::Store;
use derived_ledger::vault::{
    deposit, deposit_to_receiver, withdraw, withdraw_to_receiver, Vault,
};

fn address(byte: u8) -> Address {
    Address { bytes: vec![byte; 32] }
}

fn actor(byte: u8, balance: u64, signed: bool) -> Actor {
    Actor { key: address(byte), balance, signed }
}

#[test]
fn fresh_deposit_creates_vault_and_emits_event() {
    let program = address(7);
    let mut depositor = actor(2, 1500, true);
    let receiver_key = address(3);
    let mut vaults: Store<Vault> = Store::new();

    let event = deposit_to_receiver(&mut depositor, &receiver_key, &mut vaults, 1000, 0, &program)
        .expect("fresh deposit must succeed");

    assert_eq!(vaults.entries.len(), 1);
    assert_eq!(vaults.entries[0].record.balance, 1000);
    assert_eq!(vaults.entries[0].record.receiver.bytes, receiver_key.bytes);
    assert!(!vaults.entries[0].record.locked);
    assert_eq!(depositor.balance, 500);
    assert_eq!(event.amount, 1000);
    assert_eq!(event.user.bytes, depositor.key.bytes);
    assert_eq!(event.vault.bytes, vaults.entries[0].address.bytes);
}

#[test]
fn withdraw_leaves_exactly_the_residual_threshold() {
    let program = address(7);
    let mut depositor = actor(2, 1500, true);
    let receiver_key = address(3);
    let mut vaults: Store<Vault> = Store::new();
    deposit_to_receiver(&mut depositor, &receiver_key, &mut vaults, 1000, 0, &program).unwrap();

    let mut receiver = actor(3, 40, true);
    let event = withdraw_to_receiver(&mut receiver, &mut vaults, 890, &program)
        .expect("withdraw above the threshold must succeed");

    assert_eq!(event.amount, 110);
    assert_eq!(vaults.entries[0].record.balance, 890);
    assert_eq!(receiver.balance, 150);
    assert_eq!(event.vault_authority.bytes, receiver.key.bytes);
    assert_eq!(event.vault.bytes, vaults.entries[0].address.bytes);
}

#[test]
fn repeated_deposit_accumulates_in_the_same_vault() {
    let program = address(7);
    let mut depositor = actor(2, 5000, true);
    let receiver_key = address(3);
    let mut vaults: Store<Vault> = Store::new();

    deposit_to_receiver(&mut depositor, &receiver_key, &mut vaults, 1000, 50, &program).unwrap();
    deposit_to_receiver(&mut depositor, &receiver_key, &mut vaults, 200, 50, &program).unwrap();

    assert_eq!(vaults.entries.len(), 1);
    assert_eq!(vaults.entries[0].record.balance, 1200);
    assert_eq!(vaults.entries[0].residual, 50);
    assert_eq!(depositor.balance, 5000 - 1000 - 50 - 200);
}

#[test]
fn deposit_rejects_a_depositor_who_cannot_cover_the_amount() {
    let mut depositor = actor(2, 99, true);
    let va = address(9);
    let mut vault = Vault { receiver: address(3), balance: 10, locked: false, nonce: 0 };
    let r = deposit(&mut depositor, &va, &mut vault, 100);
    assert_eq!(r.unwrap_err(), LedgerError::InsufficientBalance);
    assert_eq!(vault.balance, 10);
    assert_eq!(depositor.balance, 99);
}

#[test]
fn deposit_rejects_a_locked_vault() {
    let mut depositor = actor(2, 500, true);
    let va = address(9);
    let mut vault = Vault { receiver: address(3), balance: 10, locked: true, nonce: 0 };
    let r = deposit(&mut depositor, &va, &mut vault, 100);
    assert_eq!(r.unwrap_err(), LedgerError::VaultLocked);
    assert_eq!(vault.balance, 10);
    assert_eq!(depositor.balance, 500);
}

#[test]
fn deposit_rejects_an_unsigned_request() {
    let mut depositor = actor(2, 500, false);
    let va = address(9);
    let mut vault = Vault { receiver: address(3), balance: 10, locked: false, nonce: 0 };
    let r = deposit(&mut depositor, &va, &mut vault, 100);
    assert_eq!(r.unwrap_err(), LedgerError::NotSigner);
    assert_eq!(vault.balance, 10);
}

#[test]
fn deposit_accepts_a_zero_amount_as_a_no_op_transfer() {
    let mut depositor = actor(2, 500, true);
    let va = address(9);
    let mut vault = Vault { receiver: address(3), balance: 10, locked: false, nonce: 0 };
    let event = deposit(&mut depositor, &va, &mut vault, 0).unwrap();
    assert_eq!(event.amount, 0);
    assert_eq!(vault.balance, 10);
    assert_eq!(depositor.balance, 500);
}

#[test]
fn withdraw_rejects_when_nothing_sits_above_the_threshold() {
    let mut receiver = actor(3, 40, true);
    let va = address(9);
    let mut vault = Vault { receiver: address(3), balance: 890, locked: false, nonce: 0 };
    let r = withdraw(&mut receiver, &va, &mut vault, 890);
    assert_eq!(r.unwrap_err(), LedgerError::InsufficientFunds);
    assert_eq!(vault.balance, 890);
    assert_eq!(receiver.balance, 40);
}

#[test]
fn withdraw_rejects_a_caller_who_is_not_the_receiver() {
    let mut caller = actor(5, 40, true);
    let va = address(9);
    let mut vault = Vault { receiver: address(3), balance: 1000, locked: false, nonce: 0 };
    let r = withdraw(&mut caller, &va, &mut vault, 100);
    assert_eq!(r.unwrap_err(), LedgerError::WrongOwner);
    assert_eq!(vault.balance, 1000);
    assert_eq!(caller.balance, 40);
}

#[test]
fn withdraw_rejects_a_locked_vault() {
    let mut receiver = actor(3, 40, true);
    let va = address(9);
    let mut vault = Vault { receiver: address(3), balance: 1000, locked: true, nonce: 0 };
    let r = withdraw(&mut receiver, &va, &mut vault, 100);
    assert_eq!(r.unwrap_err(), LedgerError::VaultLocked);
    assert_eq!(vault.balance, 1000);
}

#[test]
fn withdraw_flow_rejects_when_no_vault_record_is_live() {
    let program = address(7);
    let mut receiver = actor(3, 40, true);
    let mut vaults: Store<Vault> = Store::new();
    let r = withdraw_to_receiver(&mut receiver, &mut vaults, 100, &program);
    assert_eq!(r.unwrap_err(), LedgerError::AddressMismatch);
    assert_eq!(receiver.balance, 40);
}

#[test]
fn withdraw_flow_only_reaches_the_callers_own_vault() {
    let program = address(7);
    let mut depositor = actor(2, 5000, true);
    let receiver_key = address(3);
    let mut vaults: Store<Vault> = Store::new();
    deposit_to_receiver(&mut depositor, &receiver_key, &mut vaults, 1000, 0, &program).unwrap();

    // A different signer derives a different vault address, so the caller
    // never touches the receiver's funds.
    let mut other = actor(5, 0, true);
    let r = withdraw_to_receiver(&mut other, &mut vaults, 100, &program);
    assert_eq!(r.unwrap_err(), LedgerError::AddressMismatch);
    assert_eq!(vaults.entries[0].record.balance, 1000);
    assert_eq!(other.balance, 0);
}
