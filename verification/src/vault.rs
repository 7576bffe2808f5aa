//! The vault ledger: one escrow record per receiver identity, located at an
//! address derived solely from the receiver. Deposits move funds from any
//! depositor into the vault (creating it first when absent); withdrawal is
//! open to the receiver alone and always leaves the minimum residual
//! threshold behind, so the record stays allocated. A rejected mutation
//! applies zero side effects.

use vstd::prelude::*;

use crate::addr::{
    clone_address, derive_address, full_seeds, pda_of, seeds_view, Address,
};
use crate::authority::{verify_authority, Actor};
use crate::errors::LedgerError;
use crate::store::{Entry, Store};

verus! {

/// The escrow vault record: the receiver authority its address is derived
/// from, its fund balance, the lock gate, and its derivation nonce.
#[derive(Debug)]
pub struct Vault {
    pub receiver: Address,
    pub balance: u64,
    pub locked: bool,
    pub nonce: u8,
}

impl Vault {
    /// A well-formed vault records a well-formed receiver identity.
    pub open spec fn wf(&self) -> bool {
        self.receiver.wf()
    }
}

/// Notification of a successful deposit, handed to the event sink.
#[derive(Debug)]
pub struct DepositEvent {
    pub vault: Address,
    pub user: Address,
    pub amount: u64,
}

/// Notification of a successful withdrawal, handed to the event sink.
#[derive(Debug)]
pub struct WithdrawEvent {
    pub vault_authority: Address,
    pub vault: Address,
    pub amount: u64,
}

/// The domain tag of vault records: the bytes of "vault".
pub open spec fn vault_tag_spec() -> Seq<u8> {
    seq![118u8, 97u8, 117u8, 108u8, 116u8]
}

/// The full derivation seed tuple of the vault of a receiver.
pub open spec fn vault_seeds_spec(receiver: Seq<u8>) -> Seq<Seq<u8>> {
    full_seeds(vault_tag_spec(), seq![receiver])
}

/// The domain tag of vault records.
pub fn vault_tag() -> (r: Vec<u8>)
    ensures
        r@ == vault_tag_spec(),
{
    let mut t: Vec<u8> = Vec::new();
    t.push(118);
    t.push(97);
    t.push(117);
    t.push(108);
    t.push(116);
    proof {
        assert(t@ =~= vault_tag_spec());
    }
    t
}

/// Deposits `amount` fund units from the depositor into the vault. The
/// depositor must have signed; the vault must not be locked; the depositor's
/// disposable balance must cover the amount. On success the funds move
/// atomically and a deposit event is returned for the event sink; any
/// rejection leaves both parties untouched. A zero amount is accepted as a
/// no-op transfer, as the original ledger accepts it.
pub fn deposit(
    depositor: &mut Actor,
    vault_address: &Address,
    vault: &mut Vault,
    amount: u64,
) -> (r: Result<DepositEvent, LedgerError>)
    requires
        old(vault).balance + amount <= u64::MAX,
    ensures
        !old(depositor).signed ==> r is Err && r->Err_0 == LedgerError::NotSigner,
        old(depositor).signed && old(vault).locked ==> r is Err && r->Err_0
            == LedgerError::VaultLocked,
        old(depositor).signed && !old(vault).locked && old(depositor).balance < amount ==> r is Err
            && r->Err_0 == LedgerError::InsufficientBalance,
        old(depositor).signed && !old(vault).locked && old(depositor).balance >= amount ==> {
            &&& r is Ok
            &&& r->Ok_0.vault@ == vault_address@
            &&& r->Ok_0.user@ == old(depositor).key@
            &&& r->Ok_0.amount == amount
            &&& final(vault).balance == old(vault).balance + amount
            &&& final(depositor).balance == old(depositor).balance - amount
            &&& final(vault).receiver == old(vault).receiver
            &&& final(vault).locked == old(vault).locked
            &&& final(vault).nonce == old(vault).nonce
            &&& final(depositor).key == old(depositor).key
            &&& final(depositor).signed == old(depositor).signed
        },
        r is Err ==> *final(vault) == *old(vault) && *final(depositor) == *old(depositor),
{
    if !depositor.signed {
        return Err(LedgerError::NotSigner);
    }
    if vault.locked {
        return Err(LedgerError::VaultLocked);
    }
    if depositor.balance < amount {
        return Err(LedgerError::InsufficientBalance);
    }
    vault.balance = vault.balance + amount;
    depositor.balance = depositor.balance - amount;
    Ok(DepositEvent {
        vault: clone_address(vault_address),
        user: clone_address(&depositor.key),
        amount,
    })
}

/// Withdraws everything above the minimum residual threshold from the vault
/// into the receiver's balance. Only the recorded receiver may withdraw; the
/// vault must not be locked; when nothing sits above the threshold the
/// mutation fails with InsufficientFunds. On success the vault balance drops
/// exactly to the threshold — the record stays allocated — and a withdraw
/// event is returned; any rejection leaves both parties untouched.
pub fn withdraw(
    receiver: &mut Actor,
    vault_address: &Address,
    vault: &mut Vault,
    threshold: u64,
) -> (r: Result<WithdrawEvent, LedgerError>)
    requires
        old(vault).balance + old(receiver).balance <= u64::MAX,
    ensures
        !old(receiver).signed ==> r is Err && r->Err_0 == LedgerError::NotSigner,
        old(receiver).signed && old(vault).locked ==> r is Err && r->Err_0
            == LedgerError::VaultLocked,
        old(receiver).signed && !old(vault).locked && old(receiver).key@ != old(vault).receiver@
            ==> r is Err && r->Err_0 == LedgerError::WrongOwner,
        old(receiver).signed && !old(vault).locked && old(receiver).key@ == old(vault).receiver@
            && old(vault).balance <= threshold ==> r is Err && r->Err_0
            == LedgerError::InsufficientFunds,
        old(receiver).signed && !old(vault).locked && old(receiver).key@ == old(vault).receiver@
            && old(vault).balance > threshold ==> {
            &&& r is Ok
            &&& r->Ok_0.vault_authority@ == old(receiver).key@
            &&& r->Ok_0.vault@ == vault_address@
            &&& r->Ok_0.amount == old(vault).balance - threshold
            &&& final(vault).balance == threshold
            &&& final(receiver).balance == old(receiver).balance + (old(vault).balance - threshold)
            &&& final(vault).receiver == old(vault).receiver
            &&& final(vault).locked == old(vault).locked
            &&& final(vault).nonce == old(vault).nonce
            &&& final(receiver).key == old(receiver).key
            &&& final(receiver).signed == old(receiver).signed
        },
        r is Ok ==> final(vault).balance >= threshold,
        r is Err ==> *final(vault) == *old(vault) && *final(receiver) == *old(receiver),
{
    if !receiver.signed {
        return Err(LedgerError::NotSigner);
    }
    if vault.locked {
        return Err(LedgerError::VaultLocked);
    }
    match verify_authority(receiver, &vault.receiver) {
        Err(e) => {
            return Err(e);
        },
        Ok(()) => {},
    }
    let withdrawable = if vault.balance > threshold {
        vault.balance - threshold
    } else {
        0
    };
    if withdrawable == 0 {
        return Err(LedgerError::InsufficientFunds);
    }
    vault.balance = vault.balance - withdrawable;
    receiver.balance = receiver.balance + withdrawable;
    Ok(WithdrawEvent {
        vault_authority: clone_address(&receiver.key),
        vault: clone_address(vault_address),
        amount: withdrawable,
    })
}

/// What bump-seed derivation yields for a receiver's vault.
pub open spec fn vault_pda(receiver: Seq<u8>, program: Seq<u8>) -> Option<(Seq<u8>, u8)> {
    pda_of(vault_seeds_spec(receiver), program)
}

/// The derivation seed list of a receiver's vault, tag excluded.
pub fn vault_seed_vec(receiver: &Address) -> (r: Vec<Vec<u8>>)
    ensures
        seeds_view(r@) == seq![receiver@],
{
    let mut s: Vec<Vec<u8>> = Vec::new();
    s.push(crate::addr::clone_bytes(&receiver.bytes));
    proof {
        assert(seeds_view(s@) =~= seq![receiver@]);
    }
    s
}

/// A copy of a vault record.
pub fn clone_vault(v: &Vault) -> (r: Vault)
    ensures
        r.receiver@ == v.receiver@,
        r.balance == v.balance,
        r.locked == v.locked,
        r.nonce == v.nonce,
{
    Vault {
        receiver: clone_address(&v.receiver),
        balance: v.balance,
        locked: v.locked,
        nonce: v.nonce,
    }
}

/// Deposits into the vault of a receiver, locating the record by re-deriving
/// its address from the receiver identity and creating it first when no
/// record is live there (so any depositor can fund a not-yet-created vault
/// for a known receiver). On creation the depositor also pays the residual
/// storage balance the new record must hold. Fails closed with
/// AddressMismatch when no viable derivation nonce exists; any rejection
/// leaves the store and the depositor untouched.
pub fn deposit_to_receiver(
    depositor: &mut Actor,
    receiver_key: &Address,
    vaults: &mut Store<Vault>,
    amount: u64,
    residual: u64,
    program: &Address,
) -> (r: Result<DepositEvent, LedgerError>)
    requires
        program@.len() == 32,
        old(vaults).wf(),
        amount + residual <= u64::MAX,
        forall|k: int|
            0 <= k < old(vaults).entries@.len() ==> old(vaults).entries@[k].record.balance + amount
                <= u64::MAX,
    ensures
        final(vaults).wf(),
        !old(depositor).signed ==> r is Err && r->Err_0 == LedgerError::NotSigner,
        old(depositor).signed && vault_pda(receiver_key@, program@) is None ==> r is Err && r->Err_0
            == LedgerError::AddressMismatch,
        ({
            let pda = vault_pda(receiver_key@, program@);
            old(depositor).signed && pda is Some && !old(vaults).has_addr(pda.unwrap().0) ==> if old(
                depositor,
            ).balance < amount + residual {
                r is Err && r->Err_0 == LedgerError::InsufficientBalance
            } else {
                &&& r is Ok
                &&& r->Ok_0.vault@ == pda.unwrap().0
                &&& r->Ok_0.user@ == old(depositor).key@
                &&& r->Ok_0.amount == amount
                &&& final(vaults).entries@.len() == old(vaults).entries@.len() + 1
                &&& final(vaults).entries@.drop_last() == old(vaults).entries@
                &&& final(vaults).entries@.last().address@ == pda.unwrap().0
                &&& final(vaults).entries@.last().residual == residual
                &&& final(vaults).entries@.last().record.receiver@ == receiver_key@
                &&& final(vaults).entries@.last().record.balance == amount
                &&& final(vaults).entries@.last().record.locked == false
                &&& final(vaults).entries@.last().record.nonce == pda.unwrap().1
                &&& final(depositor).balance == old(depositor).balance - amount - residual
            }
        }),
        ({
            let pda = vault_pda(receiver_key@, program@);
            let i = old(vaults).index_of(pda.unwrap().0);
            let e0 = old(vaults).entries@[i];
            old(depositor).signed && pda is Some && old(vaults).has_addr(pda.unwrap().0) ==> if e0.record.locked {
                r is Err && r->Err_0 == LedgerError::VaultLocked
            } else if old(depositor).balance < amount {
                r is Err && r->Err_0 == LedgerError::InsufficientBalance
            } else {
                &&& r is Ok
                &&& r->Ok_0.vault@ == pda.unwrap().0
                &&& r->Ok_0.user@ == old(depositor).key@
                &&& r->Ok_0.amount == amount
                &&& final(vaults).entries@.len() == old(vaults).entries@.len()
                &&& forall|k: int|
                    0 <= k < old(vaults).entries@.len() && k != i ==> final(vaults).entries@[k]
                        == old(vaults).entries@[k]
                &&& final(vaults).entries@[i].address == e0.address
                &&& final(vaults).entries@[i].residual == e0.residual
                &&& final(vaults).entries@[i].record.receiver@ == e0.record.receiver@
                &&& final(vaults).entries@[i].record.balance == e0.record.balance + amount
                &&& final(vaults).entries@[i].record.locked == e0.record.locked
                &&& final(vaults).entries@[i].record.nonce == e0.record.nonce
                &&& final(depositor).balance == old(depositor).balance - amount
            }
        }),
        r is Err ==> final(vaults).entries@ == old(vaults).entries@ && *final(depositor) == *old(
            depositor,
        ),
        final(depositor).key == old(depositor).key && final(depositor).signed == old(
            depositor,
        ).signed,
{
    if !depositor.signed {
        return Err(LedgerError::NotSigner);
    }
    let tag = vault_tag();
    let seeds = vault_seed_vec(receiver_key);
    proof {
        assert(full_seeds(tag@, seeds_view(seeds@)) =~= vault_seeds_spec(receiver_key@));
    }
    let derived = derive_address(&tag, &seeds, program);
    let (vault_address, nonce) = match derived {
        None => {
            return Err(LedgerError::AddressMismatch);
        },
        Some(d) => d,
    };
    match vaults.find(&vault_address) {
        None => {
            if depositor.balance < amount || depositor.balance - amount < residual {
                return Err(LedgerError::InsufficientBalance);
            }
            let record = Vault {
                receiver: clone_address(receiver_key),
                balance: amount,
                locked: false,
                nonce,
            };
            let event = DepositEvent {
                vault: clone_address(&vault_address),
                user: clone_address(&depositor.key),
                amount,
            };
            let entry = Entry { address: vault_address, residual, record };
            let allocated = vaults.allocate(entry);
            proof {
                assert(allocated is Ok);
            }
            depositor.balance = depositor.balance - amount - residual;
            Ok(event)
        },
        Some(i) => {
            proof {
                vaults.lemma_index_unique(vault_address@, i as int);
            }
            let e = vaults.get(i);
            let mut record = clone_vault(&e.record);
            let result = deposit(depositor, &vault_address, &mut record, amount);
            match result {
                Ok(event) => {
                    vaults.set_record(i, record);
                    Ok(event)
                },
                Err(e) => Err(e),
            }
        },
    }
}

/// Withdraws everything above the minimum residual threshold from the
/// caller's own vault. The vault is located by re-deriving its address from
/// the caller's identity, so only the recorded receiver can ever reach it;
/// a missing derivation or a missing record is a hard rejection. The record
/// stays allocated, its balance exactly at the threshold; any rejection
/// leaves the store and the receiver untouched.
pub fn withdraw_to_receiver(
    receiver: &mut Actor,
    vaults: &mut Store<Vault>,
    threshold: u64,
    program: &Address,
) -> (r: Result<WithdrawEvent, LedgerError>)
    requires
        program@.len() == 32,
        old(vaults).wf(),
        forall|k: int|
            0 <= k < old(vaults).entries@.len() ==> old(vaults).entries@[k].record.balance + old(
                receiver,
            ).balance <= u64::MAX,
    ensures
        final(vaults).wf(),
        !old(receiver).signed ==> r is Err && r->Err_0 == LedgerError::NotSigner,
        old(receiver).signed && vault_pda(old(receiver).key@, program@) is None ==> r is Err
            && r->Err_0 == LedgerError::AddressMismatch,
        old(receiver).signed && vault_pda(old(receiver).key@, program@) is Some && !old(
            vaults,
        ).has_addr(vault_pda(old(receiver).key@, program@).unwrap().0) ==> r is Err && r->Err_0
            == LedgerError::AddressMismatch,
        ({
            let pda = vault_pda(old(receiver).key@, program@);
            let i = old(vaults).index_of(pda.unwrap().0);
            let e0 = old(vaults).entries@[i];
            old(receiver).signed && pda is Some && old(vaults).has_addr(pda.unwrap().0) ==> if e0.record.locked {
                r is Err && r->Err_0 == LedgerError::VaultLocked
            } else if e0.record.receiver@ != old(receiver).key@ {
                r is Err && r->Err_0 == LedgerError::WrongOwner
            } else if e0.record.balance <= threshold {
                r is Err && r->Err_0 == LedgerError::InsufficientFunds
            } else {
                &&& r is Ok
                &&& r->Ok_0.vault_authority@ == old(receiver).key@
                &&& r->Ok_0.vault@ == pda.unwrap().0
                &&& r->Ok_0.amount == e0.record.balance - threshold
                &&& final(vaults).entries@.len() == old(vaults).entries@.len()
                &&& forall|k: int|
                    0 <= k < old(vaults).entries@.len() && k != i ==> final(vaults).entries@[k]
                        == old(vaults).entries@[k]
                &&& final(vaults).entries@[i].address == e0.address
                &&& final(vaults).entries@[i].residual == e0.residual
                &&& final(vaults).entries@[i].record.receiver@ == e0.record.receiver@
                &&& final(vaults).entries@[i].record.balance == threshold
                &&& final(vaults).entries@[i].record.locked == e0.record.locked
                &&& final(vaults).entries@[i].record.nonce == e0.record.nonce
                &&& final(receiver).balance == old(receiver).balance + (e0.record.balance
                    - threshold)
            }
        }),
        r is Err ==> final(vaults).entries@ == old(vaults).entries@ && *final(receiver) == *old(
            receiver,
        ),
        final(receiver).key == old(receiver).key && final(receiver).signed == old(receiver).signed,
{
    if !receiver.signed {
        return Err(LedgerError::NotSigner);
    }
    let tag = vault_tag();
    let seeds = vault_seed_vec(&receiver.key);
    proof {
        assert(full_seeds(tag@, seeds_view(seeds@)) =~= vault_seeds_spec(receiver.key@));
    }
    let derived = derive_address(&tag, &seeds, program);
    let vault_address = match derived {
        None => {
            return Err(LedgerError::AddressMismatch);
        },
        Some(d) => d.0,
    };
    match vaults.find(&vault_address) {
        None => Err(LedgerError::AddressMismatch),
        Some(i) => {
            proof {
                vaults.lemma_index_unique(vault_address@, i as int);
            }
            let e = vaults.get(i);
            let mut record = clone_vault(&e.record);
            let result = withdraw(receiver, &vault_address, &mut record, threshold);
            match result {
                Ok(event) => {
                    vaults.set_record(i, record);
                    Ok(event)
                },
                Err(e) => Err(e),
            }
        },
    }
}

} // verus!
