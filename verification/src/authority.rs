//! Authority verification. Every mutation re-verifies, before any state is
//! touched, that the invoking party cryptographically authorized the current
//! request and that its identity matches the role recorded on the target
//! record. The check is pure: it has no side effect.

use vstd::prelude::*;

use crate::addr::Address;
use crate::errors::LedgerError;

verus! {

/// A party to a mutation: its identity, its disposable fund balance, and
/// whether the signature oracle reports that it authorized the current
/// request.
#[derive(Debug)]
pub struct Actor {
    pub key: Address,
    pub balance: u64,
    pub signed: bool,
}

impl Actor {
    /// A well-formed actor carries a well-formed identity.
    pub open spec fn wf(&self) -> bool {
        self.key.wf()
    }
}

/// Confirms that the caller authorized the current request and that its
/// identity matches the authority recorded on the target record. Fails with
/// NotSigner when the caller did not sign, with WrongOwner when the identity
/// does not match; nothing is mutated either way.
pub fn verify_authority(caller: &Actor, owner: &Address) -> (r: Result<(), LedgerError>)
    ensures
        !caller.signed ==> r == Err::<(), LedgerError>(LedgerError::NotSigner),
        caller.signed && caller.key@ != owner@ ==> r == Err::<(), LedgerError>(
            LedgerError::WrongOwner,
        ),
        caller.signed && caller.key@ == owner@ ==> r == Ok::<(), LedgerError>(()),
{
    if !caller.signed {
        return Err(LedgerError::NotSigner);
    }
    if !crate::addr::address_eq(&caller.key, owner) {
        return Err(LedgerError::WrongOwner);
    }
    Ok(())
}

} // verus!
