use derived_ledger::addr::{address_eq, derive_address, verify_address, Address};
use derived_ledger::authority::{verify_authority, Actor};
use derived_ledger::errors::LedgerError;

fn address(byte: u8) -> Address {
    Address { bytes: vec![byte; 32] }
}

#[test]
fn derivation_is_deterministic() {
    let program = address(7);
    let tag = b"vault".to_vec();
    let seeds = vec![vec![3u8; 32]];
    let (a1, n1) = derive_address(&tag, &seeds, &program).unwrap();
    let (a2, n2) = derive_address(&tag, &seeds, &program).unwrap();
    assert_eq!(a1.bytes, a2.bytes);
    assert_eq!(n1, n2);
}

#[test]
fn changing_a_seed_changes_the_derived_address() {
    let program = address(7);
    let tag = b"vault".to_vec();
    let (a1, _) = derive_address(&tag, &vec![vec![3u8; 32]], &program).unwrap();
    let (a2, _) = derive_address(&tag, &vec![vec![4u8; 32]], &program).unwrap();
    assert_ne!(a1.bytes, a2.bytes);
}

#[test]
fn changing_the_tag_changes_the_derived_address() {
    let program = address(7);
    let seeds = vec![vec![3u8; 32]];
    let (a1, _) = derive_address(&b"vault".to_vec(), &seeds, &program).unwrap();
    let (a2, _) = derive_address(&b"post".to_vec(), &seeds, &program).unwrap();
    assert_ne!(a1.bytes, a2.bytes);
}

#[test]
fn a_derived_address_is_not_an_echo_of_its_seeds() {
    let program = address(7);
    let tag = b"vault".to_vec();
    let seed = vec![3u8; 32];
    let (a, _) = derive_address(&tag, &vec![seed.clone()], &program).unwrap();
    assert_eq!(a.bytes.len(), 32);
    assert_ne!(a.bytes, seed);
    assert_ne!(a.bytes, program.bytes);
}

#[test]
fn a_derived_address_passes_verification_with_its_nonce() {
    let program = address(7);
    let tag = b"vault".to_vec();
    let seeds = vec![vec![3u8; 32]];
    let (a, nonce) = derive_address(&tag, &seeds, &program).unwrap();
    assert!(verify_address(&a, &tag, &seeds, nonce, &program));
}

#[test]
fn a_foreign_address_fails_verification() {
    let program = address(7);
    let tag = b"vault".to_vec();
    let seeds = vec![vec![3u8; 32]];
    let (_, nonce) = derive_address(&tag, &seeds, &program).unwrap();
    assert!(!verify_address(&address(12), &tag, &seeds, nonce, &program));
}

#[test]
fn verification_is_bound_to_the_seed_tuple() {
    let program = address(7);
    let tag = b"vault".to_vec();
    let (a, nonce) = derive_address(&tag, &vec![vec![3u8; 32]], &program).unwrap();
    assert!(!verify_address(&a, &tag, &vec![vec![4u8; 32]], nonce, &program));
}

#[test]
fn address_equality_goes_by_the_bytes() {
    assert!(address_eq(&address(3), &address(3)));
    assert!(!address_eq(&address(3), &address(4)));
    assert!(!address_eq(&address(3), &Address { bytes: vec![3u8; 31] }));
}

#[test]
fn authority_check_requires_a_signature_and_the_recorded_identity() {
    let owner = address(3);
    let signer = Actor { key: address(3), balance: 0, signed: true };
    assert!(verify_authority(&signer, &owner).is_ok());

    let unsigned = Actor { key: address(3), balance: 0, signed: false };
    assert_eq!(verify_authority(&unsigned, &owner).unwrap_err(), LedgerError::NotSigner);

    let wrong = Actor { key: address(5), balance: 0, signed: true };
    assert_eq!(verify_authority(&wrong, &owner).unwrap_err(), LedgerError::WrongOwner);
}
