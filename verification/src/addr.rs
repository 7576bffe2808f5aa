//! Deterministic record addressing. A record address is computed from a
//! domain tag and a tuple of seed values, never assigned: any party can
//! recompute and verify it. Derivation searches a bounded nonce (bump seed)
//! range and fails closed when no viable nonce exists; verification
//! recomputes the address from the claimed seeds and nonce and compares.

use vstd::prelude::*;

use anchor_lang::prelude::Pubkey;

verus! {

/// A derived record address: 32 bytes of an identifier that any party can
/// recompute from a domain tag and a seed tuple.
#[derive(Debug)]
pub struct Address {
    pub bytes: Vec<u8>,
}

impl View for Address {
    type V = Seq<u8>;

    open spec fn view(&self) -> Seq<u8> {
        self.bytes@
    }
}

impl Address {
    /// A well-formed address holds exactly 32 bytes.
    pub open spec fn wf(&self) -> bool {
        self@.len() == 32
    }
}

/// The views of a sequence of seed values, element by element.
pub open spec fn seeds_view(s: Seq<Vec<u8>>) -> Seq<Seq<u8>> {
    Seq::new(s.len(), |i: int| s[i]@)
}

/// The full seed tuple of a derivation: the domain tag first, then the seeds.
pub open spec fn full_seeds(tag: Seq<u8>, seeds: Seq<Seq<u8>>) -> Seq<Seq<u8>> {
    seq![tag] + seeds
}

/// What bump-seed derivation returns for a seed tuple and a program id:
/// the derived address and the disambiguating nonce, or nothing when no
/// viable nonce exists.
pub uninterp spec fn pda_of(seeds: Seq<Seq<u8>>, program: Seq<u8>) -> Option<(Seq<u8>, u8)>;

/// What fixed-nonce derivation returns for a seed tuple (nonce included as
/// the last seed) and a program id, or nothing when the tuple is rejected.
pub uninterp spec fn cpa_of(seeds: Seq<Seq<u8>>, program: Seq<u8>) -> Option<Seq<u8>>;

/// What the content hash of a byte string is.
pub uninterp spec fn hash_of(data: Seq<u8>) -> Seq<u8>;

/// Relies on Pubkey::try_find_program_address: the result is a function of
/// the seeds and the program id alone; on success the returned address is
/// exactly what create_program_address yields for the seeds with the
/// returned bump appended, and it is 32 bytes long.
#[verifier::external_body]
pub(crate) fn find_pda(seeds: &Vec<Vec<u8>>, program: &Address) -> (r: Option<(Address, u8)>)
    requires
        program@.len() == 32,
    ensures
        r is Some <==> pda_of(seeds_view(seeds@), program@) is Some,
        r is Some ==> {
            &&& r.unwrap().0@ == pda_of(seeds_view(seeds@), program@).unwrap().0
            &&& r.unwrap().1 == pda_of(seeds_view(seeds@), program@).unwrap().1
            &&& r.unwrap().0@.len() == 32
            &&& cpa_of(
                seeds_view(seeds@).push(seq![r.unwrap().1]),
                program@,
            ) == Some(r.unwrap().0@)
        },
{
    let mut refs: Vec<&[u8]> = Vec::new();
    for s in seeds.iter() {
        refs.push(s.as_slice());
    }
    let pid = Pubkey::new_from_array(program.bytes.as_slice().try_into().unwrap());
    match Pubkey::try_find_program_address(&refs, &pid) {
        Some((pk, bump)) => Some((Address { bytes: pk.to_bytes().to_vec() }, bump)),
        None => None,
    }
}

/// Relies on Pubkey::create_program_address: the result is a function of the
/// seeds and the program id alone; it is an error when the seed list or a
/// single seed is over-long, or when the derived bytes are not a viable
/// address.
#[verifier::external_body]
pub(crate) fn create_pda(seeds: &Vec<Vec<u8>>, program: &Address) -> (r: Option<Address>)
    requires
        program@.len() == 32,
    ensures
        r is Some <==> cpa_of(seeds_view(seeds@), program@) is Some,
        r is Some ==> r.unwrap()@ == cpa_of(seeds_view(seeds@), program@).unwrap()
            && r.unwrap()@.len() == 32,
{
    let mut refs: Vec<&[u8]> = Vec::new();
    for s in seeds.iter() {
        refs.push(s.as_slice());
    }
    let pid = Pubkey::new_from_array(program.bytes.as_slice().try_into().unwrap());
    match Pubkey::create_program_address(&refs, &pid) {
        Ok(pk) => Some(Address { bytes: pk.to_bytes().to_vec() }),
        Err(_) => None,
    }
}

/// Relies on solana_program::hash::hash: SHA-256 of the input, a function of
/// the input bytes alone, with a 32-byte result.
#[verifier::external_body]
pub(crate) fn sha256(data: &Vec<u8>) -> (r: Vec<u8>)
    ensures
        r@ == hash_of(data@),
        r@.len() == 32,
{
    anchor_lang::solana_program::hash::hash(data.as_slice()).to_bytes().to_vec()
}

/// A copy of a byte string.
pub fn clone_bytes(v: &Vec<u8>) -> (r: Vec<u8>)
    ensures
        r@ == v@,
{
    let mut r: Vec<u8> = Vec::new();
    let mut i: usize = 0;
    while i < v.len()
        invariant
            i <= v@.len(),
            r@ == v@.take(i as int),
        decreases v@.len() - i,
    {
        r.push(v[i]);
        proof {
            assert(r@ =~= v@.take(i + 1));
        }
        i += 1;
    }
    proof {
        assert(r@ =~= v@);
    }
    r
}

/// A copy of an address.
pub fn clone_address(a: &Address) -> (r: Address)
    ensures
        r@ == a@,
{
    Address { bytes: clone_bytes(&a.bytes) }
}

/// Whether two byte strings are equal.
pub fn bytes_eq(a: &Vec<u8>, b: &Vec<u8>) -> (r: bool)
    ensures
        r == (a@ == b@),
{
    if a.len() != b.len() {
        return false;
    }
    let mut i: usize = 0;
    while i < a.len()
        invariant
            i <= a@.len(),
            a@.len() == b@.len(),
            forall|k: int| 0 <= k < i ==> a@[k] == b@[k],
        decreases a@.len() - i,
    {
        if a[i] != b[i] {
            return false;
        }
        i += 1;
    }
    proof {
        assert(a@ =~= b@);
    }
    true
}

/// Whether two addresses are equal.
pub fn address_eq(a: &Address, b: &Address) -> (r: bool)
    ensures
        r == (a@ == b@),
{
    bytes_eq(&a.bytes, &b.bytes)
}

/// Derives the record address for a domain tag and a seed tuple: the address
/// and its disambiguating nonce, or nothing when no viable nonce exists
/// (the caller must fail closed).
pub fn derive_address(tag: &Vec<u8>, seeds: &Vec<Vec<u8>>, program: &Address) -> (r: Option<
    (Address, u8),
>)
    requires
        program@.len() == 32,
    ensures
        r is Some <==> pda_of(full_seeds(tag@, seeds_view(seeds@)), program@) is Some,
        r is Some ==> {
            &&& r.unwrap().0@ == pda_of(full_seeds(tag@, seeds_view(seeds@)), program@).unwrap().0
            &&& r.unwrap().1 == pda_of(full_seeds(tag@, seeds_view(seeds@)), program@).unwrap().1
            &&& r.unwrap().0.wf()
            &&& cpa_of(
                full_seeds(tag@, seeds_view(seeds@)).push(seq![r.unwrap().1]),
                program@,
            ) == Some(r.unwrap().0@)
        },
{
    let mut full: Vec<Vec<u8>> = Vec::new();
    full.push(clone_bytes(tag));
    let mut i: usize = 0;
    while i < seeds.len()
        invariant
            i <= seeds@.len(),
            full@.len() == i + 1,
            full@[0]@ == tag@,
            forall|k: int| 0 <= k < i ==> full@[k + 1]@ == seeds@[k]@,
        decreases seeds@.len() - i,
    {
        full.push(clone_bytes(&seeds[i]));
        i += 1;
    }
    proof {
        assert(seeds_view(full@) =~= full_seeds(tag@, seeds_view(seeds@)));
    }
    find_pda(&full, program)
}

/// Verifies a claimed record address: recomputes the address from the domain
/// tag, the seed tuple and the claimed nonce, and compares. Any mismatch,
/// including a rejected seed tuple, is a hard rejection.
pub fn verify_address(
    claimed: &Address,
    tag: &Vec<u8>,
    seeds: &Vec<Vec<u8>>,
    nonce: u8,
    program: &Address,
) -> (r: bool)
    requires
        program@.len() == 32,
    ensures
        r == (cpa_of(full_seeds(tag@, seeds_view(seeds@)).push(seq![nonce]), program@) == Some(
            claimed@,
        )),
{
    let mut full: Vec<Vec<u8>> = Vec::new();
    full.push(clone_bytes(tag));
    let mut i: usize = 0;
    while i < seeds.len()
        invariant
            i <= seeds@.len(),
            full@.len() == i + 1,
            full@[0]@ == tag@,
            forall|k: int| 0 <= k < i ==> full@[k + 1]@ == seeds@[k]@,
        decreases seeds@.len() - i,
    {
        full.push(clone_bytes(&seeds[i]));
        i += 1;
    }
    let mut nonce_seed: Vec<u8> = Vec::new();
    nonce_seed.push(nonce);
    full.push(nonce_seed);
    proof {
        assert(seeds_view(full@) =~= full_seeds(tag@, seeds_view(seeds@)).push(seq![nonce]));
    }
    match create_pda(&full, program) {
        Some(a) => address_eq(&a, claimed),
        None => false,
    }
}

/// Law: address derivation is deterministic. Two derivations from the same
/// domain tag, seed tuple and program id yield the same address and nonce.
pub proof fn lemma_derive_deterministic(
    tag: Seq<u8>,
    seeds: Seq<Seq<u8>>,
    program: Seq<u8>,
    r1: Option<(Seq<u8>, u8)>,
    r2: Option<(Seq<u8>, u8)>,
)
    requires
        r1 == pda_of(full_seeds(tag, seeds), program),
        r2 == pda_of(full_seeds(tag, seeds), program),
    ensures
        r1 == r2,
{
}

} // verus!
