//! The record lifecycle manager: storage for live records, addressed by
//! their derived addresses. Allocation refuses an address that is already
//! occupied; release removes the record and hands back the residual balance
//! it held, so no recoverable state is left behind. No record is ever
//! observable partially constructed: allocation takes the whole entry at
//! once.

use vstd::prelude::*;

use crate::addr::{address_eq, Address};
use crate::errors::LedgerError;

verus! {

/// One live record: its derived address, the residual balance its storage
/// allocation holds (returned to the beneficiary on release), and the
/// record's own fields.
pub struct Entry<R> {
    pub address: Address,
    pub residual: u64,
    pub record: R,
}

/// The set of live records of one kind, each at a distinct derived address.
pub struct Store<R> {
    pub entries: Vec<Entry<R>>,
}

impl<R> Store<R> {
    /// Well-formed: no two live records share an address.
    pub open spec fn wf(&self) -> bool {
        forall|i: int, j: int|
            0 <= i < j < self.entries@.len() ==> self.entries@[i].address@
                != self.entries@[j].address@
    }

    /// Whether a live record sits at the given address.
    pub open spec fn has_addr(&self, a: Seq<u8>) -> bool {
        exists|i: int| 0 <= i < self.entries@.len() && self.entries@[i].address@ == a
    }

    /// The index of the live record at the given address.
    pub open spec fn index_of(&self, a: Seq<u8>) -> int {
        choose|i: int| 0 <= i < self.entries@.len() && self.entries@[i].address@ == a
    }

    /// An empty store: no live records.
    pub fn new() -> (r: Store<R>)
        ensures
            r.entries@.len() == 0,
            r.wf(),
    {
        Store { entries: Vec::new() }
    }

    /// Finds the live record at an address, if one exists.
    pub fn find(&self, a: &Address) -> (r: Option<usize>)
        ensures
            r is Some ==> r.unwrap() < self.entries@.len() && self.entries@[r.unwrap() as int].address@
                == a@ && self.has_addr(a@),
            r is None ==> !self.has_addr(a@),
    {
        let mut i: usize = 0;
        while i < self.entries.len()
            invariant
                i <= self.entries@.len(),
                forall|k: int| 0 <= k < i ==> self.entries@[k].address@ != a@,
            decreases self.entries@.len() - i,
        {
            if address_eq(&self.entries[i].address, a) {
                return Some(i);
            }
            i += 1;
        }
        None
    }

    /// Reads the live record at a valid index.
    pub fn get(&self, i: usize) -> (r: &Entry<R>)
        requires
            i < self.entries@.len(),
        ensures
            *r == self.entries@[i as int],
    {
        &self.entries[i]
    }

    /// Allocates storage for a new record at its derived address. Fails with
    /// DuplicateAddress, leaving the store unchanged, when a live record
    /// already occupies the address; the whole entry becomes observable at
    /// once.
    pub fn allocate(&mut self, entry: Entry<R>) -> (r: Result<(), LedgerError>)
        requires
            old(self).wf(),
        ensures
            old(self).has_addr(entry.address@) ==> r == Err::<(), LedgerError>(
                LedgerError::DuplicateAddress,
            ) && final(self).entries@ == old(self).entries@,
            !old(self).has_addr(entry.address@) ==> r == Ok::<(), LedgerError>(())
                && final(self).entries@ == old(self).entries@.push(entry),
            final(self).wf(),
    {
        if self.find(&entry.address).is_some() {
            return Err(LedgerError::DuplicateAddress);
        }
        self.entries.push(entry);
        proof {
            assert forall|i: int, j: int| 0 <= i < j < self.entries@.len() implies self.entries@[i].address@
                != self.entries@[j].address@ by {
                if j == self.entries@.len() - 1 {
                    assert(self.entries@[i] == old(self).entries@[i]);
                }
            }
        }
        Ok(())
    }

    /// Releases the record at a valid index, removing it from the store and
    /// handing its entry (residual balance included) back to the caller.
    pub fn release_at(&mut self, i: usize) -> (r: Entry<R>)
        requires
            old(self).wf(),
            i < old(self).entries@.len(),
        ensures
            r == old(self).entries@[i as int],
            final(self).entries@ == old(self).entries@.remove(i as int),
            final(self).wf(),
    {
        let e = self.entries.remove(i);
        proof {
            assert forall|p: int, q: int| 0 <= p < q < self.entries@.len() implies self.entries@[p].address@
                != self.entries@[q].address@ by {
                let p0 = if p < i as int { p } else { p + 1 };
                let q0 = if q < i as int { q } else { q + 1 };
                assert(self.entries@[p] == old(self).entries@[p0]);
                assert(self.entries@[q] == old(self).entries@[q0]);
            }
        }
        e
    }

    /// In a well-formed store an address determines its index: any index
    /// holding the address is the index of the address.
    pub proof fn lemma_index_unique(&self, a: Seq<u8>, i: int)
        requires
            self.wf(),
            0 <= i < self.entries@.len(),
            self.entries@[i].address@ == a,
        ensures
            self.has_addr(a),
            self.index_of(a) == i,
    {
        assert(self.has_addr(a));
        let j = self.index_of(a);
        if i < j {
            assert(self.entries@[i].address@ != self.entries@[j].address@);
        } else if j < i {
            assert(self.entries@[j].address@ != self.entries@[i].address@);
        }
    }

    /// Replaces the record fields at a valid index, keeping the address and
    /// the residual balance.
    pub fn set_record(&mut self, i: usize, record: R)
        requires
            old(self).wf(),
            i < old(self).entries@.len(),
        ensures
            final(self).entries@ == old(self).entries@.update(
                i as int,
                (Entry { record, ..old(self).entries@[i as int] }),
            ),
            final(self).wf(),
    {
        let mut e = self.entries.remove(i);
        e.record = record;
        self.entries.insert(i, e);
        proof {
            assert(self.entries@ =~= old(self).entries@.update(
                i as int,
                (Entry { record, ..old(self).entries@[i as int] }),
            ));
            assert forall|p: int, q: int| 0 <= p < q < self.entries@.len() implies self.entries@[p].address@
                != self.entries@[q].address@ by {
                assert(self.entries@[p].address == old(self).entries@[p].address);
                assert(self.entries@[q].address == old(self).entries@[q].address);
            }
        }
    }
}

} // verus!
