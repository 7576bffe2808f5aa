//! The error taxonomy shared by every mutation. Each check is local and
//! fails the whole enclosing mutation with no partial effect; the kind is
//! surfaced verbatim to the caller.

use vstd::prelude::*;

verus! {

/// Why a mutation was rejected. A failed mutation applies zero side effects,
/// so the caller may retry once the triggering condition is corrected.
#[derive(Clone, Copy, PartialEq, Eq, Structural, Debug)]
pub enum LedgerError {
    /// A claimed record address does not match its re-derivation, or no
    /// viable derivation exists for the given seeds (fail closed).
    AddressMismatch,
    /// The caller did not cryptographically authorize the current request.
    NotSigner,
    /// The caller's identity does not match the role recorded on the record.
    WrongOwner,
    /// The caller's disposable balance does not cover the requested amount.
    InsufficientBalance,
    /// The vault holds nothing above its minimum residual threshold.
    InsufficientFunds,
    /// Comment content exceeds the maximum length.
    ContentTooLong,
    /// A counter is already at its maximum and may not wrap.
    CounterSaturated,
    /// A counter is already at zero and may not wrap.
    CounterUnderflow,
    /// The derived address is already occupied by a live record.
    DuplicateAddress,
    /// The vault's lock gate is set; no mutation may touch it.
    VaultLocked,
}

} // verus!
