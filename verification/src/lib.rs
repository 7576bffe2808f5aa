//! Ledger-style state machines over deterministically derived record
//! addresses: an escrow vault with deposit/withdraw rules and a social-graph
//! store of posts, comments and reactions with bounded counters.
//!
//! Every mutable record is located by re-deriving its address from a domain
//! tag and a seed tuple, every mutation re-verifies the caller's authority
//! and the record's derived address, and every balance or counter change is
//! checked against overflow, underflow and the minimum-residual rule before
//! it is committed.

pub mod addr;
pub mod authority;
pub mod errors;
pub mod social;
pub mod store;
pub mod vault;
