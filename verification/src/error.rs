use vstd::prelude::*;

verus! {

/// Caller-contract violations surfaced as values instead of aborts: the
/// verified core never panics, so the conditions the surrounding engine
/// treats as fatal are reported to it explicitly.
#[derive(Clone, Copy, PartialEq, Eq, Structural, Debug)]
pub enum TransferError {
    /// A transfer queue was drained while it held no copy descriptor.
    EmptyQueue,
    /// A copy descriptor was requested from a resource that lives in
    /// host-visible memory and therefore has no staging allocation.
    NotStaged,
}

} // verus!
