use vstd::prelude::*;

verus! {

/// Failure taxonomy of the accounting core. Every error aborts the whole
/// operation: a function that returns one of these leaves each record it
/// borrowed exactly as it found it.
#[derive(Clone, Copy, Debug, PartialEq, Eq, Structural)]
pub enum DvpnError {
    /// The caller's identity failed an authorization check.
    Unauthorized,
    /// A claim was attempted against a zero unclaimed balance.
    NothingToClaim,
    /// A checked arithmetic step would exceed its counter's range.
    MathOverflow,
    /// A mutation was attempted on a session already settled.
    SessionClosed,
}

} // verus!
