//! Notification payloads the boundary emits after an operation commits.
//! They exist for external indexers, are fire-and-forget, and are never
//! read back by the core; the interesting figures they carry (a new
//! cumulative total, a settlement's node share) are exactly the values
//! the corresponding operations return.

use vstd::prelude::*;

use crate::keys::Pubkey;

verus! {

/// Emitted when a session is opened.
#[derive(Clone, Copy, Debug, PartialEq, Eq)]
pub struct SessionStarted {
    /// Address of the new session record.
    pub session: Pubkey,
    /// Consumer who opened it.
    pub consumer: Pubkey,
    /// Node it was opened against.
    pub node: Pubkey,
    /// Deposit escrowed at open.
    pub deposit: u64,
}

/// Emitted after an accepted usage report against a session.
#[derive(Clone, Copy, Debug, PartialEq, Eq)]
pub struct UsageSubmitted {
    /// Address of the session record.
    pub session: Pubkey,
    /// New cumulative byte total, as returned by the report.
    pub bytes: u64,
}

/// Emitted after a session settles.
#[derive(Clone, Copy, Debug, PartialEq, Eq)]
pub struct SessionSettled {
    /// Address of the settled session record.
    pub session: Pubkey,
    /// What the node operator was paid: the settlement's node share.
    pub payout: u64,
    /// Byte total the payout was computed from.
    pub bytes: u64,
}

/// Emitted after a slash.
#[derive(Clone, Copy, Debug, PartialEq, Eq)]
pub struct NodeSlashed {
    /// Address of the slashed node record.
    pub node: Pubkey,
    /// Amount the slash asked for (the stake saturates at zero).
    pub amount: u64,
}

} // verus!
