use vstd::prelude::*;

use crate::errors::DvpnError;
use crate::keys::Pubkey;
use crate::keys::keys_equal;
use crate::node::Node;
use crate::state::State;

verus! {

/// Bytes in one MiB, the pricing unit of settlement.
pub const BYTES_PER_MB: u64 = 1_048_576;

/// Divisor of the protocol fee: one percent of the payout, floored.
pub const FEE_DIVISOR: u64 = 100;

/// One escrow-backed usage session between a consumer and a node. Opened
/// with a fixed deposit, fed by attested usage reports, terminated exactly
/// once by settlement; a settled record is kept as an immutable audit
/// trail.
#[derive(Clone, Copy, Debug)]
pub struct Session {
    /// Identity of the consumer who opened the session.
    pub consumer: Pubkey,
    /// Key of the node record the session is held against.
    pub node: Pubkey,
    /// Escrowed deposit, fixed at open; settlement never pays out more.
    pub deposit_amount: u64,
    /// Cumulative attested bytes, monotonically non-decreasing.
    pub bytes_used: u64,
    /// Ledger time the session was opened.
    pub opened_at: i64,
    /// Terminal flag: once set, no field changes and no further transfer
    /// may be issued against this record.
    pub closed: bool,
    /// Nonce of the escrow's derived sub-account; used only by the ledger
    /// when it signs the settlement transfer.
    pub bump: u8,
}

/// What one settlement pays, before any asset moves: the capped payout,
/// its split into protocol fee and node share, and the byte total it
/// settled. The caller owes the node's account a transfer of
/// `node_amount` from the session's escrow sub-account.
#[derive(Clone, Copy, Debug, PartialEq, Eq, Structural)]
pub struct Settlement {
    /// Escrow value earned: `min(floor(bytes * price / 1_048_576), deposit)`.
    pub payout: u64,
    /// One percent of the payout, floored, kept by the protocol.
    pub protocol_fee: u64,
    /// What the node operator receives: `payout - protocol_fee`.
    pub node_amount: u64,
    /// The cumulative byte count the payout was computed from.
    pub bytes_used: u64,
}

/// Uncapped settlement value of `bytes_used` bytes at `price_per_mb`
/// units per MiB: `floor(bytes_used * price_per_mb / 1_048_576)`.
pub open spec fn raw_payout(bytes_used: u64, price_per_mb: u64) -> int {
    (bytes_used * price_per_mb) / (BYTES_PER_MB as int)
}

/// Settlement payout after capping at the escrowed deposit: the escrow can
/// never owe more than it holds.
pub open spec fn capped_payout(bytes_used: u64, price_per_mb: u64, deposit: u64) -> int {
    vstd::math::min(raw_payout(bytes_used, price_per_mb), deposit as int)
}

/// Protocol fee taken off the top of a payout: one percent, floored.
pub open spec fn fee_of(payout: int) -> int {
    payout / (FEE_DIVISOR as int)
}

/// The full settlement split for a session with `bytes_used` bytes, price
/// `price_per_mb` and deposit `deposit`. By construction
/// `payout <= deposit` and `node_amount + protocol_fee == payout`.
pub open spec fn settlement_of(bytes_used: u64, price_per_mb: u64, deposit: u64) -> Settlement {
    let payout = capped_payout(bytes_used, price_per_mb, deposit);
    Settlement {
        payout: payout as u64,
        protocol_fee: fee_of(payout) as u64,
        node_amount: (payout - fee_of(payout)) as u64,
        bytes_used,
    }
}

/// Outcome of one settlement attempt of `s` against node `n`: the record
/// afterwards, paired with the split the escrow now owes, or the refusal
/// when the session was already closed.
pub open spec fn settle_spec(s: Session, n: Node) -> (Session, Result<Settlement, DvpnError>) {
    if s.closed {
        (s, Err(DvpnError::SessionClosed))
    } else {
        (
            Session { closed: true, ..s },
            Ok(settlement_of(s.bytes_used, n.bandwidth_capacity as u64, s.deposit_amount)),
        )
    }
}

/// Opens a session of `consumer` against `node_key` with a fixed deposit.
/// The deposit itself is escrowed by a collaborator transfer outside this
/// crate; this builds the record that tracks it. `now` is the ledger clock
/// at open; `bump` the nonce of the escrow's derived sub-account.
pub fn start_session(
    consumer: Pubkey,
    node_key: Pubkey,
    deposit_amount: u64,
    now: i64,
    bump: u8,
) -> (s: Session)
    ensures
        s.consumer == consumer,
        s.node == node_key,
        s.deposit_amount == deposit_amount,
        s.bytes_used == 0,
        s.opened_at == now,
        !s.closed,
        s.bump == bump,
{
    Session { consumer, node: node_key, deposit_amount, bytes_used: 0, opened_at: now, closed: false, bump }
}

/// Adds one attested usage report to a session's cumulative counter and
/// returns the new total (the figure the usage notification carries).
/// Only the configured attestor may report; a closed session and a counter
/// overflow are refused, and every refusal leaves the record untouched.
pub fn submit_usage(state: &State, caller: Pubkey, session: &mut Session, bytes: u64) -> (r:
    Result<u64, DvpnError>)
    ensures
        r is Ok <==> caller == state.attestor && !old(session).closed && old(session).bytes_used
            + bytes <= u64::MAX,
        r matches Ok(total) ==> total == old(session).bytes_used + bytes && *final(session) == (
        Session { bytes_used: total, ..*old(session) }),
        r is Err ==> *final(session) == *old(session),
        caller != state.attestor ==> r == Err::<u64, DvpnError>(DvpnError::Unauthorized),
        caller == state.attestor && old(session).closed ==> r == Err::<u64, DvpnError>(
            DvpnError::SessionClosed,
        ),
        caller == state.attestor && !old(session).closed && old(session).bytes_used + bytes
            > u64::MAX ==> r == Err::<u64, DvpnError>(DvpnError::MathOverflow),
{
    if !keys_equal(&state.attestor, &caller) {
        return Err(DvpnError::Unauthorized);
    }
    if session.closed {
        return Err(DvpnError::SessionClosed);
    }
    match session.bytes_used.checked_add(bytes) {
        Some(total) => {
            session.bytes_used = total;
            Ok(total)
        },
        None => Err(DvpnError::MathOverflow),
    }
}

/// Computes the settlement split for `bytes_used` bytes at `price_per_mb`
/// against a deposit: the payout is floored at MiB granularity, capped at
/// the deposit, and the one-percent protocol fee is floored off the top.
/// The widened intermediate product cannot overflow, so pricing itself
/// never fails.
pub fn compute_settlement(bytes_used: u64, price_per_mb: u64, deposit: u64) -> (o: Settlement)
    ensures
        o == settlement_of(bytes_used, price_per_mb, deposit),
        o.payout <= deposit,
        o.protocol_fee == fee_of(o.payout as int),
        o.node_amount + o.protocol_fee == o.payout,
        o.bytes_used == bytes_used,
{
    proof {
        vstd::arithmetic::mul::lemma_mul_upper_bound(
            bytes_used as int,
            u64::MAX as int,
            price_per_mb as int,
            u64::MAX as int,
        );
    }
    let wide: u128 = (bytes_used as u128) * (price_per_mb as u128);
    let raw: u128 = wide / (BYTES_PER_MB as u128);
    let payout: u64 = if raw < deposit as u128 {
        raw as u64
    } else {
        deposit
    };
    let protocol_fee: u64 = payout / FEE_DIVISOR;
    assert((payout as int) / (FEE_DIVISOR as int) <= payout as int) by (nonlinear_arith);
    let node_amount: u64 = payout - protocol_fee;
    Settlement { payout, protocol_fee, node_amount, bytes_used }
}

/// Settles a session: converts its accumulated byte count into a capped
/// payout at the node's per-MiB price, splits off the protocol fee, and
/// closes the record. Returns the split the escrow now owes; the transfer
/// of `node_amount` from the escrow sub-account to the operator is the
/// asset subsystem's work, signed with an authority proof scoped to
/// exactly this (consumer, node) pair.
///
/// The record is closed before that transfer is issued: a repeated or
/// concurrent settlement attempt must observe `closed` and fail, so no
/// second transfer can ever be authorized by this record.
pub fn settle_session(session: &mut Session, node: &Node) -> (r: Result<Settlement, DvpnError>)
    ensures
        r is Ok <==> !old(session).closed,
        old(session).closed ==> r == Err::<Settlement, DvpnError>(DvpnError::SessionClosed)
            && *final(session) == *old(session),
        r matches Ok(o) ==> o == settlement_of(
            old(session).bytes_used,
            node.bandwidth_capacity as u64,
            old(session).deposit_amount,
        ) && o.payout <= old(session).deposit_amount && o.node_amount + o.protocol_fee == o.payout
            && *final(session) == (Session { closed: true, ..*old(session) }),
        (*final(session), r) == settle_spec(*old(session), *node),
{
    if session.closed {
        return Err(DvpnError::SessionClosed);
    }
    let price_per_mb: u64 = node.bandwidth_capacity as u64;
    let outcome = compute_settlement(session.bytes_used, price_per_mb, session.deposit_amount);
    session.closed = true;
    Ok(outcome)
}

/// Settlement fed by an attestor-asserted final total instead of the
/// accumulated `submit_usage` trail: overwrites `bytes_used` with
/// `total_bytes`, then settles and closes exactly as
/// [`settle_session`] does.
///
/// The supplied signature bytes are accepted but not verified against any
/// message — a known gap carried over deliberately: the path checks only
/// that `attestor_key` equals the configured attestor identity, so it
/// proves nothing about who endorsed `total_bytes`. Treat it as equal in
/// trust to [`submit_usage`] followed by [`settle_session`].
pub fn settle_session_with_attestation(
    state: &State,
    session: &mut Session,
    node: &Node,
    total_bytes: u64,
    attestor_key: Pubkey,
    _attestor_sig: Vec<u8>,
) -> (r: Result<Settlement, DvpnError>)
    ensures
        r is Ok <==> !old(session).closed && attestor_key == state.attestor,
        old(session).closed ==> r == Err::<Settlement, DvpnError>(DvpnError::SessionClosed),
        !old(session).closed && attestor_key != state.attestor ==> r == Err::<
            Settlement,
            DvpnError,
        >(DvpnError::Unauthorized),
        r is Err ==> *final(session) == *old(session),
        r matches Ok(o) ==> o == settlement_of(
            total_bytes,
            node.bandwidth_capacity as u64,
            old(session).deposit_amount,
        ) && o.payout <= old(session).deposit_amount && o.node_amount + o.protocol_fee == o.payout
            && *final(session) == (Session {
            bytes_used: total_bytes,
            closed: true,
            ..*old(session)
        }),
{
    if session.closed {
        return Err(DvpnError::SessionClosed);
    }
    if !keys_equal(&state.attestor, &attestor_key) {
        return Err(DvpnError::Unauthorized);
    }
    session.bytes_used = total_bytes;
    let price_per_mb: u64 = node.bandwidth_capacity as u64;
    let outcome = compute_settlement(total_bytes, price_per_mb, session.deposit_amount);
    session.closed = true;
    Ok(outcome)
}

} // verus!
