use vstd::prelude::*;

use crate::errors::DvpnError;
use crate::keys::Pubkey;
use crate::keys::keys_equal;
use crate::state::State;

verus! {

/// Denominator of the basis-point reward rate: 10_000 bps make a whole.
pub const BPS_DENOMINATOR: u64 = 10_000;

/// One registered bandwidth provider. Created at registration together with
/// an atomic stake transfer (the transfer is the ledger's work; a record is
/// persisted only when it succeeded), mutated by usage reports, claims and
/// slashes, never deleted.
#[derive(Clone, Copy, Debug)]
pub struct Node {
    /// Identity of the operator who registered and runs this node.
    pub operator: Pubkey,
    /// Advertised capacity in Mbps; in this simplified pricing model it
    /// doubles as the per-MiB price charged at settlement.
    pub bandwidth_capacity: u32,
    /// Opaque 32-byte metadata digest supplied at registration.
    pub metadata_hash: [u8; 32],
    /// Collateral locked at registration; decreases only through slashing,
    /// saturating at zero.
    pub stake_amount: u64,
    /// Lifetime bytes relayed, as attested; monotonically non-decreasing.
    pub lifetime_bytes_relayed: u64,
    /// Accrued reward units not yet claimed; grows with usage reports and
    /// is reset to zero atomically by a claim.
    pub unclaimed_reward: u64,
    /// Optional tunnel key of the node, zeroed when none was given.
    pub network_key: [u8; 32],
    /// Accumulated rating points (reserved; this core never changes it).
    pub rating_sum: u64,
    /// Number of ratings received (reserved; this core never changes it).
    pub rating_count: u32,
    /// Whether the node is accepting sessions.
    pub active: bool,
    /// Ledger time of registration.
    pub registered_at: i64,
    /// Ledger time of the most recent slash, zero before the first.
    pub last_slashed_at: i64,
}

/// Reward units accrued by one usage report of `bytes` relayed bytes:
/// `floor(bytes * rate_bps / 10_000)`, floored per report.
pub open spec fn reward_increment(bytes: u64, rate_bps: u16) -> int {
    (bytes * rate_bps) / (BPS_DENOMINATOR as int)
}

/// Whether one usage report of `bytes` fits both counters of `n` without
/// overflowing; when it does not, the whole report is refused.
pub open spec fn usage_fits(n: Node, rate_bps: u16, bytes: u64) -> bool {
    &&& n.lifetime_bytes_relayed + bytes <= u64::MAX
    &&& n.unclaimed_reward + reward_increment(bytes, rate_bps) <= u64::MAX
}

/// The node record after one accepted usage report: both counters grow,
/// nothing else moves.
pub open spec fn apply_usage(n: Node, rate_bps: u16, bytes: u64) -> Node {
    Node {
        lifetime_bytes_relayed: (n.lifetime_bytes_relayed + bytes) as u64,
        unclaimed_reward: (n.unclaimed_reward + reward_increment(bytes, rate_bps)) as u64,
        ..n
    }
}

/// The node record after a successful claim: the unclaimed balance is
/// zeroed, nothing else moves.
pub open spec fn drained(n: Node) -> Node {
    Node { unclaimed_reward: 0, ..n }
}

/// Outcome of one claim attempt against `n`: the record afterwards,
/// paired with the amount the asset subsystem now owes the operator, or
/// the refusal when there was nothing to claim.
pub open spec fn claim_spec(n: Node) -> (Node, Result<u64, DvpnError>) {
    if n.unclaimed_reward == 0 {
        (n, Err(DvpnError::NothingToClaim))
    } else {
        (drained(n), Ok(n.unclaimed_reward))
    }
}

/// Stake left after slashing `amount` from `stake`: saturates at zero,
/// never wraps.
pub open spec fn stake_after_slash(stake: u64, amount: u64) -> u64 {
    if amount >= stake {
        0u64
    } else {
        (stake - amount) as u64
    }
}

/// Builds the registry record for a newly registered node, all counters
/// zeroed and the node active. `now` is the ledger clock at registration.
///
/// The stake transfer of `stake_amount` from the operator into the
/// node's sub-account is the ledger's work and must commit in the same
/// atomic unit: a failed transfer must leave no record behind.
pub fn register_node(
    operator: Pubkey,
    stake_amount: u64,
    bandwidth_capacity: u32,
    metadata_hash: [u8; 32],
    network_key: Option<[u8; 32]>,
    now: i64,
) -> (n: Node)
    ensures
        n.operator == operator,
        n.bandwidth_capacity == bandwidth_capacity,
        n.metadata_hash == metadata_hash,
        n.stake_amount == stake_amount,
        n.lifetime_bytes_relayed == 0,
        n.unclaimed_reward == 0,
        network_key matches Some(k) ==> n.network_key == k,
        network_key is None ==> forall|i: int| 0 <= i < 32 ==> n.network_key[i] == 0,
        n.rating_sum == 0,
        n.rating_count == 0,
        n.active,
        n.registered_at == now,
        n.last_slashed_at == 0,
{
    let wg = match network_key {
        Some(k) => k,
        None => [0u8; 32],
    };
    Node {
        operator,
        bandwidth_capacity,
        metadata_hash,
        stake_amount,
        lifetime_bytes_relayed: 0,
        unclaimed_reward: 0,
        network_key: wg,
        rating_sum: 0,
        rating_count: 0,
        active: true,
        registered_at: now,
        last_slashed_at: 0,
    }
}

/// Books one attested usage report against a node: adds `bytes` to the
/// lifetime counter and `floor(bytes * rate / 10_000)` reward units to the
/// unclaimed balance, both overflow-checked. Only the configured attestor
/// may report; any failure leaves the record untouched.
///
/// The reward product is widened before the division, so an intermediate
/// product larger than the counter never by itself fails the report.
pub fn record_usage(state: &State, caller: Pubkey, node: &mut Node, bytes: u64) -> (r: Result<
    (),
    DvpnError,
>)
    ensures
        r is Ok <==> caller == state.attestor && usage_fits(*old(node), state.reward_rate_bps, bytes),
        r is Ok ==> *final(node) == apply_usage(*old(node), state.reward_rate_bps, bytes),
        r is Err ==> *final(node) == *old(node),
        caller != state.attestor ==> r == Err::<(), DvpnError>(DvpnError::Unauthorized),
        caller == state.attestor && !usage_fits(*old(node), state.reward_rate_bps, bytes) ==> r
            == Err::<(), DvpnError>(DvpnError::MathOverflow),
{
    if !keys_equal(&state.attestor, &caller) {
        return Err(DvpnError::Unauthorized);
    }
    let new_total = match node.lifetime_bytes_relayed.checked_add(bytes) {
        Some(t) => t,
        None => {
            return Err(DvpnError::MathOverflow);
        },
    };
    proof {
        vstd::arithmetic::mul::lemma_mul_upper_bound(
            bytes as int,
            u64::MAX as int,
            state.reward_rate_bps as int,
            u16::MAX as int,
        );
    }
    let wide: u128 = (bytes as u128) * (state.reward_rate_bps as u128);
    let increment_wide: u128 = wide / (BPS_DENOMINATOR as u128);
    if increment_wide > u64::MAX as u128 {
        return Err(DvpnError::MathOverflow);
    }
    let increment: u64 = increment_wide as u64;
    let new_unclaimed = match node.unclaimed_reward.checked_add(increment) {
        Some(u) => u,
        None => {
            return Err(DvpnError::MathOverflow);
        },
    };
    node.lifetime_bytes_relayed = new_total;
    node.unclaimed_reward = new_unclaimed;
    Ok(())
}

/// Drains the unclaimed balance and reports how much is owed: `Ok(amount)`
/// means the record now shows zero and the asset subsystem must mint
/// `amount` units to the operator. A zero balance is refused.
///
/// Zeroing happens before the external mint on purpose: a second claim
/// racing the first must read zero and fail. If the mint itself fails, the
/// ledger's all-or-nothing execution rolls the zeroing back; this record
/// never shows a drained balance without a matching mint. The ledger's
/// account derivation restricts callers to the node's operator.
pub fn claim_rewards(node: &mut Node) -> (r: Result<u64, DvpnError>)
    ensures
        r is Ok <==> old(node).unclaimed_reward > 0,
        r matches Ok(amount) ==> amount == old(node).unclaimed_reward && *final(node) == drained(
            *old(node),
        ),
        r is Err ==> r == Err::<u64, DvpnError>(DvpnError::NothingToClaim) && *final(node) == *old(
            node,
        ),
        (*final(node), r) == claim_spec(*old(node)),
{
    let amount = node.unclaimed_reward;
    if amount == 0 {
        return Err(DvpnError::NothingToClaim);
    }
    node.unclaimed_reward = 0;
    Ok(amount)
}

/// Punitive stake reduction: subtracts `amount` from the node's stake,
/// saturating at zero, and stamps the slash time. Never fails for an
/// authorized caller, however large the amount.
///
/// The authorization compares the caller against the configured attestor
/// — the deliberate policy here, even though slashing reads like an
/// authority action. The two identities coincide at initialization and
/// diverge only after a [`crate::state::set_attestor`]. Bookkeeping only:
/// no asset leaves the stake sub-account here.
pub fn slash_node(
    state: &State,
    caller: Pubkey,
    node: &mut Node,
    amount: u64,
    _reason: String,
    now: i64,
) -> (r: Result<(), DvpnError>)
    ensures
        r is Ok <==> caller == state.attestor,
        r is Ok ==> *final(node) == (Node {
            stake_amount: stake_after_slash(old(node).stake_amount, amount),
            last_slashed_at: now,
            ..*old(node)
        }),
        r is Err ==> r == Err::<(), DvpnError>(DvpnError::Unauthorized) && *final(node) == *old(
            node,
        ),
{
    if !keys_equal(&state.attestor, &caller) {
        return Err(DvpnError::Unauthorized);
    }
    if node.stake_amount < amount {
        node.stake_amount = 0;
    } else {
        node.stake_amount = node.stake_amount - amount;
    }
    node.last_slashed_at = now;
    Ok(())
}

} // verus!
