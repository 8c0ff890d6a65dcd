//! The engine's cross-call guarantees, stated over the same spec functions
//! the operations' contracts use and proved once and for all: exact
//! accrual over whole report sequences, overflow exactly at a counter's
//! maximum, claim and settlement each draining or closing exactly once,
//! the settlement split reassembling its payout, and slashing saturating
//! at zero.

use vstd::prelude::*;

use crate::errors::DvpnError;
use crate::node::Node;
use crate::node::apply_usage;
use crate::node::claim_spec;
use crate::node::drained;
use crate::node::reward_increment;
use crate::node::stake_after_slash;
use crate::node::usage_fits;
use crate::session::Session;
use crate::session::Settlement;
use crate::session::capped_payout;
use crate::session::fee_of;
use crate::session::settle_spec;
use crate::session::settlement_of;

verus! {

/// Total bytes of a sequence of usage reports.
pub open spec fn sum_bytes(reports: Seq<u64>) -> int
    decreases reports.len(),
{
    if reports.len() == 0 {
        0
    } else {
        sum_bytes(reports.drop_last()) + reports.last()
    }
}

/// Total reward of a sequence of usage reports, each report's increment
/// floored on its own — deliberately not one floor over the aggregate
/// byte count.
pub open spec fn sum_rewards(reports: Seq<u64>, rate_bps: u16) -> int
    decreases reports.len(),
{
    if reports.len() == 0 {
        0
    } else {
        sum_rewards(reports.drop_last(), rate_bps) + reward_increment(reports.last(), rate_bps)
    }
}

/// The node record after a whole sequence of usage reports, or `None` as
/// soon as one report would overflow a counter — the moment the engine
/// answers `MathOverflow` and rolls the operation back.
pub open spec fn apply_reports(n: Node, rate_bps: u16, reports: Seq<u64>) -> Option<Node>
    decreases reports.len(),
{
    if reports.len() == 0 {
        Some(n)
    } else {
        match apply_reports(n, rate_bps, reports.drop_last()) {
            Some(m) => if usage_fits(m, rate_bps, reports.last()) {
                Some(apply_usage(m, rate_bps, reports.last()))
            } else {
                None
            },
            None => None,
        }
    }
}

/// One report's reward increment is never negative.
pub proof fn lemma_reward_increment_nonneg(bytes: u64, rate_bps: u16)
    ensures
        reward_increment(bytes, rate_bps) >= 0,
{
    vstd::arithmetic::mul::lemma_mul_nonnegative(bytes as int, rate_bps as int);
    vstd::arithmetic::div_mod::lemma_div_pos_is_pos(
        bytes as int * rate_bps as int,
        crate::node::BPS_DENOMINATOR as int,
    );
}

/// Accrual is an exact sum: after any accepted sequence of usage reports
/// the lifetime counter has grown by exactly the bytes reported, the
/// unclaimed balance by exactly the sum of the per-report floored
/// rewards, and no other field of the record has moved.
pub proof fn lemma_accrual_is_exact_sum(n: Node, rate_bps: u16, reports: Seq<u64>)
    ensures
        apply_reports(n, rate_bps, reports) matches Some(m) ==> {
            &&& m.lifetime_bytes_relayed == n.lifetime_bytes_relayed + sum_bytes(reports)
            &&& m.unclaimed_reward == n.unclaimed_reward + sum_rewards(reports, rate_bps)
            &&& m == (Node {
                lifetime_bytes_relayed: m.lifetime_bytes_relayed,
                unclaimed_reward: m.unclaimed_reward,
                ..n
            })
        },
    decreases reports.len(),
{
    if reports.len() > 0 {
        lemma_accrual_is_exact_sum(n, rate_bps, reports.drop_last());
    }
}

/// Overflow comes exactly at the counter's maximum: as long as the
/// accrued rewards fit their own counter, a report sequence is accepted
/// if and only if the byte total fits the lifetime counter. (Without the
/// premise only one direction holds: a reward counter can overflow while
/// the byte counter still fits, and the sequence is then refused too.)
pub proof fn lemma_overflow_exactly_at_counter_max(n: Node, rate_bps: u16, reports: Seq<u64>)
    requires
        n.unclaimed_reward + sum_rewards(reports, rate_bps) <= u64::MAX,
    ensures
        apply_reports(n, rate_bps, reports) is Some <==> n.lifetime_bytes_relayed + sum_bytes(
            reports,
        ) <= u64::MAX,
    decreases reports.len(),
{
    lemma_accrual_is_exact_sum(n, rate_bps, reports);
    if reports.len() > 0 {
        let prefix = reports.drop_last();
        let last = reports.last();
        lemma_reward_increment_nonneg(last, rate_bps);
        lemma_overflow_exactly_at_counter_max(n, rate_bps, prefix);
        lemma_accrual_is_exact_sum(n, rate_bps, prefix);
        if n.lifetime_bytes_relayed + sum_bytes(reports) <= u64::MAX {
            let m = apply_reports(n, rate_bps, prefix)->Some_0;
            assert(usage_fits(m, rate_bps, last));
        }
    }
}

/// The node's counters are monotone: an accepted usage report never
/// shrinks the lifetime byte counter or the unclaimed balance, and the
/// one exception — a claim — resets the balance to exactly zero while
/// leaving the lifetime counter where it was.
pub proof fn lemma_counters_monotonic(n: Node, rate_bps: u16, bytes: u64)
    requires
        usage_fits(n, rate_bps, bytes),
    ensures
        apply_usage(n, rate_bps, bytes).lifetime_bytes_relayed >= n.lifetime_bytes_relayed,
        apply_usage(n, rate_bps, bytes).unclaimed_reward >= n.unclaimed_reward,
        drained(n).unclaimed_reward == 0,
        drained(n).lifetime_bytes_relayed == n.lifetime_bytes_relayed,
{
    lemma_reward_increment_nonneg(bytes, rate_bps);
}

/// A claim drains exactly once: against a zero balance it is refused with
/// `NothingToClaim`; a successful claim pays out the whole balance, leaves
/// exactly zero behind, and an immediate second claim is refused the same
/// way, with the record untouched — so no second payment is ever owed.
pub proof fn lemma_claim_drains_once(n: Node)
    ensures
        n.unclaimed_reward == 0 ==> claim_spec(n) == (n, Err::<u64, DvpnError>(
            DvpnError::NothingToClaim,
        )),
        n.unclaimed_reward > 0 ==> {
            let (n1, r1) = claim_spec(n);
            &&& r1 == Ok::<u64, DvpnError>(n.unclaimed_reward)
            &&& n1 == drained(n)
            &&& n1.unclaimed_reward == 0
            &&& claim_spec(n1) == (n1, Err::<u64, DvpnError>(DvpnError::NothingToClaim))
        },
{
}

/// The settlement split is conservative and exact, for every byte count,
/// price and deposit: the payout never exceeds the deposit, the protocol
/// fee is exactly one percent of the payout floored, and node share plus
/// fee reassemble the payout to the unit.
pub proof fn lemma_settlement_split(bytes_used: u64, price_per_mb: u64, deposit: u64)
    ensures
        settlement_of(bytes_used, price_per_mb, deposit).payout <= deposit,
        settlement_of(bytes_used, price_per_mb, deposit).protocol_fee == fee_of(
            settlement_of(bytes_used, price_per_mb, deposit).payout as int,
        ),
        settlement_of(bytes_used, price_per_mb, deposit).node_amount + settlement_of(
            bytes_used,
            price_per_mb,
            deposit,
        ).protocol_fee == settlement_of(bytes_used, price_per_mb, deposit).payout,
{
    vstd::arithmetic::mul::lemma_mul_nonnegative(bytes_used as int, price_per_mb as int);
    vstd::arithmetic::div_mod::lemma_div_pos_is_pos(
        bytes_used as int * price_per_mb as int,
        crate::session::BYTES_PER_MB as int,
    );
    let payout = capped_payout(bytes_used, price_per_mb, deposit);
    vstd::arithmetic::div_mod::lemma_div_pos_is_pos(payout, crate::session::FEE_DIVISOR as int);
    vstd::arithmetic::div_mod::lemma_div_nonincreasing(payout, crate::session::FEE_DIVISOR as int);
}

/// A session settles exactly once: the first attempt on an open session
/// succeeds and closes the record; a second attempt on the closed record
/// is refused with `SessionClosed` and changes nothing — so no second
/// transfer is ever owed against one escrow.
pub proof fn lemma_settle_exactly_once(s: Session, n: Node)
    requires
        !s.closed,
    ensures
        ({
            let (s1, r1) = settle_spec(s, n);
            &&& r1 is Ok
            &&& s1.closed
            &&& settle_spec(s1, n) == (s1, Err::<Settlement, DvpnError>(DvpnError::SessionClosed))
        }),
{
}

/// Slashing saturates at zero: an amount at least the stake leaves
/// exactly zero — never a negative value, never a failure — and a smaller
/// amount subtracts exactly.
pub proof fn lemma_slash_saturates(stake: u64, amount: u64)
    ensures
        amount >= stake ==> stake_after_slash(stake, amount) == 0,
        amount < stake ==> stake_after_slash(stake, amount) == stake - amount,
        stake_after_slash(stake, amount) <= stake,
{
}

} // verus!
