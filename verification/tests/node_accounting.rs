use dvpn::errors::DvpnError;
use dvpn::node::{claim_rewards, record_usage, register_node, slash_node};
use dvpn::state::{initialize_state, set_attestor};

fn key(b: u8) -> [u8; 32] {
    [b; 32]
}

#[test]
fn register_zeroes_counters_and_activates() {
    let n = register_node(key(4), 1_000_000, 100, key(7), None, 1234);
    assert_eq!(n.operator, key(4));
    assert_eq!(n.bandwidth_capacity, 100);
    assert_eq!(n.metadata_hash, key(7));
    assert_eq!(n.stake_amount, 1_000_000);
    assert_eq!(n.lifetime_bytes_relayed, 0);
    assert_eq!(n.unclaimed_reward, 0);
    assert_eq!(n.network_key, [0u8; 32]);
    assert_eq!(n.rating_sum, 0);
    assert_eq!(n.rating_count, 0);
    assert!(n.active);
    assert_eq!(n.registered_at, 1234);
    assert_eq!(n.last_slashed_at, 0);
}

#[test]
fn register_keeps_given_network_key() {
    let n = register_node(key(4), 0, 1, key(7), Some(key(6)), 0);
    assert_eq!(n.network_key, key(6));
}

#[test]
fn usage_accrues_exact_sums_with_per_report_flooring() {
    // rate 250 bps = 2.5%: 199 bytes floor to 4, 101 bytes floor to 2;
    // one floor over the 300-byte aggregate would give 7, not 6.
    let s = initialize_state(key(1), key(9), 255, 250);
    let mut n = register_node(key(4), 10, 100, key(7), None, 0);

    assert_eq!(record_usage(&s, key(1), &mut n, 199), Ok(()));
    assert_eq!(n.lifetime_bytes_relayed, 199);
    assert_eq!(n.unclaimed_reward, 4);

    assert_eq!(record_usage(&s, key(1), &mut n, 101), Ok(()));
    assert_eq!(n.lifetime_bytes_relayed, 300);
    assert_eq!(n.unclaimed_reward, 6);
    assert_ne!(n.unclaimed_reward, 300 * 250 / 10_000);
}

#[test]
fn usage_is_attestor_only() {
    let s = initialize_state(key(1), key(9), 255, 250);
    let mut n = register_node(key(4), 10, 100, key(7), None, 0);
    assert_eq!(record_usage(&s, key(4), &mut n, 50), Err(DvpnError::Unauthorized));
    assert_eq!(n.lifetime_bytes_relayed, 0);
    assert_eq!(n.unclaimed_reward, 0);
}

#[test]
fn usage_overflows_exactly_at_byte_counter_max() {
    let s = initialize_state(key(1), key(9), 255, 250);
    let mut n = register_node(key(4), 10, 100, key(7), None, 0);

    assert_eq!(record_usage(&s, key(1), &mut n, u64::MAX), Ok(()));
    assert_eq!(n.lifetime_bytes_relayed, u64::MAX);
    let reward_so_far = n.unclaimed_reward;

    assert_eq!(record_usage(&s, key(1), &mut n, 1), Err(DvpnError::MathOverflow));
    assert_eq!(n.lifetime_bytes_relayed, u64::MAX);
    assert_eq!(n.unclaimed_reward, reward_so_far);
}

#[test]
fn usage_overflow_of_reward_counter_also_fails_whole_report() {
    // At 65_535 bps the reward outgrows the bytes: one report of u64::MAX
    // bytes fits the byte counter but its reward exceeds u64::MAX.
    let s = initialize_state(key(1), key(9), 255, u16::MAX);
    let mut n = register_node(key(4), 10, 100, key(7), None, 0);
    assert_eq!(record_usage(&s, key(1), &mut n, u64::MAX), Err(DvpnError::MathOverflow));
    assert_eq!(n.lifetime_bytes_relayed, 0);
    assert_eq!(n.unclaimed_reward, 0);
}

#[test]
fn widened_reward_survives_a_large_intermediate_product() {
    // 2^63 bytes at 2 bps: the raw product exceeds u64::MAX, the floored
    // reward does not. The report must be accepted, not refused.
    let s = initialize_state(key(1), key(9), 255, 2);
    let mut n = register_node(key(4), 10, 100, key(7), None, 0);
    let bytes = 1u64 << 63;
    assert_eq!(record_usage(&s, key(1), &mut n, bytes), Ok(()));
    assert_eq!(n.lifetime_bytes_relayed, bytes);
    assert_eq!(n.unclaimed_reward, (bytes as u128 * 2 / 10_000) as u64);
}

#[test]
fn claim_drains_once_and_second_claim_fails() {
    let s = initialize_state(key(1), key(9), 255, 250);
    let mut n = register_node(key(4), 10, 100, key(7), None, 0);

    assert_eq!(claim_rewards(&mut n), Err(DvpnError::NothingToClaim));

    record_usage(&s, key(1), &mut n, 10_000).unwrap();
    assert_eq!(n.unclaimed_reward, 250);
    assert_eq!(claim_rewards(&mut n), Ok(250));
    assert_eq!(n.unclaimed_reward, 0);
    assert_eq!(claim_rewards(&mut n), Err(DvpnError::NothingToClaim));
    assert_eq!(n.lifetime_bytes_relayed, 10_000);
}

#[test]
fn slash_saturates_at_zero() {
    let s = initialize_state(key(1), key(9), 255, 250);
    let mut n = register_node(key(4), 1_000, 100, key(7), None, 0);
    assert_eq!(slash_node(&s, key(1), &mut n, 5_000, String::from("misbehaviour"), 42), Ok(()));
    assert_eq!(n.stake_amount, 0);
    assert_eq!(n.last_slashed_at, 42);
}

#[test]
fn slash_subtracts_exactly_when_stake_suffices() {
    let s = initialize_state(key(1), key(9), 255, 250);
    let mut n = register_node(key(4), 1_000, 100, key(7), None, 0);
    assert_eq!(slash_node(&s, key(1), &mut n, 300, String::from("lat"), 8), Ok(()));
    assert_eq!(n.stake_amount, 700);
    assert_eq!(n.last_slashed_at, 8);
}

#[test]
fn slash_is_gated_on_the_attestor_identity() {
    // The literal policy: the slash gate compares against the attestor,
    // so after a rotation the initial authority loses the power.
    let mut s = initialize_state(key(1), key(9), 255, 250);
    let mut n = register_node(key(4), 1_000, 100, key(7), None, 0);

    assert_eq!(slash_node(&s, key(2), &mut n, 10, String::new(), 1), Err(DvpnError::Unauthorized));
    assert_eq!(n.stake_amount, 1_000);
    assert_eq!(n.last_slashed_at, 0);

    set_attestor(&mut s, key(1), key(2)).unwrap();
    assert_eq!(slash_node(&s, key(1), &mut n, 10, String::new(), 1), Err(DvpnError::Unauthorized));
    assert_eq!(slash_node(&s, key(2), &mut n, 10, String::new(), 1), Ok(()));
    assert_eq!(n.stake_amount, 990);
}
