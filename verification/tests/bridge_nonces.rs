use stellar_lend::bridge::{Bridge, BridgeError, OutboundMessageEvent, ValidatorSet};

fn fresh_bridge() -> Bridge {
    Bridge::new(ValidatorSet { validators: vec![] })
}

/// A distinct 32-byte key per seed.
fn key_for_seed(seed: u8) -> Vec<u8> {
    (0..32u8)
        .map(|i| if i == 0 { seed } else { seed.wrapping_mul(13).wrapping_add(i.wrapping_mul(17)) })
        .collect()
}

fn validator_bytes_from_seeds(seeds: &[u8]) -> Vec<Vec<u8>> {
    seeds.iter().map(|seed| key_for_seed(*seed)).collect()
}

fn supermajority_threshold(unique_len: usize) -> usize {
    (unique_len * 2) / 3 + 1
}

#[test]
fn test_peek_fresh_destination_is_zero() {
    let bridge = fresh_bridge();
    assert_eq!(bridge.peek_outbound_nonce(1u32), 0u64);
    assert_eq!(bridge.peek_outbound_nonce(999u32), 0u64);
}

#[test]
fn test_first_nonce_is_zero() {
    let mut bridge = fresh_bridge();
    let nonce = bridge.next_outbound_nonce(42u32).unwrap();
    assert_eq!(nonce, 0u64);
}

#[test]
fn test_monotonic_increase_single_destination() {
    let mut bridge = fresh_bridge();
    let dest: u32 = 7;
    let n0 = bridge.next_outbound_nonce(dest).unwrap();
    let n1 = bridge.next_outbound_nonce(dest).unwrap();
    let n2 = bridge.next_outbound_nonce(dest).unwrap();
    assert_eq!(n0, 0u64);
    assert_eq!(n1, 1u64);
    assert_eq!(n2, 2u64);
}

#[test]
fn test_peek_reflects_next_value() {
    let mut bridge = fresh_bridge();
    let dest: u32 = 3;
    assert_eq!(bridge.peek_outbound_nonce(dest), 0u64);
    let n0 = bridge.next_outbound_nonce(dest).unwrap();
    assert_eq!(n0, 0u64);
    assert_eq!(bridge.peek_outbound_nonce(dest), 1u64);
    let n1 = bridge.next_outbound_nonce(dest).unwrap();
    assert_eq!(n1, 1u64);
    assert_eq!(bridge.peek_outbound_nonce(dest), 2u64);
}

#[test]
fn test_independent_sequences_per_destination() {
    let mut bridge = fresh_bridge();
    let dest_a: u32 = 1;
    let dest_b: u32 = 2;
    bridge.next_outbound_nonce(dest_a).unwrap();
    bridge.next_outbound_nonce(dest_a).unwrap();
    bridge.next_outbound_nonce(dest_a).unwrap();
    assert_eq!(bridge.peek_outbound_nonce(dest_b), 0u64);
    let nb0 = bridge.next_outbound_nonce(dest_b).unwrap();
    assert_eq!(nb0, 0u64);
    assert_eq!(bridge.peek_outbound_nonce(dest_a), 3u64);
}

#[test]
fn test_peek_does_not_advance_nonce() {
    let mut bridge = fresh_bridge();
    let dest: u32 = 10;
    for _ in 0..5 {
        assert_eq!(bridge.peek_outbound_nonce(dest), 0u64);
    }
    assert_eq!(bridge.next_outbound_nonce(dest).unwrap(), 0u64);
}

#[test]
fn test_nonce_overflow_near_max_is_rejected() {
    let mut bridge = fresh_bridge();
    let dest: u32 = 55;
    bridge.outbound_nonces.insert(dest, u64::MAX);
    let result = bridge.next_outbound_nonce(dest);
    assert!(result.is_err(), "expected NonceOverflow error");
    assert_eq!(result, Err(BridgeError::NonceOverflow));
    assert_eq!(bridge.peek_outbound_nonce(dest), u64::MAX);
}

#[test]
fn test_many_destinations_independent() {
    let mut bridge = fresh_bridge();
    let dests: [u32; 5] = [100, 200, 300, 400, 500];
    for &dest in &dests {
        for expected_nonce in 0u64..3 {
            let n = bridge.next_outbound_nonce(dest).unwrap();
            assert_eq!(n, expected_nonce, "dest={dest} expected nonce {expected_nonce}");
        }
    }
    for &dest in &dests {
        assert_eq!(bridge.peek_outbound_nonce(dest), 3u64, "dest={dest} peek should be 3");
    }
}

#[test]
fn outbound_event_carries_destination_and_nonce() {
    let mut bridge = fresh_bridge();
    let nonce = bridge.next_outbound_nonce(9).unwrap();
    let event = OutboundMessageEvent { dest: 9, nonce };
    assert_eq!(event, OutboundMessageEvent { dest: 9, nonce: 0 });
}

#[test]
fn singleton_set_has_threshold_one() {
    let validators = validator_bytes_from_seeds(&[7]);
    let validator_set = ValidatorSet { validators };
    assert_eq!(validator_set.len(), 1);
    assert_eq!(validator_set.threshold(), 1);
}

#[test]
fn large_set_threshold_matches_unique_supermajority() {
    let seeds: Vec<u8> = (0..32u8).collect();
    let validator_set = ValidatorSet { validators: validator_bytes_from_seeds(&seeds) };
    assert_eq!(validator_set.len(), 32);
    assert_eq!(validator_set.threshold(), supermajority_threshold(32));
}

#[test]
fn duplicate_keys_preserve_raw_bytes_without_raising_threshold() {
    let validators = validator_bytes_from_seeds(&[1, 1, 1, 2]);
    let validator_set = ValidatorSet { validators: validators.clone() };
    assert_eq!(validator_set.to_bytes_vec(), validators);
    assert_eq!(validator_set.len(), 2);
    assert_eq!(validator_set.threshold(), 2);
}

#[test]
fn empty_set_threshold_is_one() {
    let validator_set = ValidatorSet { validators: vec![] };
    assert_eq!(validator_set.len(), 0);
    assert_eq!(validator_set.threshold(), 1);
}

#[test]
fn contains_key_matches_raw_list() {
    let validators = validator_bytes_from_seeds(&[3, 4, 4]);
    let validator_set = ValidatorSet { validators };
    assert!(validator_set.contains_key(&key_for_seed(3)));
    assert!(validator_set.contains_key(&key_for_seed(4)));
    assert!(!validator_set.contains_key(&key_for_seed(5)));
}

#[test]
fn bridge_error_codes_and_messages() {
    assert_eq!(BridgeError::NonceOverflow.code(), 1);
    assert_eq!(BridgeError::InboundCapExceeded.code(), 2);
    assert_eq!(BridgeError::InvalidWindowSize.code(), 3);
    assert_eq!(BridgeError::NegativeAmount.code(), 4);
    assert_eq!(BridgeError::WindowTotalOverflow.code(), 5);
    assert_eq!(BridgeError::InvalidWindowSize.message(), "window size must be > 0");
}
