use hyperliquid_rust_sdk::NonceClock;

#[test]
fn nonce_follows_the_wall_clock_when_it_moves_forward() {
    let mut clock = NonceClock::new();
    assert_eq!(clock.next(1_700_000_000_000), 1_700_000_000_000);
    assert_eq!(clock.next(1_700_000_000_005), 1_700_000_000_005);
    assert_eq!(clock.last(), 1_700_000_000_005);
}

#[test]
fn nonce_steps_by_one_when_the_wall_clock_stands_still_or_regresses() {
    let mut clock = NonceClock::new();
    assert_eq!(clock.next(5_000), 5_000);
    assert_eq!(clock.next(5_000), 5_001);
    assert_eq!(clock.next(4_000), 5_002);
    assert_eq!(clock.next(0), 5_003);
    assert_eq!(clock.next(5_004), 5_004);
    assert_eq!(clock.next(5_004), 5_005);
}

#[test]
fn nonces_are_pairwise_distinct_and_increasing() {
    let readings: [u64; 8] = [10, 10, 9, 50, 3, 50, 51, 0];
    let mut clock = NonceClock::new();
    let mut issued: Vec<u64> = Vec::new();
    for now in readings {
        issued.push(clock.next(now));
    }
    assert_eq!(issued, vec![10, 11, 12, 50, 51, 52, 53, 54]);
    for i in 0..issued.len() {
        for j in (i + 1)..issued.len() {
            assert!(issued[i] < issued[j]);
        }
    }
}

#[test]
fn first_nonce_of_a_new_clock_is_at_least_one() {
    let mut clock = NonceClock::new();
    assert_eq!(clock.next(0), 1);
}

#[test]
fn reset_forces_the_floor() {
    let mut clock = NonceClock::new();
    clock.next(9_000);
    clock.reset(100);
    assert_eq!(clock.last(), 100);
    assert_eq!(clock.next(50), 101);
    clock.reset(u64::MAX);
    assert!(clock.is_exhausted());
    clock.reset(u64::MAX - 1);
    assert!(!clock.is_exhausted());
    assert_eq!(clock.next(7), u64::MAX);
    assert!(clock.is_exhausted());
}
