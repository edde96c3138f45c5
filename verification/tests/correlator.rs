use hyperliquid_rust_sdk::{PendingRequest, RequestCorrelator};

#[test]
fn two_requests_get_two_distinct_ids() {
    let mut c = RequestCorrelator::new(5_000);
    let a = c.register(10).unwrap();
    let b = c.register(10).unwrap();
    assert_eq!(a, 0);
    assert_eq!(b, 1);
    assert_ne!(a, b);
    assert_eq!(c.pending_count(), 2);
    assert!(c.is_pending(a));
    assert!(c.is_pending(b));
}

#[test]
fn response_with_unknown_id_resolves_nothing() {
    let mut c = RequestCorrelator::new(5_000);
    let a = c.register(10).unwrap();
    let b = c.register(11).unwrap();
    assert_eq!(c.resolve(99), None);
    assert_eq!(c.pending_count(), 2);
    assert!(c.is_pending(a));
    assert!(c.is_pending(b));
}

#[test]
fn request_is_resolved_exactly_once() {
    let mut c = RequestCorrelator::new(5_000);
    let a = c.register(10).unwrap();
    let b = c.register(20).unwrap();
    assert_eq!(c.resolve(a), Some(PendingRequest { id: a, issued_at: 10 }));
    assert_eq!(c.resolve(a), None);
    assert!(!c.is_pending(a));
    assert!(c.is_pending(b));
    assert_eq!(c.resolve(b), Some(PendingRequest { id: b, issued_at: 20 }));
    assert_eq!(c.pending_count(), 0);
}

#[test]
fn ids_are_not_reused_after_a_request_has_ended() {
    let mut c = RequestCorrelator::new(5_000);
    let a = c.register(0).unwrap();
    c.resolve(a);
    let b = c.register(0).unwrap();
    c.fail_all();
    let d = c.register(0).unwrap();
    assert_eq!((a, b, d), (0, 1, 2));
}

#[test]
fn requests_time_out_once_they_have_waited_for_the_timeout() {
    let mut c = RequestCorrelator::new(1_000);
    let a = c.register(100).unwrap();
    let b = c.register(600).unwrap();
    let d = c.register(150).unwrap();
    assert_eq!(c.expire(1_099), Vec::<u64>::new());
    assert_eq!(c.expire(1_100), vec![a]);
    assert_eq!(c.resolve(a), None);
    assert_eq!(c.expire(1_599), vec![d]);
    assert!(c.is_pending(b));
    assert_eq!(c.expire(1_600), vec![b]);
    assert_eq!(c.pending_count(), 0);
}

#[test]
fn clock_that_goes_backwards_times_nothing_out() {
    let mut c = RequestCorrelator::new(1_000);
    let a = c.register(5_000).unwrap();
    assert_eq!(c.expire(0), Vec::<u64>::new());
    assert!(c.is_pending(a));
    let mut zero = RequestCorrelator::new(0);
    let z = zero.register(5_000).unwrap();
    assert_eq!(zero.expire(0), vec![z]);
}

#[test]
fn losing_the_connection_fails_every_request_in_flight() {
    let mut c = RequestCorrelator::new(1_000);
    let a = c.register(0).unwrap();
    let b = c.register(0).unwrap();
    let d = c.register(0).unwrap();
    c.resolve(b);
    assert_eq!(c.fail_all(), vec![a, d]);
    assert_eq!(c.pending_count(), 0);
    assert_eq!(c.fail_all(), Vec::<u64>::new());
}
