use hyperliquid_rust_sdk::{
    Address, Backoff, Beat, ConnectionState, Error, Heartbeat, Subscription, WsTransport,
};

fn transport() -> WsTransport {
    WsTransport::new(
        Backoff { base_ms: 100, cap_ms: 1_000 },
        Heartbeat { interval_ms: 50_000, timeout_ms: 10_000 },
    )
}

fn book(coin: &str) -> Subscription {
    Subscription::L2Book { coin: coin.to_string() }
}

#[test]
fn three_subscriptions_are_replayed_once_each_in_order_after_a_reconnect() {
    let mut t = transport();
    let user = Address::new([7u8; 20]);
    let subs = vec![book("BTC"), Subscription::AllMids, Subscription::UserFills { user }];
    assert_eq!(t.connect(), Ok(true));
    assert_eq!(t.opened(0), vec![]);
    for s in &subs {
        assert_eq!(t.subscribe(s), Ok(true));
    }
    assert!(t.lost());
    assert_eq!(t.current_state(), ConnectionState::Disconnected);
    assert_eq!(t.subscription_count(), 3);
    assert_eq!(t.connect(), Ok(true));
    assert_eq!(t.current_state(), ConnectionState::Connecting);
    let replay = t.opened(1_000);
    assert_eq!(replay, subs);
    assert_eq!(t.current_state(), ConnectionState::Connected);
    assert_eq!(t.opened(2_000), vec![]);
}

#[test]
fn subscription_made_while_disconnected_waits_for_the_connection() {
    let mut t = transport();
    assert_eq!(t.subscribe(&book("ETH")), Ok(false));
    assert_eq!(t.subscribe(&book("BTC")), Ok(false));
    assert_eq!(t.connect(), Ok(true));
    assert_eq!(t.subscribe(&book("SOL")), Ok(false));
    assert_eq!(t.opened(5), vec![book("ETH"), book("BTC"), book("SOL")]);
}

#[test]
fn duplicate_subscription_is_kept_once() {
    let mut t = transport();
    t.connect().unwrap();
    t.opened(0);
    assert_eq!(t.subscribe(&book("BTC")), Ok(true));
    assert_eq!(t.subscribe(&book("BTC")), Ok(false));
    assert_eq!(t.subscription_count(), 1);
    assert!(t.is_subscribed(&book("BTC")));
    assert!(!t.is_subscribed(&book("ETH")));
    let other = Subscription::Trades { coin: "BTC".to_string() };
    assert_eq!(t.subscribe(&other), Ok(true));
    assert_eq!(t.subscription_count(), 2);
}

#[test]
fn unsubscribe_removes_and_is_a_no_op_for_an_unknown_feed() {
    let mut t = transport();
    t.connect().unwrap();
    t.opened(0);
    t.subscribe(&book("BTC")).unwrap();
    t.subscribe(&book("ETH")).unwrap();
    t.subscribe(&book("SOL")).unwrap();
    assert_eq!(t.unsubscribe(&book("DOGE")), Ok(false));
    assert_eq!(t.subscription_count(), 3);
    assert_eq!(t.unsubscribe(&book("ETH")), Ok(true));
    assert_eq!(t.unsubscribe(&book("ETH")), Ok(false));
    t.lost();
    assert_eq!(t.unsubscribe(&book("SOL")), Ok(false));
    t.connect().unwrap();
    assert_eq!(t.opened(9), vec![book("BTC")]);
}

#[test]
fn backoff_doubles_up_to_the_cap() {
    let mut t = transport();
    t.connect().unwrap();
    let waits: Vec<Option<u64>> = (0..7).map(|_| t.open_failed()).collect();
    assert_eq!(
        waits,
        vec![Some(100), Some(200), Some(400), Some(800), Some(1_000), Some(1_000), Some(1_000)]
    );
    assert_eq!(t.current_state(), ConnectionState::Connecting);
    t.opened(0);
    t.lost();
    t.connect().unwrap();
    assert_eq!(t.open_failed(), Some(100));
}

#[test]
fn backoff_delay_edge_cases() {
    assert_eq!(Backoff { base_ms: 0, cap_ms: 500 }.delay_after(40), 0);
    assert_eq!(Backoff { base_ms: 700, cap_ms: 500 }.delay_after(0), 500);
    assert_eq!(Backoff { base_ms: 3, cap_ms: u64::MAX }.delay_after(2), 12);
    assert_eq!(Backoff { base_ms: 1, cap_ms: u64::MAX }.delay_after(63), 1u64 << 63);
    assert_eq!(Backoff { base_ms: 1, cap_ms: u64::MAX }.delay_after(64), u64::MAX);
    assert_eq!(Backoff { base_ms: 1, cap_ms: u64::MAX }.delay_after(u32::MAX), u64::MAX);
    assert_eq!(Backoff { base_ms: 5, cap_ms: 5 }.delay_after(3), 5);
}

#[test]
fn open_failed_is_out_of_place_unless_connecting() {
    let mut t = transport();
    assert_eq!(t.open_failed(), None);
    t.connect().unwrap();
    t.opened(0);
    assert_eq!(t.open_failed(), None);
    assert_eq!(t.current_state(), ConnectionState::Connected);
}

#[test]
fn heartbeat_pings_on_the_interval_and_gives_up_after_the_timeout() {
    let mut t = transport();
    assert_eq!(t.beat(1_000_000), Beat::Idle);
    t.connect().unwrap();
    t.opened(1_000);
    assert_eq!(t.beat(50_999), Beat::Idle);
    assert_eq!(t.beat(51_000), Beat::SendPing);
    assert_eq!(t.beat(60_999), Beat::Idle);
    t.pong();
    assert_eq!(t.beat(100_999), Beat::Idle);
    assert_eq!(t.beat(101_000), Beat::SendPing);
    assert_eq!(t.beat(90_000), Beat::Idle);
    assert_eq!(t.beat(110_999), Beat::Idle);
    assert_eq!(t.beat(111_000), Beat::Lost);
    assert_eq!(t.current_state(), ConnectionState::Disconnected);
    assert_eq!(t.beat(999_999), Beat::Idle);
}

#[test]
fn closed_transport_fails_fast_and_stays_closed() {
    let mut t = transport();
    t.connect().unwrap();
    t.subscribe(&book("BTC")).unwrap();
    assert!(t.close());
    assert!(t.is_closed());
    assert_eq!(t.connect(), Err(Error::SessionClosed));
    assert_eq!(t.subscribe(&book("ETH")), Err(Error::SessionClosed));
    assert_eq!(t.unsubscribe(&book("BTC")), Err(Error::SessionClosed));
    assert_eq!(t.subscription_count(), 1);
    assert_eq!(t.opened(5), vec![]);
    assert!(!t.lost());
    assert!(t.is_closed());
    assert!(!t.close());
}

#[test]
fn connect_is_idempotent_while_connecting_or_connected() {
    let mut t = transport();
    assert_eq!(t.connect(), Ok(true));
    assert_eq!(t.connect(), Ok(false));
    t.opened(0);
    assert_eq!(t.connect(), Ok(false));
    assert!(t.is_connected());
    assert!(t.lost());
}
