use hyperliquid_rust_sdk::{
    Action, ActionSigner, Address, Backoff, Beat, CancelRequest, ChainContext, ConnectionState,
    Error, ExchangeSession, FilledStatus, Handled, Heartbeat, L2Book, Message, OrderRequest,
    OrderStatus, OutboundFrame, PostResponse, PostResponseData, PostResponseDataResponse,
    PostResponsePayload, PostResponsePayloadData, PostResponsePayloadResponse,
    PostResponseStatus, RequestError, SessionConfig, SigningError, SigningIdentity, Subscription,
    TimeInForce,
};

fn key() -> [u8; 32] {
    let mut k = [0u8; 32];
    k[31] = 5;
    k
}

fn config() -> SessionConfig {
    SessionConfig {
        context: ChainContext { chain_id: 1337, verifying_contract: Address::zero() },
        vault_address: None,
        request_timeout_ms: 5_000,
        backoff: Backoff { base_ms: 250, cap_ms: 8_000 },
        heartbeat: Heartbeat { interval_ms: 50_000, timeout_ms: 10_000 },
    }
}

fn session() -> ExchangeSession {
    ExchangeSession::new(SigningIdentity::from_key(key()).unwrap(), config())
}

fn connected() -> ExchangeSession {
    let mut s = session();
    assert_eq!(s.connect(), Ok(true));
    assert_eq!(s.opened(1_000), vec![]);
    s
}

fn place_order() -> Action {
    Action::PlaceOrder(OrderRequest {
        asset: Some(0),
        is_buy: true,
        limit_px: "30000".to_string(),
        sz: "1.0".to_string(),
        reduce_only: false,
        tif: TimeInForce::Gtc,
        cloid: None,
    })
}

fn response(id: u64, status: &str, statuses: Option<Vec<PostResponseStatus>>) -> Message {
    Message::Post(PostResponse {
        channel: "post".to_string(),
        data: PostResponseData {
            id,
            response: PostResponseDataResponse {
                response_type: "action".to_string(),
                payload: PostResponsePayload {
                    status: status.to_string(),
                    response: PostResponsePayloadResponse {
                        response_type: "order".to_string(),
                        data: statuses.map(|statuses| PostResponsePayloadData { statuses }),
                    },
                },
            },
        },
    })
}

fn fill() -> FilledStatus {
    FilledStatus { total_sz: "1.0".to_string(), avg_px: "30000".to_string(), oid: 12345 }
}

fn book(coin: &str) -> Subscription {
    Subscription::L2Book { coin: coin.to_string() }
}

#[test]
fn submitted_order_resolves_with_the_fill_of_its_response() {
    let mut s = connected();
    let submission = s.submit_action(place_order(), None, 1_700_000_000_000).unwrap();
    assert_eq!(submission.id, 0);
    assert_eq!(submission.request.action, place_order());
    assert_eq!(submission.request.nonce, 1_700_000_000_000);
    assert_eq!(submission.request.vault_address, None);
    assert_eq!(submission.request.expires_after, None);
    let signer = ActionSigner::new(config().context);
    let identity = SigningIdentity::from_key(key()).unwrap();
    assert_eq!(
        Ok(submission.request.signature),
        signer.sign(&place_order(), 1_700_000_000_000, None, &identity)
    );
    assert!(s.is_pending(0));
    let answer =
        response(0, "ok", Some(vec![PostResponseStatus { error: None, filled: Some(fill()) }]));
    assert_eq!(
        s.handle_message(&answer),
        Handled::Resolved { id: 0, outcome: Ok(vec![OrderStatus::Filled(fill())]) }
    );
    assert_eq!(s.pending_count(), 0);
    assert_eq!(s.handle_message(&answer), Handled::Discarded);
}

#[test]
fn orders_of_one_request_fare_independently() {
    let mut s = connected();
    let id = s.submit_action(place_order(), None, 5).unwrap().id;
    let answer = response(
        id,
        "ok",
        Some(vec![
            PostResponseStatus { error: None, filled: Some(fill()) },
            PostResponseStatus { error: Some("Insufficient margin".to_string()), filled: None },
            PostResponseStatus { error: None, filled: None },
            PostResponseStatus { error: Some("bad".to_string()), filled: Some(fill()) },
        ]),
    );
    assert_eq!(
        s.handle_message(&answer),
        Handled::Resolved {
            id,
            outcome: Ok(vec![
                OrderStatus::Filled(fill()),
                OrderStatus::Error("Insufficient margin".to_string()),
                OrderStatus::Resting,
                OrderStatus::Error("bad".to_string()),
            ])
        }
    );
}

#[test]
fn refused_request_resolves_with_an_exchange_error() {
    let mut s = connected();
    let id = s.submit_action(place_order(), None, 5).unwrap().id;
    assert_eq!(
        s.handle_message(&response(id, "err", None)),
        Handled::Resolved { id, outcome: Err(Error::Exchange("err".to_string())) }
    );
    let id = s.submit_action(place_order(), None, 5).unwrap().id;
    assert_eq!(
        s.handle_message(&response(id, "ok", None)),
        Handled::Resolved { id, outcome: Ok(vec![]) }
    );
}

#[test]
fn book_frame_is_delivered_to_the_subscriber_of_its_coin_only() {
    let mut s = connected();
    let btc = s.subscribe(&book("BTC")).unwrap();
    let eth = s.subscribe(&book("ETH")).unwrap();
    assert!(btc.send_now);
    assert!(eth.send_now);
    let frame = Message::L2Book(L2Book { coin: "BTC".to_string(), data: "{}".to_string() });
    assert_eq!(s.handle_message(&frame), Handled::Deliver(vec![btc.subscriber]));
}

#[test]
fn request_without_response_times_out_and_a_late_response_is_discarded() {
    let mut s = connected();
    let a = s.submit_action(place_order(), None, 10_000).unwrap().id;
    let b = s.submit_action(place_order(), None, 12_000).unwrap().id;
    let tick = s.tick(14_999);
    assert_eq!((tick.timed_out, tick.beat, tick.lost), (vec![], Beat::Idle, vec![]));
    let tick = s.tick(15_000);
    assert_eq!((tick.timed_out, tick.beat, tick.lost), (vec![a], Beat::Idle, vec![]));
    assert!(!s.is_pending(a));
    assert!(s.is_pending(b));
    let late =
        response(a, "ok", Some(vec![PostResponseStatus { error: None, filled: Some(fill()) }]));
    assert_eq!(s.handle_message(&late), Handled::Discarded);
    assert!(s.is_pending(b));
    assert_eq!(s.current_state(), ConnectionState::Connected);
}

#[test]
fn two_submissions_get_distinct_ids_and_increasing_nonces() {
    let mut s = connected();
    let a = s.submit_action(place_order(), None, 77).unwrap();
    let b = s.submit_action(place_order(), None, 77).unwrap();
    assert_ne!(a.id, b.id);
    assert_eq!((a.request.nonce, b.request.nonce), (77, 78));
    assert_ne!(a.request.signature, b.request.signature);
    assert_eq!(s.handle_message(&response(99, "ok", None)), Handled::Discarded);
    assert_eq!(s.pending_count(), 2);
}

#[test]
fn losing_the_connection_fails_the_requests_in_flight_and_keeps_the_feeds() {
    let mut s = connected();
    let subs = vec![book("BTC"), Subscription::AllMids, book("ETH")];
    for sub in &subs {
        s.subscribe(sub).unwrap();
    }
    let a = s.submit_action(place_order(), None, 5).unwrap().id;
    let b = s.submit_action(place_order(), None, 6).unwrap().id;
    assert_eq!(s.connection_lost(), vec![a, b]);
    assert_eq!(s.current_state(), ConnectionState::Disconnected);
    assert_eq!(
        s.submit_action(place_order(), None, 7),
        Err(Error::Request(RequestError::ConnectionLost))
    );
    assert_eq!(s.connect(), Ok(true));
    assert_eq!(s.open_failed(), Some(250));
    assert_eq!(s.open_failed(), Some(500));
    assert_eq!(s.opened(9_000), subs);
    assert_eq!(s.submit_action(place_order(), None, 7).unwrap().id, 2);
}

#[test]
fn silent_connection_is_given_up_by_the_heartbeat() {
    let mut s = connected();
    let a = s.submit_action(place_order(), None, 50_000).unwrap().id;
    let tick = s.tick(51_000);
    assert_eq!((tick.timed_out, tick.beat, tick.lost), (vec![], Beat::SendPing, vec![]));
    assert_eq!(s.handle_message(&Message::Pong), Handled::Alive);
    let tick = s.tick(101_000);
    assert_eq!((tick.timed_out, tick.beat, tick.lost), (vec![a], Beat::SendPing, vec![]));
    let b = s.submit_action(place_order(), None, 110_000).unwrap().id;
    let tick = s.tick(111_000);
    assert_eq!((tick.timed_out, tick.beat, tick.lost), (vec![], Beat::Lost, vec![b]));
    assert_eq!(s.current_state(), ConnectionState::Disconnected);
    assert_eq!(s.pending_count(), 0);
}

#[test]
fn faulty_action_spends_the_nonce_and_enters_no_request() {
    let mut s = connected();
    let bad = Action::CancelOrder(CancelRequest { asset: None, oid: 3 });
    assert_eq!(
        s.submit_action(bad, None, 100),
        Err(Error::Signing(SigningError::MissingAsset))
    );
    assert_eq!(s.pending_count(), 0);
    let next = s.submit_action(place_order(), None, 100).unwrap();
    assert_eq!(next.request.nonce, 101);
    assert_eq!(next.id, 0);
}

#[test]
fn cancelled_request_leaves_the_books() {
    let mut s = connected();
    let a = s.submit_action(place_order(), None, 1).unwrap().id;
    assert!(s.cancel(a));
    assert!(!s.cancel(a));
    assert_eq!(s.handle_message(&response(a, "ok", None)), Handled::Discarded);
}

#[test]
fn feed_is_given_up_with_its_last_subscriber() {
    let mut s = connected();
    let a = s.subscribe(&book("BTC")).unwrap();
    let b = s.subscribe(&book("BTC")).unwrap();
    assert!(a.send_now);
    assert!(!b.send_now);
    assert_ne!(a.subscriber, b.subscriber);
    assert_eq!(s.unsubscribe(a.subscriber), Ok(None));
    assert_eq!(s.unsubscribe(a.subscriber), Ok(None));
    assert_eq!(s.unsubscribe(b.subscriber), Ok(Some(book("BTC"))));
    let frame = Message::L2Book(L2Book { coin: "BTC".to_string(), data: "{}".to_string() });
    assert_eq!(s.handle_message(&frame), Handled::Deliver(vec![]));
    s.connection_lost();
    let c = s.subscribe(&book("ETH")).unwrap();
    assert!(!c.send_now);
    assert_eq!(s.unsubscribe(c.subscriber), Ok(None));
    s.connect().unwrap();
    assert_eq!(s.opened(5), vec![]);
}

#[test]
fn closed_session_fails_fast() {
    let mut s = connected();
    let sub = s.subscribe(&book("BTC")).unwrap();
    let a = s.submit_action(place_order(), None, 1).unwrap().id;
    let shutdown = s.close();
    assert!(shutdown.had_socket);
    assert_eq!(shutdown.failed, vec![a]);
    assert_eq!(s.current_state(), ConnectionState::Closed);
    assert_eq!(s.submit_action(place_order(), None, 2), Err(Error::SessionClosed));
    assert_eq!(s.sign_action(place_order(), None, 2), Err(Error::SessionClosed));
    assert_eq!(s.subscribe(&book("ETH")), Err(Error::SessionClosed));
    assert_eq!(s.unsubscribe(sub.subscriber), Err(Error::SessionClosed));
    assert_eq!(s.connect(), Err(Error::SessionClosed));
    assert_eq!(s.opened(3), vec![]);
    assert_eq!(s.open_failed(), None);
    let again = s.close();
    assert!(!again.had_socket);
    assert_eq!(again.failed, Vec::<u64>::new());
}

#[test]
fn envelope_for_rest_carries_the_vault_and_enters_no_request() {
    let vault = Address::new([0x33u8; 20]);
    let mut cfg = config();
    cfg.vault_address = Some(vault);
    let mut s = ExchangeSession::new(SigningIdentity::from_key(key()).unwrap(), cfg);
    let envelope = s.sign_action(place_order(), Some(500), 400).unwrap();
    assert_eq!(envelope.nonce, 400);
    assert_eq!(envelope.vault_address, Some(vault));
    assert_eq!(envelope.expires_after, Some(500));
    assert_eq!(s.pending_count(), 0);
    let proxied = ActionSigner::with_proxy(cfg.context, vault);
    let identity = SigningIdentity::from_key(key()).unwrap();
    assert_eq!(Ok(envelope.signature), proxied.sign(&place_order(), 400, Some(500), &identity));
    assert_eq!(s.address(), identity.address());
}

#[test]
fn post_frame_of_a_submission_is_exact() {
    let mut s = connected();
    let submission = s.submit_action(place_order(), None, 1_700_000_000_000).unwrap();
    let signature = submission.request.signature;
    let frame = OutboundFrame::Post { id: submission.id, request: submission.request };
    let text = String::from_utf8(frame.render().unwrap()).unwrap();
    let hex = |bytes: &[u8]| bytes.iter().map(|b| format!("{:02x}", b)).collect::<String>();
    let expected = format!(
        "{{\"method\":\"post\",\"id\":0,\"request\":{{\"type\":\"action\",\"payload\":{{\"action\":{{\"type\":\"order\",\"asset\":0,\"isBuy\":true,\"limitPx\":\"30000\",\"sz\":\"1.0\",\"reduceOnly\":false,\"tif\":\"Gtc\"}},\"nonce\":1700000000000,\"signature\":{{\"r\":\"0x{}\",\"s\":\"0x{}\",\"v\":{}}}}}}}}}",
        hex(&signature.r),
        hex(&signature.s),
        signature.v
    );
    assert_eq!(text, expected);
}

#[test]
fn clock_that_has_run_out_refuses_further_submissions() {
    let mut s = connected();
    let last = s.submit_action(place_order(), None, u64::MAX).unwrap();
    assert_eq!(last.request.nonce, u64::MAX);
    assert_eq!(s.submit_action(place_order(), None, 5), Err(Error::NonceExhausted));
    assert_eq!(s.sign_action(place_order(), None, 5), Err(Error::NonceExhausted));
    assert_eq!(s.pending_count(), 1);
}

#[test]
fn tick_while_disconnected_does_nothing() {
    let mut s = session();
    let tick = s.tick(1_000_000);
    assert_eq!((tick.timed_out, tick.beat, tick.lost), (vec![], Beat::Idle, vec![]));
    assert_eq!(s.current_state(), ConnectionState::Disconnected);
    assert_eq!(s.connection_lost(), Vec::<u64>::new());
}
