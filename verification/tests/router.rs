use hyperliquid_rust_sdk::{
    classify, Address, AllMids, Candle, Channel, L2Book, Message, MessageRouter, Notification,
    OrderUpdates, PostResponse, PostResponseData, PostResponseDataResponse, PostResponsePayload,
    PostResponsePayloadResponse, Route, Subscription, Trades, UserFills, WebData2,
};

fn book(coin: &str) -> Subscription {
    Subscription::L2Book { coin: coin.to_string() }
}

fn book_frame(coin: &str) -> Message {
    Message::L2Book(L2Book { coin: coin.to_string(), data: "{\"levels\":[[],[]]}".to_string() })
}

fn post(id: u64) -> Message {
    Message::Post(PostResponse {
        channel: "post".to_string(),
        data: PostResponseData {
            id,
            response: PostResponseDataResponse {
                response_type: "action".to_string(),
                payload: PostResponsePayload {
                    status: "ok".to_string(),
                    response: PostResponsePayloadResponse {
                        response_type: "order".to_string(),
                        data: None,
                    },
                },
            },
        },
    })
}

#[test]
fn book_frame_goes_to_the_subscriber_of_its_coin_only() {
    let mut r = MessageRouter::new();
    let btc = r.add(&book("BTC")).unwrap();
    let eth = r.add(&book("ETH")).unwrap();
    assert_ne!(btc, eth);
    assert_eq!(r.dispatch(&book_frame("BTC")), Route::Deliver(vec![btc]));
    assert_eq!(r.dispatch(&book_frame("ETH")), Route::Deliver(vec![eth]));
    assert_eq!(r.dispatch(&book_frame("SOL")), Route::Deliver(vec![]));
}

#[test]
fn every_subscriber_of_a_feed_receives_in_subscription_order() {
    let mut r = MessageRouter::new();
    let a = r.add(&book("BTC")).unwrap();
    let _t = r.add(&Subscription::Trades { coin: "BTC".to_string() }).unwrap();
    let b = r.add(&book("BTC")).unwrap();
    assert_eq!(r.dispatch(&book_frame("BTC")), Route::Deliver(vec![a, b]));
    assert_eq!(r.remove(a), Some(book("BTC")));
    assert_eq!(r.dispatch(&book_frame("BTC")), Route::Deliver(vec![b]));
    assert!(r.has_feed(&book("BTC")));
    assert_eq!(r.remove(a), None);
    assert_eq!(r.remove(b), Some(book("BTC")));
    assert!(!r.has_feed(&book("BTC")));
    assert_eq!(r.subscriber_count(), 1);
}

#[test]
fn control_frames_have_their_own_routes() {
    let mut r = MessageRouter::new();
    r.add(&Subscription::AllMids).unwrap();
    assert_eq!(r.dispatch(&post(41)), Route::Response(41));
    assert_eq!(r.dispatch(&Message::Pong), Route::Liveness);
    assert_eq!(r.dispatch(&Message::SubscriptionResponse), Route::Acknowledged);
    assert_eq!(r.dispatch(&Message::HyperliquidError("boom".to_string())), Route::Fault);
    assert_eq!(r.dispatch(&Message::NoData), Route::Dropped);
    assert_eq!(r.dispatch(&Message::Unknown("newChannel".to_string())), Route::Dropped);
}

#[test]
fn data_frames_are_matched_by_kind_and_key() {
    let user = Address::new([1u8; 20]);
    let other = Address::new([2u8; 20]);
    let mut r = MessageRouter::new();
    let mids = r.add(&Subscription::AllMids).unwrap();
    let fills = r.add(&Subscription::UserFills { user }).unwrap();
    let orders = r.add(&Subscription::OrderUpdates { user }).unwrap();
    let candle =
        r.add(&Subscription::Candle { coin: "BTC".to_string(), interval: "1m".to_string() }).unwrap();
    let trades = r.add(&Subscription::Trades { coin: "ETH".to_string() }).unwrap();
    let web = r.add(&Subscription::WebData2 { user, dex: None }).unwrap();
    let note = r.add(&Subscription::Notification { user }).unwrap();
    let d = "{}".to_string();
    assert_eq!(r.dispatch(&Message::AllMids(AllMids { data: d.clone() })), Route::Deliver(vec![mids]));
    assert_eq!(
        r.dispatch(&Message::UserFills(UserFills { user, data: d.clone() })),
        Route::Deliver(vec![fills])
    );
    assert_eq!(
        r.dispatch(&Message::UserFills(UserFills { user: other, data: d.clone() })),
        Route::Deliver(vec![])
    );
    assert_eq!(
        r.dispatch(&Message::OrderUpdates(OrderUpdates { data: d.clone() })),
        Route::Deliver(vec![orders])
    );
    assert_eq!(
        r.dispatch(&Message::Candle(Candle {
            coin: "BTC".to_string(),
            interval: "1m".to_string(),
            data: d.clone()
        })),
        Route::Deliver(vec![candle])
    );
    assert_eq!(
        r.dispatch(&Message::Candle(Candle {
            coin: "BTC".to_string(),
            interval: "5m".to_string(),
            data: d.clone()
        })),
        Route::Deliver(vec![])
    );
    assert_eq!(
        r.dispatch(&Message::Trades(Trades { coin: Some("ETH".to_string()), data: d.clone() })),
        Route::Deliver(vec![trades])
    );
    assert_eq!(
        r.dispatch(&Message::Trades(Trades { coin: None, data: d.clone() })),
        Route::Deliver(vec![])
    );
    assert_eq!(
        r.dispatch(&Message::WebData2(WebData2 { user, dex: None, data: d.clone() })),
        Route::Deliver(vec![web])
    );
    assert_eq!(
        r.dispatch(&Message::WebData2(WebData2 {
            user,
            dex: Some("x".to_string()),
            data: d.clone()
        })),
        Route::Deliver(vec![])
    );
    assert_eq!(
        r.dispatch(&Message::Notification(Notification { data: d.clone() })),
        Route::Deliver(vec![note])
    );
}

#[test]
fn tags_name_their_channels() {
    let known = [
        ("noData", Channel::NoData),
        ("hyperliquidError", Channel::HyperliquidError),
        ("allMids", Channel::AllMids),
        ("trades", Channel::Trades),
        ("l2Book", Channel::L2Book),
        ("bbo", Channel::Bbo),
        ("user", Channel::User),
        ("userFills", Channel::UserFills),
        ("candle", Channel::Candle),
        ("clearinghouseState", Channel::ClearinghouseState),
        ("subscriptionResponse", Channel::SubscriptionResponse),
        ("orderUpdates", Channel::OrderUpdates),
        ("userFundings", Channel::UserFundings),
        ("userNonFundingLedgerUpdates", Channel::UserNonFundingLedgerUpdates),
        ("notification", Channel::Notification),
        ("webData2", Channel::WebData2),
        ("activeAssetCtx", Channel::ActiveAssetCtx),
        ("pong", Channel::Pong),
        ("post", Channel::Post),
    ];
    for (tag, channel) in known {
        assert_eq!(classify(tag), channel);
    }
}

#[test]
fn unrecognised_tag_is_unknown() {
    assert_eq!(classify("somethingNew"), Channel::Unknown);
    assert_eq!(classify(""), Channel::Unknown);
    assert_eq!(classify("L2Book"), Channel::Unknown);
    assert_eq!(classify("pong "), Channel::Unknown);
}
