use hyperliquid_rust_sdk::{
    decode_response, write_action, write_envelope, write_feed, Action, Address, CancelRequest,
    Error, ModifyRequest, OrderRequest, OutboundFrame, PostResponse, PostResponseData,
    PostResponseDataResponse, PostResponsePayload, PostResponsePayloadResponse,
    ReserveRequestWeight, Signature, SignedRequestBuilder, SigningError, Subscription,
    TimeInForce, UpdateLeverage,
};

fn text(bytes: Vec<u8>) -> String {
    String::from_utf8(bytes).unwrap()
}

fn user() -> Address {
    let mut bytes = [0u8; 20];
    for (i, b) in bytes.iter_mut().enumerate() {
        *b = 0xa0 + i as u8;
    }
    Address::new(bytes)
}

const USER: &str = "0xa0a1a2a3a4a5a6a7a8a9aaabacadaeafb0b1b2b3";

fn order() -> OrderRequest {
    OrderRequest {
        asset: Some(12),
        is_buy: false,
        limit_px: "0.5".to_string(),
        sz: "100".to_string(),
        reduce_only: true,
        tif: TimeInForce::Ioc,
        cloid: Some(0xdead_beef),
    }
}

#[test]
fn subscribe_frame_for_a_book_is_exact() {
    let frame = OutboundFrame::Subscribe(Subscription::L2Book { coin: "BTC".to_string() });
    assert_eq!(
        text(frame.render().unwrap()),
        "{\"method\":\"subscribe\",\"subscription\":{\"type\":\"l2Book\",\"coin\":\"BTC\"}}"
    );
    let frame = OutboundFrame::Unsubscribe(Subscription::AllMids);
    assert_eq!(
        text(frame.render().unwrap()),
        "{\"method\":\"unsubscribe\",\"subscription\":{\"type\":\"allMids\"}}"
    );
    assert_eq!(text(OutboundFrame::Ping.render().unwrap()), "{\"method\":\"ping\"}");
}

#[test]
fn feeds_are_written_with_their_kind_and_keys() {
    let cases: Vec<(Subscription, String)> = vec![
        (Subscription::AllMids, "{\"type\":\"allMids\"}".to_string()),
        (
            Subscription::Notification { user: user() },
            format!("{{\"type\":\"notification\",\"user\":\"{USER}\"}}"),
        ),
        (
            Subscription::WebData2 { user: user(), dex: None },
            format!("{{\"type\":\"webData2\",\"user\":\"{USER}\",\"dex\":null}}"),
        ),
        (
            Subscription::ClearinghouseState { user: user(), dex: Some("flx".to_string()) },
            format!("{{\"type\":\"clearinghouseState\",\"user\":\"{USER}\",\"dex\":\"flx\"}}"),
        ),
        (
            Subscription::Candle { coin: "ETH".to_string(), interval: "15m".to_string() },
            "{\"type\":\"candle\",\"coin\":\"ETH\",\"interval\":\"15m\"}".to_string(),
        ),
        (
            Subscription::Bbo { coin: "ETH".to_string() },
            "{\"type\":\"bbo\",\"coin\":\"ETH\"}".to_string(),
        ),
        (
            Subscription::Trades { coin: "@1".to_string() },
            "{\"type\":\"trades\",\"coin\":\"@1\"}".to_string(),
        ),
        (
            Subscription::OrderUpdates { user: user() },
            format!("{{\"type\":\"orderUpdates\",\"user\":\"{USER}\"}}"),
        ),
        (
            Subscription::UserEvents { user: user() },
            format!("{{\"type\":\"userEvents\",\"user\":\"{USER}\"}}"),
        ),
        (
            Subscription::UserFills { user: user() },
            format!("{{\"type\":\"userFills\",\"user\":\"{USER}\"}}"),
        ),
        (
            Subscription::UserFundings { user: user() },
            format!("{{\"type\":\"userFundings\",\"user\":\"{USER}\"}}"),
        ),
        (
            Subscription::UserNonFundingLedgerUpdates { user: user() },
            format!("{{\"type\":\"userNonFundingLedgerUpdates\",\"user\":\"{USER}\"}}"),
        ),
        (
            Subscription::ActiveAssetCtx { coin: "BTC".to_string() },
            "{\"type\":\"activeAssetCtx\",\"coin\":\"BTC\"}".to_string(),
        ),
    ];
    for (feed, expected) in cases {
        assert_eq!(text(write_feed(&feed)), expected);
    }
}

#[test]
fn text_is_escaped_as_json_asks() {
    let coin = "a\"b\\c\n\r\t\u{8}\u{c}\u{1}\u{1f} é/\u{7f}".to_string();
    let written = text(write_feed(&Subscription::L2Book { coin: coin.clone() }));
    assert_eq!(
        written,
        "{\"type\":\"l2Book\",\"coin\":\"a\\\"b\\\\c\\n\\r\\t\\b\\f\\u0001\\u001f é/\u{7f}\"}"
    );
    let parsed: serde_json::Value = serde_json::from_str(&written).unwrap();
    assert_eq!(parsed["coin"].as_str(), Some(coin.as_str()));
}

#[test]
fn actions_are_written_with_their_fields_in_order() {
    assert_eq!(
        text(write_action(&Action::PlaceOrder(order()))),
        "{\"type\":\"order\",\"asset\":12,\"isBuy\":false,\"limitPx\":\"0.5\",\"sz\":\"100\",\"reduceOnly\":true,\"tif\":\"Ioc\",\"cloid\":\"0x000000000000000000000000deadbeef\"}"
    );
    assert_eq!(
        text(write_action(&Action::CancelOrder(CancelRequest { asset: Some(0), oid: u64::MAX }))),
        "{\"type\":\"cancel\",\"asset\":0,\"oid\":18446744073709551615}"
    );
    let mut plain = order();
    plain.cloid = None;
    plain.tif = TimeInForce::Alo;
    assert_eq!(
        text(write_action(&Action::ModifyOrder(ModifyRequest { oid: 10, order: plain }))),
        "{\"type\":\"modify\",\"oid\":10,\"order\":{\"asset\":12,\"isBuy\":false,\"limitPx\":\"0.5\",\"sz\":\"100\",\"reduceOnly\":true,\"tif\":\"Alo\"}}"
    );
    assert_eq!(
        text(write_action(&Action::UpdateLeverage(UpdateLeverage {
            asset: Some(4294967295),
            is_cross: true,
            leverage: 109
        }))),
        "{\"type\":\"updateLeverage\",\"asset\":4294967295,\"isCross\":true,\"leverage\":109}"
    );
    assert_eq!(
        text(write_action(&Action::ReserveRequestWeight(ReserveRequestWeight { weight: 1000 }))),
        "{\"type\":\"reserveRequestWeight\",\"weight\":1000}"
    );
}

#[test]
fn envelope_holds_action_nonce_signature_and_the_optional_members() {
    let mut r = [0u8; 32];
    r[0] = 0x01;
    r[31] = 0xff;
    let signature = Signature { r, s: [0x22u8; 32], v: 28 };
    let action = Action::CancelOrder(CancelRequest { asset: Some(1), oid: 2 });
    let bare = SignedRequestBuilder::new(None).build(action.clone(), 9, signature, None);
    assert_eq!(bare.action, action);
    assert_eq!(bare.nonce, 9);
    assert_eq!(bare.signature, signature);
    assert_eq!(bare.vault_address, None);
    assert_eq!(bare.expires_after, None);
    let sig = format!(
        "{{\"r\":\"0x01{}ff\",\"s\":\"0x{}\",\"v\":28}}",
        "00".repeat(30),
        "22".repeat(32)
    );
    assert_eq!(
        text(write_envelope(&bare).unwrap()),
        format!(
            "{{\"action\":{{\"type\":\"cancel\",\"asset\":1,\"oid\":2}},\"nonce\":9,\"signature\":{sig}}}"
        )
    );
    let full =
        SignedRequestBuilder::new(Some(user())).build(action.clone(), 0, signature, Some(10));
    assert_eq!(
        text(write_envelope(&full).unwrap()),
        format!(
            "{{\"action\":{{\"type\":\"cancel\",\"asset\":1,\"oid\":2}},\"nonce\":0,\"signature\":{sig},\"vaultAddress\":\"{USER}\",\"expiresAfter\":10}}"
        )
    );
    let parsed: serde_json::Value =
        serde_json::from_slice(&write_envelope(&full).unwrap()).unwrap();
    assert_eq!(parsed["signature"]["v"].as_u64(), Some(28));
    assert_eq!(parsed["expiresAfter"].as_u64(), Some(10));
}

#[test]
fn envelope_of_a_faulty_action_is_not_written() {
    let signature = Signature { r: [0u8; 32], s: [0u8; 32], v: 27 };
    let bad = Action::CancelOrder(CancelRequest { asset: None, oid: 2 });
    let envelope = SignedRequestBuilder::new(None).build(bad, 9, signature, None);
    assert_eq!(write_envelope(&envelope), Err(SigningError::MissingAsset));
    let frame = OutboundFrame::Post { id: 1, request: envelope };
    assert_eq!(frame.render(), Err(SigningError::MissingAsset));
}

#[test]
fn response_without_data_decodes_to_no_statuses() {
    let make = |status: &str| PostResponse {
        channel: "post".to_string(),
        data: PostResponseData {
            id: 3,
            response: PostResponseDataResponse {
                response_type: "action".to_string(),
                payload: PostResponsePayload {
                    status: status.to_string(),
                    response: PostResponsePayloadResponse {
                        response_type: "default".to_string(),
                        data: None,
                    },
                },
            },
        },
    };
    assert_eq!(decode_response(&make("ok")), Ok(vec![]));
    assert_eq!(decode_response(&make("OK")), Err(Error::Exchange("OK".to_string())));
    assert_eq!(decode_response(&make("")), Err(Error::Exchange("".to_string())));
}
