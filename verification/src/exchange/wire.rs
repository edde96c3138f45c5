//! The frames as they go over the wire.
//!
//! Every frame is a JSON object, written without spaces, with its members
//! in a fixed order. Addresses, signature halves and client order ids are
//! written as `0x` and lower-case hexadecimal digits; ids and nonces as
//! decimal numbers; prices and sizes as the text they were given in.

use crate::address::Address;
use crate::errors::SigningError;
use crate::exchange::actions::{
    bytes_of, schema_fault, Action, ActionFields, OrderFields, OrderRequest, TimeInForce,
};
use crate::exchange::builder::WireEnvelope;
use crate::json::{
    boolean, decimal, hex_string, put_boolean, put_decimal, put_hex_string, put_literal,
    put_string, string,
};
use crate::signature::layout::{be, put_be, put_bytes};
use crate::signature::primitives::Signature;
use crate::ws::ws_manager::{Feed, Subscription};
use vstd::prelude::*;

verus! {

/// A frame for the embedding program to send.
#[derive(Debug, Clone, PartialEq, Eq)]
pub enum OutboundFrame {
    /// Ask for a feed.
    Subscribe(Subscription),
    /// Give a feed up.
    Unsubscribe(Subscription),
    /// A ping.
    Ping,
    /// A signed action, posted under a request id.
    Post { id: u64, request: WireEnvelope },
}

/// An optional text: a JSON string, or `null`.
pub open spec fn optional_string(text: Option<Seq<char>>) -> Seq<u8> {
    match text {
        Some(text) => string(text),
        None => bytes_of("null"@),
    }
}

/// A feed as a JSON object: its kind under `type`, then its key fields.
pub open spec fn feed_json(feed: Feed) -> Seq<u8> {
    match feed {
        Feed::AllMids => bytes_of("{\"type\":\"allMids\"}"@),
        Feed::Notification { user } => bytes_of("{\"type\":\"notification\",\"user\":"@)
            + hex_string(user) + bytes_of("}"@),
        Feed::WebData2 { user, dex } => bytes_of("{\"type\":\"webData2\",\"user\":"@)
            + hex_string(user) + bytes_of(",\"dex\":"@) + optional_string(dex) + bytes_of("}"@),
        Feed::ClearinghouseState { user, dex } => bytes_of(
            "{\"type\":\"clearinghouseState\",\"user\":"@,
        ) + hex_string(user) + bytes_of(",\"dex\":"@) + optional_string(dex) + bytes_of("}"@),
        Feed::Candle { coin, interval } => bytes_of("{\"type\":\"candle\",\"coin\":"@) + string(
            coin,
        ) + bytes_of(",\"interval\":"@) + string(interval) + bytes_of("}"@),
        Feed::L2Book { coin } => bytes_of("{\"type\":\"l2Book\",\"coin\":"@) + string(coin)
            + bytes_of("}"@),
        Feed::Bbo { coin } => bytes_of("{\"type\":\"bbo\",\"coin\":"@) + string(coin) + bytes_of(
            "}"@,
        ),
        Feed::Trades { coin } => bytes_of("{\"type\":\"trades\",\"coin\":"@) + string(coin)
            + bytes_of("}"@),
        Feed::OrderUpdates { user } => bytes_of("{\"type\":\"orderUpdates\",\"user\":"@)
            + hex_string(user) + bytes_of("}"@),
        Feed::UserEvents { user } => bytes_of("{\"type\":\"userEvents\",\"user\":"@)
            + hex_string(user) + bytes_of("}"@),
        Feed::UserFills { user } => bytes_of("{\"type\":\"userFills\",\"user\":"@) + hex_string(
            user,
        ) + bytes_of("}"@),
        Feed::UserFundings { user } => bytes_of("{\"type\":\"userFundings\",\"user\":"@)
            + hex_string(user) + bytes_of("}"@),
        Feed::UserNonFundingLedgerUpdates { user } => bytes_of(
            "{\"type\":\"userNonFundingLedgerUpdates\",\"user\":"@,
        ) + hex_string(user) + bytes_of("}"@),
        Feed::ActiveAssetCtx { coin } => bytes_of("{\"type\":\"activeAssetCtx\",\"coin\":"@)
            + string(coin) + bytes_of("}"@),
    }
}

fn user_feed(opening: &str, user: &Address) -> (bytes: Vec<u8>)
    ensures
        bytes@ == bytes_of(opening@) + hex_string(user@) + bytes_of("}"@),
{
    let mut out: Vec<u8> = Vec::new();
    put_literal(&mut out, opening);
    assert(out@ =~= bytes_of(opening@));
    put_hex_string(&mut out, user.bytes.as_slice());
    put_literal(&mut out, "}");
    out
}

fn user_dex_feed(opening: &str, user: &Address, dex: &Option<String>) -> (bytes: Vec<u8>)
    ensures
        bytes@ == bytes_of(opening@) + hex_string(user@) + bytes_of(",\"dex\":"@)
            + optional_string(crate::address::opt_text(*dex)) + bytes_of("}"@),
{
    let mut out: Vec<u8> = Vec::new();
    put_literal(&mut out, opening);
    assert(out@ =~= bytes_of(opening@));
    put_hex_string(&mut out, user.bytes.as_slice());
    put_literal(&mut out, ",\"dex\":");
    match dex {
        Some(dex) => put_string(&mut out, dex.as_str()),
        None => put_literal(&mut out, "null"),
    }
    put_literal(&mut out, "}");
    out
}

fn coin_feed(opening: &str, coin: &str) -> (bytes: Vec<u8>)
    ensures
        bytes@ == bytes_of(opening@) + string(coin@) + bytes_of("}"@),
{
    let mut out: Vec<u8> = Vec::new();
    put_literal(&mut out, opening);
    assert(out@ =~= bytes_of(opening@));
    put_string(&mut out, coin);
    put_literal(&mut out, "}");
    out
}

/// Writes a feed as a JSON object.
pub fn write_feed(spec: &Subscription) -> (bytes: Vec<u8>)
    ensures
        bytes@ == feed_json(spec@),
{
    match spec {
        Subscription::AllMids => {
            let mut out: Vec<u8> = Vec::new();
            put_literal(&mut out, "{\"type\":\"allMids\"}");
            assert(out@ =~= feed_json(spec@));
            out
        },
        Subscription::Notification { user } => user_feed(
            "{\"type\":\"notification\",\"user\":",
            user,
        ),
        Subscription::WebData2 { user, dex } => user_dex_feed(
            "{\"type\":\"webData2\",\"user\":",
            user,
            dex,
        ),
        Subscription::ClearinghouseState { user, dex } => user_dex_feed(
            "{\"type\":\"clearinghouseState\",\"user\":",
            user,
            dex,
        ),
        Subscription::Candle { coin, interval } => {
            let mut out: Vec<u8> = Vec::new();
            put_literal(&mut out, "{\"type\":\"candle\",\"coin\":");
            assert(out@ =~= bytes_of("{\"type\":\"candle\",\"coin\":"@));
            put_string(&mut out, coin.as_str());
            put_literal(&mut out, ",\"interval\":");
            put_string(&mut out, interval.as_str());
            put_literal(&mut out, "}");
            out
        },
        Subscription::L2Book { coin } => coin_feed(
            "{\"type\":\"l2Book\",\"coin\":",
            coin.as_str(),
        ),
        Subscription::Bbo { coin } => coin_feed("{\"type\":\"bbo\",\"coin\":", coin.as_str()),
        Subscription::Trades { coin } => coin_feed(
            "{\"type\":\"trades\",\"coin\":",
            coin.as_str(),
        ),
        Subscription::OrderUpdates { user } => user_feed(
            "{\"type\":\"orderUpdates\",\"user\":",
            user,
        ),
        Subscription::UserEvents { user } => user_feed("{\"type\":\"userEvents\",\"user\":", user),
        Subscription::UserFills { user } => user_feed("{\"type\":\"userFills\",\"user\":", user),
        Subscription::UserFundings { user } => user_feed(
            "{\"type\":\"userFundings\",\"user\":",
            user,
        ),
        Subscription::UserNonFundingLedgerUpdates { user } => user_feed(
            "{\"type\":\"userNonFundingLedgerUpdates\",\"user\":",
            user,
        ),
        Subscription::ActiveAssetCtx { coin } => coin_feed(
            "{\"type\":\"activeAssetCtx\",\"coin\":",
            coin.as_str(),
        ),
    }
}

/// A time in force as a JSON string.
pub open spec fn tif_json(tif: TimeInForce) -> Seq<u8> {
    match tif {
        TimeInForce::Alo => bytes_of("\"Alo\""@),
        TimeInForce::Ioc => bytes_of("\"Ioc\""@),
        TimeInForce::Gtc => bytes_of("\"Gtc\""@),
    }
}

/// The member for a client order id; nothing where the order has none.
pub open spec fn cloid_json(cloid: Option<u128>) -> Seq<u8> {
    match cloid {
        Some(id) => bytes_of(",\"cloid\":"@) + hex_string(be(id as nat, 16)),
        None => Seq::empty(),
    }
}

/// The members of an order, without the braces round them.
pub open spec fn order_json(order: OrderFields) -> Seq<u8> {
    bytes_of("\"asset\":"@) + decimal(order.asset.unwrap() as nat) + bytes_of(",\"isBuy\":"@)
        + boolean(order.is_buy) + bytes_of(",\"limitPx\":"@) + string(order.limit_px) + bytes_of(
        ",\"sz\":"@,
    ) + string(order.sz) + bytes_of(",\"reduceOnly\":"@) + boolean(order.reduce_only) + bytes_of(
        ",\"tif\":"@,
    ) + tif_json(order.tif) + cloid_json(order.cloid)
}

/// An action as a JSON object: its kind under `type`, then its fields.
pub open spec fn action_json(action: ActionFields) -> Seq<u8> {
    match action {
        ActionFields::PlaceOrder { order } => bytes_of("{\"type\":\"order\","@) + order_json(
            order,
        ) + bytes_of("}"@),
        ActionFields::CancelOrder { asset, oid } => bytes_of("{\"type\":\"cancel\",\"asset\":"@)
            + decimal(asset.unwrap() as nat) + bytes_of(",\"oid\":"@) + decimal(oid as nat)
            + bytes_of("}"@),
        ActionFields::ModifyOrder { oid, order } => bytes_of("{\"type\":\"modify\",\"oid\":"@)
            + decimal(oid as nat) + bytes_of(",\"order\":{"@) + order_json(order) + bytes_of(
            "}}"@,
        ),
        ActionFields::UpdateLeverage { asset, is_cross, leverage } => bytes_of(
            "{\"type\":\"updateLeverage\",\"asset\":"@,
        ) + decimal(asset.unwrap() as nat) + bytes_of(",\"isCross\":"@) + boolean(is_cross)
            + bytes_of(",\"leverage\":"@) + decimal(leverage as nat) + bytes_of("}"@),
        ActionFields::ReserveRequestWeight { weight } => bytes_of(
            "{\"type\":\"reserveRequestWeight\",\"weight\":"@,
        ) + decimal(weight as nat) + bytes_of("}"@),
    }
}

/// A signature as a JSON object with the members `r`, `s` and `v`.
pub open spec fn signature_json(signature: (Seq<u8>, Seq<u8>, u64)) -> Seq<u8> {
    bytes_of("{\"r\":"@) + hex_string(signature.0) + bytes_of(",\"s\":"@) + hex_string(
        signature.1,
    ) + bytes_of(",\"v\":"@) + decimal(signature.2 as nat) + bytes_of("}"@)
}

/// The member for the vault address; nothing where there is none.
pub open spec fn vault_json(vault: Option<Address>) -> Seq<u8> {
    match vault {
        Some(vault) => bytes_of(",\"vaultAddress\":"@) + hex_string(vault@),
        None => Seq::empty(),
    }
}

/// The member for the expiry; nothing where there is none.
pub open spec fn expiry_json(expires_after: Option<u64>) -> Seq<u8> {
    match expires_after {
        Some(at) => bytes_of(",\"expiresAfter\":"@) + decimal(at as nat),
        None => Seq::empty(),
    }
}

/// An envelope as a JSON object: action, nonce and signature, then the
/// vault address and the expiry where there are any.
pub open spec fn envelope_json(envelope: WireEnvelope) -> Seq<u8> {
    bytes_of("{\"action\":"@) + action_json(envelope.action@) + bytes_of(",\"nonce\":"@)
        + decimal(envelope.nonce as nat) + bytes_of(",\"signature\":"@) + signature_json(
        envelope.signature@,
    ) + vault_json(envelope.vault_address) + expiry_json(envelope.expires_after) + bytes_of("}"@)
}

/// A frame as a JSON object: what to do under `method`, then what with.
pub open spec fn frame_json(frame: OutboundFrame) -> Seq<u8> {
    match frame {
        OutboundFrame::Subscribe(spec) => bytes_of(
            "{\"method\":\"subscribe\",\"subscription\":"@,
        ) + feed_json(spec@) + bytes_of("}"@),
        OutboundFrame::Unsubscribe(spec) => bytes_of(
            "{\"method\":\"unsubscribe\",\"subscription\":"@,
        ) + feed_json(spec@) + bytes_of("}"@),
        OutboundFrame::Ping => bytes_of("{\"method\":\"ping\"}"@),
        OutboundFrame::Post { id, request } => bytes_of("{\"method\":\"post\",\"id\":"@)
            + decimal(id as nat) + bytes_of(",\"request\":{\"type\":\"action\",\"payload\":"@)
            + envelope_json(request) + bytes_of("}}"@),
    }
}

/// The fault of the action that a frame posts, if it has one.
pub open spec fn frame_fault(frame: OutboundFrame) -> Option<SigningError> {
    match frame {
        OutboundFrame::Post { id, request } => schema_fault(request.action@),
        _ => None,
    }
}

fn write_order(order: &OrderRequest) -> (bytes: Vec<u8>)
    requires
        order@.asset.is_some(),
    ensures
        bytes@ == order_json(order@),
{
    let asset: u32 = match order.asset {
        Some(asset) => asset,
        None => 0,
    };
    let mut out: Vec<u8> = Vec::new();
    put_literal(&mut out, "\"asset\":");
    assert(out@ =~= bytes_of("\"asset\":"@));
    put_decimal(&mut out, asset as u64);
    put_literal(&mut out, ",\"isBuy\":");
    put_boolean(&mut out, order.is_buy);
    put_literal(&mut out, ",\"limitPx\":");
    put_string(&mut out, order.limit_px.as_str());
    put_literal(&mut out, ",\"sz\":");
    put_string(&mut out, order.sz.as_str());
    put_literal(&mut out, ",\"reduceOnly\":");
    put_boolean(&mut out, order.reduce_only);
    put_literal(&mut out, ",\"tif\":");
    match order.tif {
        TimeInForce::Alo => put_literal(&mut out, "\"Alo\""),
        TimeInForce::Ioc => put_literal(&mut out, "\"Ioc\""),
        TimeInForce::Gtc => put_literal(&mut out, "\"Gtc\""),
    }
    let ghost before = out@;
    match order.cloid {
        Some(id) => {
            let mut member: Vec<u8> = Vec::new();
            put_literal(&mut member, ",\"cloid\":");
            assert(member@ =~= bytes_of(",\"cloid\":"@));
            let mut raw: Vec<u8> = Vec::new();
            put_be(&mut raw, id, 16);
            assert(raw@ =~= be(id as nat, 16));
            put_hex_string(&mut member, raw.as_slice());
            put_bytes(&mut out, member.as_slice());
        },
        None => {
            assert(out@ =~= before + cloid_json(order.cloid));
        },
    }
    out
}

/// Writes a sound action as a JSON object.
pub fn write_action(action: &Action) -> (bytes: Vec<u8>)
    requires
        schema_fault(action@).is_none(),
    ensures
        bytes@ == action_json(action@),
{
    let mut out: Vec<u8> = Vec::new();
    match action {
        Action::PlaceOrder(order) => {
            put_literal(&mut out, "{\"type\":\"order\",");
            assert(out@ =~= bytes_of("{\"type\":\"order\","@));
            let members: Vec<u8> = write_order(order);
            put_bytes(&mut out, members.as_slice());
            put_literal(&mut out, "}");
        },
        Action::CancelOrder(cancel) => {
            let asset: u32 = match cancel.asset {
                Some(asset) => asset,
                None => 0,
            };
            put_literal(&mut out, "{\"type\":\"cancel\",\"asset\":");
            assert(out@ =~= bytes_of("{\"type\":\"cancel\",\"asset\":"@));
            put_decimal(&mut out, asset as u64);
            put_literal(&mut out, ",\"oid\":");
            put_decimal(&mut out, cancel.oid);
            put_literal(&mut out, "}");
        },
        Action::ModifyOrder(modify) => {
            put_literal(&mut out, "{\"type\":\"modify\",\"oid\":");
            assert(out@ =~= bytes_of("{\"type\":\"modify\",\"oid\":"@));
            put_decimal(&mut out, modify.oid);
            put_literal(&mut out, ",\"order\":{");
            let members: Vec<u8> = write_order(&modify.order);
            put_bytes(&mut out, members.as_slice());
            put_literal(&mut out, "}}");
        },
        Action::UpdateLeverage(update) => {
            let asset: u32 = match update.asset {
                Some(asset) => asset,
                None => 0,
            };
            put_literal(&mut out, "{\"type\":\"updateLeverage\",\"asset\":");
            assert(out@ =~= bytes_of("{\"type\":\"updateLeverage\",\"asset\":"@));
            put_decimal(&mut out, asset as u64);
            put_literal(&mut out, ",\"isCross\":");
            put_boolean(&mut out, update.is_cross);
            put_literal(&mut out, ",\"leverage\":");
            put_decimal(&mut out, update.leverage as u64);
            put_literal(&mut out, "}");
        },
        Action::ReserveRequestWeight(reserve) => {
            put_literal(&mut out, "{\"type\":\"reserveRequestWeight\",\"weight\":");
            assert(out@ =~= bytes_of("{\"type\":\"reserveRequestWeight\",\"weight\":"@));
            put_decimal(&mut out, reserve.weight);
            put_literal(&mut out, "}");
        },
    }
    out
}

fn write_signature(signature: &Signature) -> (bytes: Vec<u8>)
    ensures
        bytes@ == signature_json(signature@),
{
    let mut out: Vec<u8> = Vec::new();
    put_literal(&mut out, "{\"r\":");
    assert(out@ =~= bytes_of("{\"r\":"@));
    put_hex_string(&mut out, signature.r.as_slice());
    put_literal(&mut out, ",\"s\":");
    put_hex_string(&mut out, signature.s.as_slice());
    put_literal(&mut out, ",\"v\":");
    put_decimal(&mut out, signature.v);
    put_literal(&mut out, "}");
    out
}

fn write_vault(vault: &Option<Address>) -> (bytes: Vec<u8>)
    ensures
        bytes@ == vault_json(*vault),
{
    let mut out: Vec<u8> = Vec::new();
    match vault {
        Some(vault) => {
            put_literal(&mut out, ",\"vaultAddress\":");
            assert(out@ =~= bytes_of(",\"vaultAddress\":"@));
            put_hex_string(&mut out, vault.bytes.as_slice());
        },
        None => {},
    }
    out
}

fn write_expiry(expires_after: Option<u64>) -> (bytes: Vec<u8>)
    ensures
        bytes@ == expiry_json(expires_after),
{
    let mut out: Vec<u8> = Vec::new();
    match expires_after {
        Some(at) => {
            put_literal(&mut out, ",\"expiresAfter\":");
            assert(out@ =~= bytes_of(",\"expiresAfter\":"@));
            put_decimal(&mut out, at);
        },
        None => {},
    }
    out
}

/// Writes an envelope as a JSON object. Fails with the action's fault where
/// it has one.
pub fn write_envelope(envelope: &WireEnvelope) -> (outcome: Result<Vec<u8>, SigningError>)
    ensures
        match outcome {
            Ok(bytes) => schema_fault(envelope.action@).is_none() && bytes@ == envelope_json(
                *envelope,
            ),
            Err(fault) => schema_fault(envelope.action@) == Some(fault),
        },
{
    match envelope.action.validate() {
        Err(fault) => {
            return Err(fault);
        },
        Ok(_) => {},
    }
    let mut out: Vec<u8> = Vec::new();
    put_literal(&mut out, "{\"action\":");
    assert(out@ =~= bytes_of("{\"action\":"@));
    let action: Vec<u8> = write_action(&envelope.action);
    put_bytes(&mut out, action.as_slice());
    put_literal(&mut out, ",\"nonce\":");
    put_decimal(&mut out, envelope.nonce);
    put_literal(&mut out, ",\"signature\":");
    let signature: Vec<u8> = write_signature(&envelope.signature);
    put_bytes(&mut out, signature.as_slice());
    let vault: Vec<u8> = write_vault(&envelope.vault_address);
    put_bytes(&mut out, vault.as_slice());
    let expiry: Vec<u8> = write_expiry(envelope.expires_after);
    put_bytes(&mut out, expiry.as_slice());
    put_literal(&mut out, "}");
    Ok(out)
}

impl OutboundFrame {
    /// Writes the frame as a JSON object. Fails with the fault of the
    /// action where the frame posts an action that has one.
    pub fn render(&self) -> (outcome: Result<Vec<u8>, SigningError>)
        ensures
            match outcome {
                Ok(bytes) => frame_fault(*self).is_none() && bytes@ == frame_json(*self),
                Err(fault) => frame_fault(*self) == Some(fault),
            },
    {
        let mut out: Vec<u8> = Vec::new();
        match self {
            OutboundFrame::Subscribe(spec) => {
                put_literal(&mut out, "{\"method\":\"subscribe\",\"subscription\":");
                assert(out@ =~= bytes_of("{\"method\":\"subscribe\",\"subscription\":"@));
                let feed: Vec<u8> = write_feed(spec);
                put_bytes(&mut out, feed.as_slice());
                put_literal(&mut out, "}");
            },
            OutboundFrame::Unsubscribe(spec) => {
                put_literal(&mut out, "{\"method\":\"unsubscribe\",\"subscription\":");
                assert(out@ =~= bytes_of("{\"method\":\"unsubscribe\",\"subscription\":"@));
                let feed: Vec<u8> = write_feed(spec);
                put_bytes(&mut out, feed.as_slice());
                put_literal(&mut out, "}");
            },
            OutboundFrame::Ping => {
                put_literal(&mut out, "{\"method\":\"ping\"}");
                assert(out@ =~= bytes_of("{\"method\":\"ping\"}"@));
            },
            OutboundFrame::Post { id, request } => {
                let envelope: Vec<u8> = match write_envelope(request) {
                    Ok(bytes) => bytes,
                    Err(fault) => {
                        return Err(fault);
                    },
                };
                put_literal(&mut out, "{\"method\":\"post\",\"id\":");
                assert(out@ =~= bytes_of("{\"method\":\"post\",\"id\":"@));
                put_decimal(&mut out, *id);
                put_literal(&mut out, ",\"request\":{\"type\":\"action\",\"payload\":");
                put_bytes(&mut out, envelope.as_slice());
                put_literal(&mut out, "}}");
            },
        }
        Ok(out)
    }
}

} // verus!
