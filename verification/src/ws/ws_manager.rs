//! Feeds a client can subscribe to, and the messages that arrive.

use crate::address::{opt_text, opt_text_eq, text_eq, Address};
use crate::ws::message_types::{
    ActiveAssetCtx, AllMids, Bbo, Candle, ClearinghouseState, L2Book, Notification, OrderUpdates,
    Trades, User, UserFills, UserFundings, UserNonFundingLedgerUpdates, WebData2,
};
use crate::ws::responses::PostResponse;
use vstd::prelude::*;

verus! {

/// A market-data or user-data feed.
#[derive(Debug, PartialEq, Eq)]
pub enum Subscription {
    AllMids,
    Notification { user: Address },
    WebData2 { user: Address, dex: Option<String> },
    ClearinghouseState { user: Address, dex: Option<String> },
    Candle { coin: String, interval: String },
    L2Book { coin: String },
    Bbo { coin: String },
    Trades { coin: String },
    OrderUpdates { user: Address },
    UserEvents { user: Address },
    UserFills { user: Address },
    UserFundings { user: Address },
    UserNonFundingLedgerUpdates { user: Address },
    ActiveAssetCtx { coin: String },
}

/// The identity of a feed: its kind together with its key fields. Two
/// subscriptions are the same subscription when their identities are equal.
pub enum Feed {
    AllMids,
    Notification { user: Seq<u8> },
    WebData2 { user: Seq<u8>, dex: Option<Seq<char>> },
    ClearinghouseState { user: Seq<u8>, dex: Option<Seq<char>> },
    Candle { coin: Seq<char>, interval: Seq<char> },
    L2Book { coin: Seq<char> },
    Bbo { coin: Seq<char> },
    Trades { coin: Seq<char> },
    OrderUpdates { user: Seq<u8> },
    UserEvents { user: Seq<u8> },
    UserFills { user: Seq<u8> },
    UserFundings { user: Seq<u8> },
    UserNonFundingLedgerUpdates { user: Seq<u8> },
    ActiveAssetCtx { coin: Seq<char> },
}

impl View for Subscription {
    type V = Feed;

    open spec fn view(&self) -> Feed {
        match *self {
            Subscription::AllMids => Feed::AllMids,
            Subscription::Notification { user } => Feed::Notification { user: user@ },
            Subscription::WebData2 { user, dex } => Feed::WebData2 {
                user: user@,
                dex: opt_text(dex),
            },
            Subscription::ClearinghouseState { user, dex } => Feed::ClearinghouseState {
                user: user@,
                dex: opt_text(dex),
            },
            Subscription::Candle { coin, interval } => Feed::Candle {
                coin: coin@,
                interval: interval@,
            },
            Subscription::L2Book { coin } => Feed::L2Book { coin: coin@ },
            Subscription::Bbo { coin } => Feed::Bbo { coin: coin@ },
            Subscription::Trades { coin } => Feed::Trades { coin: coin@ },
            Subscription::OrderUpdates { user } => Feed::OrderUpdates { user: user@ },
            Subscription::UserEvents { user } => Feed::UserEvents { user: user@ },
            Subscription::UserFills { user } => Feed::UserFills { user: user@ },
            Subscription::UserFundings { user } => Feed::UserFundings { user: user@ },
            Subscription::UserNonFundingLedgerUpdates { user } => {
                Feed::UserNonFundingLedgerUpdates { user: user@ }
            },
            Subscription::ActiveAssetCtx { coin } => Feed::ActiveAssetCtx { coin: coin@ },
        }
    }
}

/// A copy of an optional text.
pub fn copy_opt_text(text: &Option<String>) -> (copy: Option<String>)
    ensures
        opt_text(copy) == opt_text(*text),
{
    match text {
        Some(t) => Some(t.clone()),
        None => None,
    }
}

impl Clone for Subscription {
    fn clone(&self) -> (copy: Subscription)
        ensures
            copy@ == self@,
    {
        match self {
            Subscription::AllMids => Subscription::AllMids,
            Subscription::Notification { user } => Subscription::Notification { user: *user },
            Subscription::WebData2 { user, dex } => Subscription::WebData2 {
                user: *user,
                dex: copy_opt_text(dex),
            },
            Subscription::ClearinghouseState { user, dex } => Subscription::ClearinghouseState {
                user: *user,
                dex: copy_opt_text(dex),
            },
            Subscription::Candle { coin, interval } => Subscription::Candle {
                coin: coin.clone(),
                interval: interval.clone(),
            },
            Subscription::L2Book { coin } => Subscription::L2Book { coin: coin.clone() },
            Subscription::Bbo { coin } => Subscription::Bbo { coin: coin.clone() },
            Subscription::Trades { coin } => Subscription::Trades { coin: coin.clone() },
            Subscription::OrderUpdates { user } => Subscription::OrderUpdates { user: *user },
            Subscription::UserEvents { user } => Subscription::UserEvents { user: *user },
            Subscription::UserFills { user } => Subscription::UserFills { user: *user },
            Subscription::UserFundings { user } => Subscription::UserFundings { user: *user },
            Subscription::UserNonFundingLedgerUpdates { user } => {
                Subscription::UserNonFundingLedgerUpdates { user: *user }
            },
            Subscription::ActiveAssetCtx { coin } => Subscription::ActiveAssetCtx {
                coin: coin.clone(),
            },
        }
    }
}

impl Subscription {
    /// Whether the two subscriptions name the same feed.
    pub fn same(&self, other: &Subscription) -> (same: bool)
        ensures
            same == (self@ == other@),
    {
        match (self, other) {
            (Subscription::AllMids, Subscription::AllMids) => true,
            (Subscription::Notification { user: a }, Subscription::Notification { user: b }) => {
                a.same(b)
            },
            (
                Subscription::WebData2 { user: a, dex: d },
                Subscription::WebData2 { user: b, dex: e },
            ) => a.same(b) && opt_text_eq(d, e),
            (
                Subscription::ClearinghouseState { user: a, dex: d },
                Subscription::ClearinghouseState { user: b, dex: e },
            ) => a.same(b) && opt_text_eq(d, e),
            (
                Subscription::Candle { coin: a, interval: s },
                Subscription::Candle { coin: b, interval: t },
            ) => text_eq(a.as_str(), b.as_str()) && text_eq(s.as_str(), t.as_str()),
            (Subscription::L2Book { coin: a }, Subscription::L2Book { coin: b }) => text_eq(
                a.as_str(),
                b.as_str(),
            ),
            (Subscription::Bbo { coin: a }, Subscription::Bbo { coin: b }) => text_eq(
                a.as_str(),
                b.as_str(),
            ),
            (Subscription::Trades { coin: a }, Subscription::Trades { coin: b }) => text_eq(
                a.as_str(),
                b.as_str(),
            ),
            (Subscription::OrderUpdates { user: a }, Subscription::OrderUpdates { user: b }) => {
                a.same(b)
            },
            (Subscription::UserEvents { user: a }, Subscription::UserEvents { user: b }) => {
                a.same(b)
            },
            (Subscription::UserFills { user: a }, Subscription::UserFills { user: b }) => {
                a.same(b)
            },
            (Subscription::UserFundings { user: a }, Subscription::UserFundings { user: b }) => {
                a.same(b)
            },
            (
                Subscription::UserNonFundingLedgerUpdates { user: a },
                Subscription::UserNonFundingLedgerUpdates { user: b },
            ) => a.same(b),
            (
                Subscription::ActiveAssetCtx { coin: a },
                Subscription::ActiveAssetCtx { coin: b },
            ) => text_eq(a.as_str(), b.as_str()),
            _ => false,
        }
    }
}

/// A message received from the exchange.
#[derive(Clone, Debug, PartialEq, Eq)]
pub enum Message {
    NoData,
    HyperliquidError(String),
    AllMids(AllMids),
    Trades(Trades),
    L2Book(L2Book),
    Bbo(Bbo),
    User(User),
    UserFills(UserFills),
    Candle(Candle),
    ClearinghouseState(ClearinghouseState),
    SubscriptionResponse,
    OrderUpdates(OrderUpdates),
    UserFundings(UserFundings),
    UserNonFundingLedgerUpdates(UserNonFundingLedgerUpdates),
    Notification(Notification),
    WebData2(WebData2),
    ActiveAssetCtx(ActiveAssetCtx),
    Pong,
    /// The answer to a posted request.
    Post(PostResponse),
    /// A frame on a channel this client does not know, with the channel's
    /// tag.
    Unknown(String),
}

} // verus!
