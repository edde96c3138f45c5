//! Payloads of the data channels.
//!
//! Each payload names what the router needs to find its subscribers, and
//! carries the rest of the frame's `data` member as the text it arrived in.

use crate::address::Address;
use vstd::prelude::*;

verus! {

/// Mid prices of all coins.
#[derive(Clone, Debug, PartialEq, Eq)]
pub struct AllMids {
    pub data: String,
}

/// A batch of trades.
#[derive(Clone, Debug, PartialEq, Eq)]
pub struct Trades {
    /// Coin of the first trade in the batch; `None` for an empty batch.
    pub coin: Option<String>,
    pub data: String,
}

/// A snapshot of one coin's order book.
#[derive(Clone, Debug, PartialEq, Eq)]
pub struct L2Book {
    pub coin: String,
    pub data: String,
}

/// Best bid and offer of one coin.
#[derive(Clone, Debug, PartialEq, Eq)]
pub struct Bbo {
    pub coin: String,
    pub data: String,
}

/// Events of the subscribed user.
#[derive(Clone, Debug, PartialEq, Eq)]
pub struct User {
    pub data: String,
}

/// Fills of one user.
#[derive(Clone, Debug, PartialEq, Eq)]
pub struct UserFills {
    pub user: Address,
    pub data: String,
}

/// One candle of one coin at one interval.
#[derive(Clone, Debug, PartialEq, Eq)]
pub struct Candle {
    pub coin: String,
    pub interval: String,
    pub data: String,
}

/// Margin and positions of one user.
#[derive(Clone, Debug, PartialEq, Eq)]
pub struct ClearinghouseState {
    pub user: Address,
    pub dex: Option<String>,
    pub data: String,
}

/// Changes to the orders of the subscribed user.
#[derive(Clone, Debug, PartialEq, Eq)]
pub struct OrderUpdates {
    pub data: String,
}

/// Funding payments of one user.
#[derive(Clone, Debug, PartialEq, Eq)]
pub struct UserFundings {
    pub user: Address,
    pub data: String,
}

/// Ledger entries of one user other than funding.
#[derive(Clone, Debug, PartialEq, Eq)]
pub struct UserNonFundingLedgerUpdates {
    pub user: Address,
    pub data: String,
}

/// A notification for the subscribed user.
#[derive(Clone, Debug, PartialEq, Eq)]
pub struct Notification {
    pub data: String,
}

/// The aggregate that the web front end shows for one user.
#[derive(Clone, Debug, PartialEq, Eq)]
pub struct WebData2 {
    pub user: Address,
    pub dex: Option<String>,
    pub data: String,
}

/// The state of one asset.
#[derive(Clone, Debug, PartialEq, Eq)]
pub struct ActiveAssetCtx {
    pub coin: String,
    pub data: String,
}

} // verus!
