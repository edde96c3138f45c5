//! Signed-action transport for a remote order-book exchange.
//!
//! The crate holds the decisions of the client: how nonces advance, how an
//! action is laid out and signed, how requests are matched with their
//! responses, how subscriptions survive a reconnect and how inbound messages
//! are routed. Sockets and clocks live with the embedding program, which
//! hands plain values in and carries the returned actions out.

pub mod address;
pub mod errors;
pub mod exchange;
pub mod helpers;
pub mod json;
pub mod meta;
pub mod signature;
pub mod ws;

pub use address::Address;
pub use errors::{Error, RequestError, SigningError};
pub use exchange::{
    decode_response, write_action, write_envelope, write_feed, Action, ActionFields,
    CancelRequest, ExchangeSession, Handled, ModifyRequest, OrderFields, OrderRequest,
    OrderStatus, OutboundFrame, ReserveRequestWeight, SessionConfig, Shutdown,
    SignedRequestBuilder, Submission, Subscribed, Tick, TimeInForce, UpdateLeverage,
    WireEnvelope,
};
pub use helpers::NonceClock;
pub use meta::{
    AssetMeta, MarginMode, MarginTableData, MarginTier, Meta, PerpDexMeta, SpotAssetContext,
    SpotAssetMeta, SpotMeta, SpotMetaAndAssetCtxs, TokenInfo,
};
pub use signature::{
    ActionSigner, ChainContext, Signature, SignedAction, SigningDomain, SigningIdentity,
};
pub use ws::{
    classify, ActiveAssetCtx, AllMids, Backoff, Bbo, Beat, Candle, Channel, ClearinghouseState,
    ConnectionState, Feed, FilledStatus, Heartbeat, L2Book, Listener, Message, MessageRouter,
    Notification, OrderUpdates, PendingRequest, PostResponse, PostResponseData,
    PostResponseDataResponse, PostResponsePayload, PostResponsePayloadData,
    PostResponsePayloadResponse, PostResponseStatus, RequestCorrelator, Route, Subscriber,
    Subscription, Trades, User, UserFills, UserFundings, UserNonFundingLedgerUpdates, WebData2,
    WsTransport,
};
