//! The streaming side: feeds, inbound messages, request correlation and the
//! connection's life cycle.

pub mod correlator;
pub mod message_types;
pub mod responses;
pub mod router;
pub mod transport;
pub mod ws_manager;

pub use message_types::{
    ActiveAssetCtx, AllMids, Bbo, Candle, ClearinghouseState, L2Book, Notification, OrderUpdates,
    Trades, User, UserFills, UserFundings, UserNonFundingLedgerUpdates, WebData2,
};
pub use responses::{
    FilledStatus, PostResponse, PostResponseData, PostResponseDataResponse, PostResponsePayload,
    PostResponsePayloadData, PostResponsePayloadResponse, PostResponseStatus,
};
pub use ws_manager::{Feed, Message, Subscription};
pub use transport::{Backoff, Beat, ConnectionState, Heartbeat, WsTransport};
pub use correlator::{PendingRequest, RequestCorrelator};
pub use router::{classify, Channel, Listener, MessageRouter, Route, Subscriber};
