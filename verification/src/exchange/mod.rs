//! Actions, their wire envelope, and the session that ties signing and
//! transport together.

pub mod actions;
pub mod builder;
pub mod exchange_responses;
pub mod session;
pub mod wire;

pub use actions::{
    Action, ActionFields, CancelRequest, ModifyRequest, OrderFields, OrderRequest,
    ReserveRequestWeight, TimeInForce, UpdateLeverage,
};
pub use builder::{SignedRequestBuilder, WireEnvelope};
pub use exchange_responses::{decode_response, OrderStatus};
pub use session::{
    ExchangeSession, Handled, SessionConfig, Shutdown, Submission, Subscribed, Tick,
};
pub use wire::{write_action, write_envelope, write_feed, OutboundFrame};
