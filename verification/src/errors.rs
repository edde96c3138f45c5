//! What can go wrong, by the component that reports it.

use vstd::prelude::*;

verus! {

/// Why an action could not be signed. Fatal to that one submission only.
#[derive(Debug, Clone, Copy, PartialEq, Eq, Structural)]
pub enum SigningError {
    /// The key is not a valid private key, or the signer refused it.
    InvalidIdentity,
    /// The action names no asset.
    MissingAsset,
    /// The price is not a decimal numeral.
    InvalidPrice,
    /// The size is not a decimal numeral.
    InvalidSize,
    /// The leverage is zero.
    InvalidLeverage,
    /// The reserved weight is zero.
    InvalidWeight,
}

/// Why a request ended without a response.
#[derive(Debug, Clone, Copy, PartialEq, Eq, Structural)]
pub enum RequestError {
    /// No response arrived within the configured time.
    Timeout,
    /// The connection was lost, or the session shut down, while the request
    /// was in flight.
    ConnectionLost,
}

/// Why a submission failed.
#[derive(Debug, Clone, PartialEq, Eq)]
pub enum Error {
    /// The action could not be signed.
    Signing(SigningError),
    /// The request ended without a response.
    Request(RequestError),
    /// The exchange answered, and refused the request as a whole.
    Exchange(String),
    /// The frame did not have the expected shape.
    Protocol,
    /// The nonce clock has run out of nonces.
    NonceExhausted,
    /// The session has run out of request ids or of subscriber ids.
    IdsExhausted,
    /// The session was shut down.
    SessionClosed,
}

} // verus!
