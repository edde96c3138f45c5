//! Signing actions: the byte layout of an action, its digest, and the
//! signature over the digest.

pub mod layout;
pub mod primitives;
pub mod signer;

pub use primitives::{Signature, SigningIdentity};
pub use signer::{ActionSigner, ChainContext, SignedAction, SigningDomain};
