//! The envelope an action travels in.

use crate::address::Address;
use crate::exchange::actions::Action;
use crate::signature::primitives::Signature;
use vstd::prelude::*;

verus! {

/// A signed action as the exchange expects it, over REST or as the payload
/// of a posted request.
#[derive(Debug, Clone, PartialEq, Eq)]
pub struct WireEnvelope {
    pub action: Action,
    pub nonce: u64,
    pub signature: Signature,
    /// The vault or builder account on whose behalf the action was signed.
    pub vault_address: Option<Address>,
    pub expires_after: Option<u64>,
}

/// Puts signed actions into their envelope. Building an envelope reads
/// nothing but its arguments and changes nothing.
#[derive(Debug, Clone, Copy, PartialEq, Eq)]
pub struct SignedRequestBuilder {
    /// The vault or builder account on whose behalf actions are signed.
    pub vault_address: Option<Address>,
}

impl SignedRequestBuilder {
    /// A builder for actions signed on behalf of `vault_address`, or in the
    /// account's own name where there is none.
    pub fn new(vault_address: Option<Address>) -> (builder: SignedRequestBuilder)
        ensures
            builder.vault_address == vault_address,
    {
        SignedRequestBuilder { vault_address }
    }

    /// The envelope of `action`, signed under `nonce`.
    pub fn build(
        &self,
        action: Action,
        nonce: u64,
        signature: Signature,
        expires_after: Option<u64>,
    ) -> (envelope: WireEnvelope)
        ensures
            envelope == (WireEnvelope {
                action,
                nonce,
                signature,
                vault_address: self.vault_address,
                expires_after,
            }),
    {
        WireEnvelope { action, nonce, signature, vault_address: self.vault_address, expires_after }
    }
}

} // verus!
