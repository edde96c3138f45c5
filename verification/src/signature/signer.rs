//! From an action to its signature.
//!
//! The action is laid out in bytes together with its nonce and hashed; the
//! hash is bound to the chain by a domain separator, and to the proxy where
//! one is configured; the digest of that is signed.

use crate::address::Address;
use crate::errors::SigningError;
use crate::exchange::actions::{bytes_of, schema_fault, Action, ActionFields};
use crate::signature::layout::{
    be, lay_out, lemma_signing_payload_injective, lemma_split, put_be, put_bytes,
    put_optional_u64, signing_payload,
};
use crate::signature::primitives::{
    ecdsa_signature, keccak256, keccak256_of, signature_or_error, signature_over, Signature,
    SigningIdentity,
};
use vstd::prelude::*;

verus! {

/// The chain and the contract that a signature is meant for.
#[derive(Debug, Clone, Copy, PartialEq, Eq)]
pub struct ChainContext {
    pub chain_id: u64,
    pub verifying_contract: Address,
}

/// What a signer is configured with, as the contracts see it.
pub struct SigningDomain {
    pub chain_id: u64,
    pub verifying_contract: Seq<u8>,
    /// The vault or builder account on whose behalf actions are signed.
    pub proxy: Option<Seq<u8>>,
}

/// The declaration of the domain's fields.
pub open spec fn domain_type() -> Seq<u8> {
    bytes_of("EIP712Domain(uint256 chainId,address verifyingContract)"@)
}

/// What is hashed for the domain separator: the digest of the domain's
/// declaration, the chain id as a 32-byte word, and the verifying contract
/// padded on the left to a 32-byte word.
pub open spec fn domain_preimage(domain: SigningDomain) -> Seq<u8> {
    keccak256_of(domain_type()) + be(domain.chain_id as nat, 32) + be(0, 12)
        + domain.verifying_contract
}

/// The domain separator.
pub open spec fn domain_separator(domain: SigningDomain) -> Seq<u8> {
    keccak256_of(domain_preimage(domain))
}

/// The hash of an action with its nonce and expiry.
pub open spec fn action_hash(action: ActionFields, nonce: u64, expires_after: Option<u64>) -> Seq<
    u8,
> {
    keccak256_of(signing_payload(action, nonce, expires_after))
}

/// What is hashed for the digest: the two bytes `0x19 0x01`, the domain
/// separator, the proxy's address where there is a proxy, and the action's
/// hash.
pub open spec fn digest_preimage(domain: SigningDomain, hash: Seq<u8>) -> Seq<u8> {
    match domain.proxy {
        Some(proxy) => seq![0x19u8, 0x01u8] + domain_separator(domain) + (proxy + hash),
        None => seq![0x19u8, 0x01u8] + domain_separator(domain) + hash,
    }
}

/// The digest that is signed for an action.
pub open spec fn action_digest(
    domain: SigningDomain,
    action: ActionFields,
    nonce: u64,
    expires_after: Option<u64>,
) -> Seq<u8> {
    keccak256_of(digest_preimage(domain, action_hash(action, nonce, expires_after)))
}

/// What signing an action comes to: the fault of the action where it has
/// one, else what the signer makes of the digest.
pub open spec fn signed(
    domain: SigningDomain,
    action: ActionFields,
    nonce: u64,
    expires_after: Option<u64>,
    key: Seq<u8>,
) -> Result<(Seq<u8>, Seq<u8>, u64), SigningError> {
    match schema_fault(action) {
        Some(fault) => Err(fault),
        None => signature_over(key, action_digest(domain, action, nonce, expires_after)),
    }
}

/// Whether the two byte strings do not collide under Keccak-256.
pub open spec fn no_collision(a: Seq<u8>, b: Seq<u8>) -> bool {
    keccak256_of(a) == keccak256_of(b) ==> a == b
}

/// An action with its nonce and its signature. It is made once and sent
/// once: sending the action again takes a new nonce and a new signature.
#[derive(Debug, Clone, PartialEq, Eq)]
pub struct SignedAction {
    pub action: Action,
    pub nonce: u64,
    pub signature: Signature,
    pub expires_after: Option<u64>,
}

/// Signs actions for one chain, directly or on behalf of a proxy.
#[derive(Debug, Clone, Copy, PartialEq, Eq)]
pub struct ActionSigner {
    pub context: ChainContext,
    /// The vault or builder account on whose behalf actions are signed.
    pub proxy: Option<Address>,
}

impl View for ActionSigner {
    type V = SigningDomain;

    open spec fn view(&self) -> SigningDomain {
        SigningDomain {
            chain_id: self.context.chain_id,
            verifying_contract: self.context.verifying_contract@,
            proxy: match self.proxy {
                Some(proxy) => Some(proxy@),
                None => None,
            },
        }
    }
}

impl ActionSigner {
    /// A signer that signs in the account's own name.
    pub fn new(context: ChainContext) -> (signer: ActionSigner)
        ensures
            signer.context == context,
            signer.proxy.is_none(),
    {
        ActionSigner { context, proxy: None }
    }

    /// A signer that signs on behalf of `proxy`.
    pub fn with_proxy(context: ChainContext, proxy: Address) -> (signer: ActionSigner)
        ensures
            signer.context == context,
            signer.proxy == Some(proxy),
    {
        ActionSigner { context, proxy: Some(proxy) }
    }

    /// The domain separator of the signer's chain.
    pub fn separator(&self) -> (separator: [u8; 32])
        ensures
            separator@ == domain_separator(self@),
    {
        let declaration: [u8; 32] = keccak256(
            "EIP712Domain(uint256 chainId,address verifyingContract)".as_bytes(),
        );
        let mut preimage: Vec<u8> = Vec::new();
        put_bytes(&mut preimage, declaration.as_slice());
        put_be(&mut preimage, self.context.chain_id as u128, 32);
        put_be(&mut preimage, 0, 12);
        put_bytes(&mut preimage, self.context.verifying_contract.bytes.as_slice());
        assert(preimage@ =~= domain_preimage(self@));
        keccak256(preimage.as_slice())
    }

    /// The digest that is signed for `action`. Fails with the action's
    /// fault where it has one.
    pub fn digest(&self, action: &Action, nonce: u64, expires_after: Option<u64>) -> (digest:
        Result<[u8; 32], SigningError>)
        ensures
            match digest {
                Ok(digest) => schema_fault(action@).is_none() && digest@ == action_digest(
                    self@,
                    action@,
                    nonce,
                    expires_after,
                ),
                Err(fault) => schema_fault(action@) == Some(fault),
            },
    {
        match action.validate() {
            Err(fault) => {
                return Err(fault);
            },
            Ok(_) => {},
        }
        let mut payload: Vec<u8> = lay_out(action);
        put_be(&mut payload, nonce as u128, 8);
        put_optional_u64(&mut payload, expires_after);
        let hash: [u8; 32] = keccak256(payload.as_slice());
        let separator: [u8; 32] = self.separator();
        let mut preimage: Vec<u8> = Vec::new();
        preimage.push(0x19u8);
        preimage.push(0x01u8);
        put_bytes(&mut preimage, separator.as_slice());
        match &self.proxy {
            Some(proxy) => {
                put_bytes(&mut preimage, proxy.bytes.as_slice());
                put_bytes(&mut preimage, hash.as_slice());
                assert(preimage@ =~= digest_preimage(self@, hash@));
            },
            None => {
                put_bytes(&mut preimage, hash.as_slice());
                assert(preimage@ =~= digest_preimage(self@, hash@));
            },
        }
        Ok(keccak256(preimage.as_slice()))
    }

    /// Signs `action` under `nonce` with the identity's key. Fails with the
    /// action's fault where it has one, and with `InvalidIdentity` where the
    /// signer yields no signature. For the same action, nonce, expiry and
    /// identity the result is always the same.
    pub fn sign(
        &self,
        action: &Action,
        nonce: u64,
        expires_after: Option<u64>,
        identity: &SigningIdentity,
    ) -> (signature: Result<Signature, SigningError>)
        ensures
            signature_or_error(signature) == signed(
                self@,
                action@,
                nonce,
                expires_after,
                identity.key(),
            ),
    {
        match self.digest(action, nonce, expires_after) {
            Err(fault) => Err(fault),
            Ok(digest) => identity.sign_digest(&digest),
        }
    }

    /// Signs `action` and hands it back together with its nonce and
    /// signature.
    pub fn sign_action(
        &self,
        action: Action,
        nonce: u64,
        expires_after: Option<u64>,
        identity: &SigningIdentity,
    ) -> (outcome: Result<SignedAction, SigningError>)
        ensures
            match outcome {
                Ok(signed_action) => {
                    &&& signed_action.action == action
                    &&& signed_action.nonce == nonce
                    &&& signed_action.expires_after == expires_after
                    &&& signed(self@, action@, nonce, expires_after, identity.key()) == Ok::<
                        (Seq<u8>, Seq<u8>, u64),
                        SigningError,
                    >(signed_action.signature@)
                },
                Err(fault) => signed(self@, action@, nonce, expires_after, identity.key())
                    == Err::<(Seq<u8>, Seq<u8>, u64), SigningError>(fault),
            },
    {
        match self.sign(&action, nonce, expires_after, identity) {
            Ok(signature) => Ok(SignedAction { action, nonce, signature, expires_after }),
            Err(fault) => Err(fault),
        }
    }
}

/// Signing is deterministic: two signatures made of the same action under
/// the same nonce, expiry, domain and key are the same signature.
pub proof fn lemma_signing_is_deterministic(
    domain: SigningDomain,
    action: ActionFields,
    nonce: u64,
    expires_after: Option<u64>,
    key: Seq<u8>,
    first: Result<Signature, SigningError>,
    second: Result<Signature, SigningError>,
)
    requires
        signature_or_error(first) == signed(domain, action, nonce, expires_after, key),
        signature_or_error(second) == signed(domain, action, nonce, expires_after, key),
    ensures
        signature_or_error(first) == signature_or_error(second),
{
}

/// What is hashed for the digest differs between a signer with a proxy and
/// the same signer without one, whatever the action.
pub proof fn lemma_proxy_changes_preimage(domain: SigningDomain, hash: Seq<u8>)
    requires
        domain.proxy.is_some(),
        domain.proxy.unwrap().len() == 20,
    ensures
        digest_preimage(domain, hash) != digest_preimage(
            SigningDomain { proxy: None, ..domain },
            hash,
        ),
{
    let direct = SigningDomain { proxy: None, ..domain };
    assert(domain_preimage(direct) == domain_preimage(domain));
    assert(digest_preimage(domain, hash).len() == digest_preimage(direct, hash).len() + 20);
}

/// The digest of an action signed on behalf of a proxy differs from the
/// digest of the same action, under the same nonce, signed without the
/// proxy, unless the two byte strings that are hashed collide under
/// Keccak-256.
pub proof fn lemma_proxied_digest_differs(
    domain: SigningDomain,
    action: ActionFields,
    nonce: u64,
    expires_after: Option<u64>,
)
    requires
        domain.proxy.is_some(),
        domain.proxy.unwrap().len() == 20,
        no_collision(
            digest_preimage(domain, action_hash(action, nonce, expires_after)),
            digest_preimage(
                SigningDomain { proxy: None, ..domain },
                action_hash(action, nonce, expires_after),
            ),
        ),
    ensures
        action_digest(domain, action, nonce, expires_after) != action_digest(
            SigningDomain { proxy: None, ..domain },
            action,
            nonce,
            expires_after,
        ),
{
    lemma_proxy_changes_preimage(domain, action_hash(action, nonce, expires_after));
}

/// Two different sound actions have different digests under the same
/// nonce, expiry and domain, unless Keccak-256 collides on their layouts or
/// on what is hashed for their digests.
pub proof fn lemma_distinct_actions_distinct_digests(
    domain: SigningDomain,
    a: ActionFields,
    b: ActionFields,
    nonce: u64,
    expires_after: Option<u64>,
)
    requires
        a != b,
        schema_fault(a).is_none(),
        schema_fault(b).is_none(),
        no_collision(
            signing_payload(a, nonce, expires_after),
            signing_payload(b, nonce, expires_after),
        ),
        no_collision(
            digest_preimage(domain, action_hash(a, nonce, expires_after)),
            digest_preimage(domain, action_hash(b, nonce, expires_after)),
        ),
    ensures
        action_digest(domain, a, nonce, expires_after) != action_digest(
            domain,
            b,
            nonce,
            expires_after,
        ),
{
    let ha = action_hash(a, nonce, expires_after);
    let hb = action_hash(b, nonce, expires_after);
    if signing_payload(a, nonce, expires_after) == signing_payload(b, nonce, expires_after) {
        lemma_signing_payload_injective(a, nonce, expires_after, b, nonce, expires_after);
    }
    assert(ha != hb);
    if digest_preimage(domain, ha) == digest_preimage(domain, hb) {
        let head = seq![0x19u8, 0x01u8] + domain_separator(domain);
        match domain.proxy {
            Some(proxy) => {
                lemma_split(head, proxy + ha, head, proxy + hb);
                lemma_split(proxy, ha, proxy, hb);
            },
            None => {
                lemma_split(head, ha, head, hb);
            },
        }
    }
}

/// Changing an action changes its signature: two different sound actions,
/// signed under the same nonce, expiry, domain and key, get different
/// signatures, unless Keccak-256 collides on their layouts or on what is
/// hashed for their digests, or the signer gives two digests one signature.
pub proof fn lemma_distinct_actions_distinct_signatures(
    domain: SigningDomain,
    a: ActionFields,
    b: ActionFields,
    nonce: u64,
    expires_after: Option<u64>,
    key: Seq<u8>,
)
    requires
        a != b,
        schema_fault(a).is_none(),
        schema_fault(b).is_none(),
        signed(domain, a, nonce, expires_after, key).is_ok(),
        no_collision(
            signing_payload(a, nonce, expires_after),
            signing_payload(b, nonce, expires_after),
        ),
        no_collision(
            digest_preimage(domain, action_hash(a, nonce, expires_after)),
            digest_preimage(domain, action_hash(b, nonce, expires_after)),
        ),
        ecdsa_signature(key, action_digest(domain, a, nonce, expires_after)) == ecdsa_signature(
            key,
            action_digest(domain, b, nonce, expires_after),
        ) ==> action_digest(domain, a, nonce, expires_after) == action_digest(
            domain,
            b,
            nonce,
            expires_after,
        ),
    ensures
        signed(domain, a, nonce, expires_after, key) != signed(
            domain,
            b,
            nonce,
            expires_after,
            key,
        ),
{
    lemma_distinct_actions_distinct_digests(domain, a, b, nonce, expires_after);
}

} // verus!
