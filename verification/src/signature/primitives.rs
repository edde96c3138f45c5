//! The two cryptographic primitives, taken from `ethers`, and the values
//! that pass through them.

use crate::address::Address;
use crate::errors::SigningError;
use ethers::signers::{LocalWallet, Signer};
use ethers::types::H256;
use vstd::prelude::*;

verus! {

/// The Keccak-256 digest of a byte string.
pub uninterp spec fn keccak256_of(bytes: Seq<u8>) -> Seq<u8>;

/// The address of the account that a private key controls, where the 32
/// bytes are a private key at all.
pub uninterp spec fn address_of_key(key: Seq<u8>) -> Option<Seq<u8>>;

/// The recoverable secp256k1 signature of a 32-byte digest under a private
/// key, as `(r, s, v)` with `r` and `s` in big-endian bytes, where the
/// signer yields one. The signer draws its per-signature secret from the key
/// and the digest alone, so the signature is a function of the two.
pub uninterp spec fn ecdsa_signature(key: Seq<u8>, digest: Seq<u8>) -> Option<
    (Seq<u8>, Seq<u8>, u64),
>;

/// `ethers::utils::keccak256`: the Keccak-256 digest of `bytes`.
#[verifier::external_body]
pub(crate) fn keccak256(bytes: &[u8]) -> (digest: [u8; 32])
    ensures
        digest@ == keccak256_of(bytes@),
{
    ethers::utils::keccak256(bytes)
}

/// `LocalWallet::from_bytes` followed by `Signer::address`: the address
/// that `ethers` derives for the key, or `None` where it refuses the bytes
/// as a key.
#[verifier::external_body]
fn wallet_address(key: &[u8; 32]) -> (address: Option<[u8; 20]>)
    ensures
        match address {
            Some(bytes) => address_of_key(key@) == Some(bytes@),
            None => address_of_key(key@).is_none(),
        },
{
    match LocalWallet::from_bytes(key) {
        Ok(wallet) => Some(wallet.address().0),
        Err(_) => None,
    }
}

/// `LocalWallet::sign_hash` under the wallet that `LocalWallet::from_bytes`
/// makes of the key: the signature over `digest`, or `None` where `ethers`
/// refuses the key or yields no signature.
#[verifier::external_body]
fn ecdsa_sign(key: &[u8; 32], digest: &[u8; 32]) -> (signature: Option<Signature>)
    ensures
        match signature {
            Some(sig) => ecdsa_signature(key@, digest@) == Some((sig.r@, sig.s@, sig.v)),
            None => ecdsa_signature(key@, digest@).is_none(),
        },
{
    let wallet = LocalWallet::from_bytes(key).ok()?;
    let signed = wallet.sign_hash(H256(*digest)).ok()?;
    let mut r = [0u8; 32];
    let mut s = [0u8; 32];
    signed.r.to_big_endian(&mut r);
    signed.s.to_big_endian(&mut s);
    Some(Signature { r, s, v: signed.v })
}

/// A recoverable signature.
#[derive(Debug, Clone, Copy, PartialEq, Eq)]
pub struct Signature {
    /// `r`, in big-endian bytes.
    pub r: [u8; 32],
    /// `s`, in big-endian bytes.
    pub s: [u8; 32],
    /// The recovery id, counted from 27.
    pub v: u64,
}

impl View for Signature {
    type V = (Seq<u8>, Seq<u8>, u64);

    open spec fn view(&self) -> (Seq<u8>, Seq<u8>, u64) {
        (self.r@, self.s@, self.v)
    }
}

/// A private key together with the address of the account it controls.
///
/// The key cannot be read back, and the type has no `Debug`: an identity
/// does not end up in a log.
pub struct SigningIdentity {
    key: [u8; 32],
    address: Address,
}

impl SigningIdentity {
    /// The private key.
    pub closed spec fn key(&self) -> Seq<u8> {
        self.key@
    }

    /// The account's address.
    pub closed spec fn account(&self) -> Seq<u8> {
        self.address@
    }

    /// The address is the one that belongs to the key.
    pub open spec fn wf(&self) -> bool {
        address_of_key(self.key()) == Some(self.account())
    }

    /// The identity of the account that `key` controls. Fails with
    /// `InvalidIdentity` where the bytes are no private key.
    pub fn from_key(key: [u8; 32]) -> (identity: Result<SigningIdentity, SigningError>)
        ensures
            match identity {
                Ok(identity) => identity.wf() && identity.key() == key@,
                Err(e) => e == SigningError::InvalidIdentity && address_of_key(key@).is_none(),
            },
    {
        match wallet_address(&key) {
            Some(bytes) => Ok(SigningIdentity { key, address: Address::new(bytes) }),
            None => Err(SigningError::InvalidIdentity),
        }
    }

    /// The account's address.
    pub fn address(&self) -> (address: Address)
        ensures
            address@ == self.account(),
    {
        self.address
    }

    /// Signs a digest with the identity's key. Fails with `InvalidIdentity`
    /// where the signer yields no signature.
    pub fn sign_digest(&self, digest: &[u8; 32]) -> (signature: Result<Signature, SigningError>)
        ensures
            signature_or_error(signature) == signature_over(self.key(), digest@),
    {
        match ecdsa_sign(&self.key, digest) {
            Some(signature) => Ok(signature),
            None => Err(SigningError::InvalidIdentity),
        }
    }
}

/// What signing `digest` under `key` comes to.
pub open spec fn signature_over(key: Seq<u8>, digest: Seq<u8>) -> Result<
    (Seq<u8>, Seq<u8>, u64),
    SigningError,
> {
    match ecdsa_signature(key, digest) {
        Some(signature) => Ok(signature),
        None => Err(SigningError::InvalidIdentity),
    }
}

/// The outcome of signing, with the signature taken by its view.
pub open spec fn signature_or_error(outcome: Result<Signature, SigningError>) -> Result<
    (Seq<u8>, Seq<u8>, u64),
    SigningError,
> {
    match outcome {
        Ok(signature) => Ok(signature@),
        Err(e) => Err(e),
    }
}

} // verus!
