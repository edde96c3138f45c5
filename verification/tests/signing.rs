use ethers::types::{H256, U256};
use ethers::utils::keccak256;
use hyperliquid_rust_sdk::signature::layout::lay_out;
use hyperliquid_rust_sdk::{
    Action, ActionSigner, Address, CancelRequest, ChainContext, ModifyRequest, OrderRequest,
    ReserveRequestWeight, Signature, SigningError, SigningIdentity, TimeInForce, UpdateLeverage,
};

fn key(last: u8) -> [u8; 32] {
    let mut k = [0u8; 32];
    k[31] = last;
    k
}

fn context() -> ChainContext {
    ChainContext { chain_id: 1337, verifying_contract: Address::zero() }
}

fn order() -> OrderRequest {
    OrderRequest {
        asset: Some(0),
        is_buy: true,
        limit_px: "30000".to_string(),
        sz: "1.0".to_string(),
        reduce_only: false,
        tif: TimeInForce::Gtc,
        cloid: None,
    }
}

fn recover(signature: &Signature, digest: [u8; 32]) -> [u8; 20] {
    let outside = ethers::types::Signature {
        r: U256::from_big_endian(&signature.r),
        s: U256::from_big_endian(&signature.s),
        v: signature.v,
    };
    outside.recover(H256(digest)).unwrap().0
}

#[test]
fn identity_of_key_one_has_the_known_address() {
    let identity = SigningIdentity::from_key(key(1)).unwrap();
    let expected: [u8; 20] = [
        0x7e, 0x5f, 0x45, 0x52, 0x09, 0x1a, 0x69, 0x12, 0x5d, 0x5d, 0xfc, 0xb7, 0xb8, 0xc2, 0x65,
        0x90, 0x29, 0x39, 0x5b, 0xdf,
    ];
    assert_eq!(identity.address().bytes, expected);
}

#[test]
fn zero_key_is_no_identity() {
    assert!(matches!(SigningIdentity::from_key([0u8; 32]), Err(SigningError::InvalidIdentity)));
    assert!(matches!(SigningIdentity::from_key([0xffu8; 32]), Err(SigningError::InvalidIdentity)));
}

#[test]
fn signing_is_deterministic() {
    let identity = SigningIdentity::from_key(key(7)).unwrap();
    let signer = ActionSigner::new(context());
    let action = Action::PlaceOrder(order());
    let first = signer.sign(&action, 1_700_000_000_000, None, &identity).unwrap();
    let second = signer.sign(&action, 1_700_000_000_000, None, &identity).unwrap();
    assert_eq!(first, second);
}

#[test]
fn signature_recovers_to_the_signing_account() {
    let identity = SigningIdentity::from_key(key(7)).unwrap();
    let signer = ActionSigner::new(context());
    let action = Action::PlaceOrder(order());
    let digest = signer.digest(&action, 42, None).unwrap();
    let signature = signer.sign(&action, 42, None, &identity).unwrap();
    assert!(signature.v == 27 || signature.v == 28);
    assert_eq!(recover(&signature, digest), identity.address().bytes);
    assert_eq!(identity.sign_digest(&digest), Ok(signature));
}

#[test]
fn digest_is_the_keccak_of_the_documented_bytes() {
    let contract = Address::new([0xabu8; 20]);
    let signer =
        ActionSigner::new(ChainContext { chain_id: 0x0102, verifying_contract: contract });
    let action = Action::CancelOrder(CancelRequest { asset: Some(5), oid: 7 });
    let mut payload: Vec<u8> = vec![2, 0, 0, 0, 5, 0, 0, 0, 0, 0, 0, 0, 7];
    payload.extend_from_slice(&9u64.to_be_bytes());
    payload.push(0);
    let hash = keccak256(&payload);
    let mut domain: Vec<u8> = Vec::new();
    domain.extend_from_slice(&keccak256(
        "EIP712Domain(uint256 chainId,address verifyingContract)".as_bytes(),
    ));
    domain.extend_from_slice(&[0u8; 30]);
    domain.extend_from_slice(&[1, 2]);
    domain.extend_from_slice(&[0u8; 12]);
    domain.extend_from_slice(&[0xabu8; 20]);
    let separator = keccak256(&domain);
    assert_eq!(signer.separator(), separator);
    let mut preimage: Vec<u8> = vec![0x19, 0x01];
    preimage.extend_from_slice(&separator);
    preimage.extend_from_slice(&hash);
    assert_eq!(signer.digest(&action, 9, None), Ok(keccak256(&preimage)));

    let proxy = Address::new([0x11u8; 20]);
    let proxied = ActionSigner::with_proxy(
        ChainContext { chain_id: 0x0102, verifying_contract: contract },
        proxy,
    );
    let mut payload: Vec<u8> = vec![2, 0, 0, 0, 5, 0, 0, 0, 0, 0, 0, 0, 7];
    payload.extend_from_slice(&9u64.to_be_bytes());
    payload.push(1);
    payload.extend_from_slice(&77u64.to_be_bytes());
    let hash = keccak256(&payload);
    let mut preimage: Vec<u8> = vec![0x19, 0x01];
    preimage.extend_from_slice(&separator);
    preimage.extend_from_slice(&[0x11u8; 20]);
    preimage.extend_from_slice(&hash);
    assert_eq!(proxied.digest(&action, 9, Some(77)), Ok(keccak256(&preimage)));
}

#[test]
fn layout_of_an_order_is_exact() {
    let mut o = order();
    o.asset = Some(0x01020304);
    o.cloid = Some(0x0102);
    let bytes = lay_out(&Action::PlaceOrder(o));
    let mut expected: Vec<u8> = vec![1, 1, 2, 3, 4, 1, 5];
    expected.extend_from_slice(b"30000");
    expected.push(3);
    expected.extend_from_slice(b"1.0");
    expected.extend_from_slice(&[0, 2, 1]);
    expected.extend_from_slice(&[0u8; 14]);
    expected.extend_from_slice(&[1, 2]);
    assert_eq!(bytes, expected);
}

#[test]
fn layouts_of_the_other_actions_are_exact() {
    assert_eq!(
        lay_out(&Action::UpdateLeverage(UpdateLeverage {
            asset: Some(3),
            is_cross: true,
            leverage: 20
        })),
        vec![4, 0, 0, 0, 3, 1, 0, 0, 0, 20]
    );
    assert_eq!(
        lay_out(&Action::ReserveRequestWeight(ReserveRequestWeight { weight: 1000 })),
        vec![5, 0, 0, 0, 0, 0, 0, 3, 232]
    );
    let mut o = order();
    o.is_buy = false;
    o.reduce_only = true;
    o.tif = TimeInForce::Alo;
    let modify = lay_out(&Action::ModifyOrder(ModifyRequest { oid: 258, order: o }));
    let mut expected: Vec<u8> = vec![3, 0, 0, 0, 0, 0, 0, 1, 2, 0, 0, 0, 0, 0, 5];
    expected.extend_from_slice(b"30000");
    expected.push(3);
    expected.extend_from_slice(b"1.0");
    expected.extend_from_slice(&[1, 0, 0]);
    assert_eq!(modify, expected);
}

#[test]
fn changing_any_single_field_changes_the_signature() {
    let identity = SigningIdentity::from_key(key(9)).unwrap();
    let signer = ActionSigner::new(context());
    let base = order();
    let mut variants: Vec<OrderRequest> = Vec::new();
    let mut v = base.clone();
    v.asset = Some(1);
    variants.push(v);
    let mut v = base.clone();
    v.is_buy = false;
    variants.push(v);
    let mut v = base.clone();
    v.limit_px = "30001".to_string();
    variants.push(v);
    let mut v = base.clone();
    v.sz = "1.00".to_string();
    variants.push(v);
    let mut v = base.clone();
    v.reduce_only = true;
    variants.push(v);
    let mut v = base.clone();
    v.tif = TimeInForce::Ioc;
    variants.push(v);
    let mut v = base.clone();
    v.cloid = Some(0);
    variants.push(v);
    let mut v = base.clone();
    v.limit_px = "1.0".to_string();
    v.sz = "30000".to_string();
    variants.push(v);
    let reference = signer.sign(&Action::PlaceOrder(base.clone()), 5, None, &identity).unwrap();
    let mut seen = vec![reference];
    for v in variants {
        let s = signer.sign(&Action::PlaceOrder(v), 5, None, &identity).unwrap();
        assert!(!seen.contains(&s));
        seen.push(s);
    }
    let other_nonce = signer.sign(&Action::PlaceOrder(base.clone()), 6, None, &identity).unwrap();
    assert!(!seen.contains(&other_nonce));
    let expiring = signer.sign(&Action::PlaceOrder(base.clone()), 5, Some(0), &identity).unwrap();
    assert!(!seen.contains(&expiring));
    let as_modify = signer
        .sign(&Action::ModifyOrder(ModifyRequest { oid: 0, order: base }), 5, None, &identity)
        .unwrap();
    assert!(!seen.contains(&as_modify));
}

#[test]
fn proxied_digest_differs_from_the_direct_one() {
    let identity = SigningIdentity::from_key(key(9)).unwrap();
    let direct = ActionSigner::new(context());
    let proxied = ActionSigner::with_proxy(context(), Address::new([0x22u8; 20]));
    let zero_proxy = ActionSigner::with_proxy(context(), Address::zero());
    let action = Action::CancelOrder(CancelRequest { asset: Some(1), oid: 2 });
    let a = direct.digest(&action, 10, None).unwrap();
    let b = proxied.digest(&action, 10, None).unwrap();
    let c = zero_proxy.digest(&action, 10, None).unwrap();
    assert_ne!(a, b);
    assert_ne!(a, c);
    assert_ne!(b, c);
    assert_ne!(
        direct.sign(&action, 10, None, &identity).unwrap(),
        proxied.sign(&action, 10, None, &identity).unwrap()
    );
}

#[test]
fn digest_depends_on_the_chain() {
    let action = Action::CancelOrder(CancelRequest { asset: Some(1), oid: 2 });
    let a = ActionSigner::new(context()).digest(&action, 10, None).unwrap();
    let b = ActionSigner::new(ChainContext { chain_id: 1, verifying_contract: Address::zero() })
        .digest(&action, 10, None)
        .unwrap();
    let c = ActionSigner::new(ChainContext {
        chain_id: 1337,
        verifying_contract: Address::new([1u8; 20]),
    })
    .digest(&action, 10, None)
    .unwrap();
    assert_ne!(a, b);
    assert_ne!(a, c);
}

#[test]
fn faulty_actions_are_refused_before_hashing() {
    let identity = SigningIdentity::from_key(key(3)).unwrap();
    let signer = ActionSigner::new(context());
    let sign = |action: Action| signer.sign(&action, 1, None, &identity);
    assert_eq!(
        sign(Action::CancelOrder(CancelRequest { asset: None, oid: 1 })),
        Err(SigningError::MissingAsset)
    );
    let mut o = order();
    o.asset = None;
    o.limit_px = "x".to_string();
    assert_eq!(sign(Action::PlaceOrder(o)), Err(SigningError::MissingAsset));
    for bad in ["", ".5", "5.", "1.2.3", "1e5", "-1", "1,0", " 1", "१"] {
        let mut o = order();
        o.limit_px = bad.to_string();
        assert_eq!(sign(Action::PlaceOrder(o.clone())), Err(SigningError::InvalidPrice));
        let mut o = order();
        o.sz = bad.to_string();
        assert_eq!(
            sign(Action::ModifyOrder(ModifyRequest { oid: 1, order: o })),
            Err(SigningError::InvalidSize)
        );
    }
    let mut o = order();
    o.limit_px = "1".repeat(256);
    assert_eq!(sign(Action::PlaceOrder(o)), Err(SigningError::InvalidPrice));
    let mut o = order();
    o.limit_px = "1".repeat(255);
    o.sz = "0.000001".to_string();
    assert!(sign(Action::PlaceOrder(o)).is_ok());
    assert_eq!(
        sign(Action::UpdateLeverage(UpdateLeverage { asset: None, is_cross: true, leverage: 0 })),
        Err(SigningError::MissingAsset)
    );
    assert_eq!(
        sign(Action::UpdateLeverage(UpdateLeverage {
            asset: Some(1),
            is_cross: true,
            leverage: 0
        })),
        Err(SigningError::InvalidLeverage)
    );
    assert_eq!(
        sign(Action::ReserveRequestWeight(ReserveRequestWeight { weight: 0 })),
        Err(SigningError::InvalidWeight)
    );
    assert_eq!(
        Action::ReserveRequestWeight(ReserveRequestWeight { weight: 1 }).validate(),
        Ok(())
    );
}

#[test]
fn sign_action_keeps_action_nonce_and_expiry() {
    let identity = SigningIdentity::from_key(key(3)).unwrap();
    let signer = ActionSigner::new(context());
    let action = Action::PlaceOrder(order());
    let signed = signer.sign_action(action.clone(), 77, Some(99), &identity).unwrap();
    assert_eq!(signed.action, action);
    assert_eq!(signed.nonce, 77);
    assert_eq!(signed.expires_after, Some(99));
    assert_eq!(signed.signature, signer.sign(&action, 77, Some(99), &identity).unwrap());
}
