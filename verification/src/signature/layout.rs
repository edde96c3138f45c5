//! The byte layout of what is signed.
//!
//! Every integer is written big-endian in a fixed number of bytes; prices
//! and sizes are written as the text they were given in, behind one byte
//! that holds the text's length; a flag is one byte, 0 or 1. Nothing is
//! written in a variable-width form, so a layout can be read back in one
//! way only: two actions with the same bytes are the same action.

use crate::exchange::actions::{
    bytes_of, is_numeral, schema_fault, Action, ActionFields, OrderFields, OrderRequest,
    TimeInForce,
};
use vstd::prelude::*;

verus! {

/// The number of values that fit in `width` bytes.
pub open spec fn limit(width: nat) -> nat
    decreases width,
{
    if width == 0 {
        1
    } else {
        256 * limit((width - 1) as nat)
    }
}

/// `value` in `width` bytes, most significant byte first.
pub open spec fn be(value: nat, width: nat) -> Seq<u8>
    decreases width,
{
    if width == 0 {
        Seq::empty()
    } else {
        be(value / 256, (width - 1) as nat).push((value % 256) as u8)
    }
}

/// A flag in one byte.
pub open spec fn flag(on: bool) -> Seq<u8> {
    seq![if on { 1u8 } else { 0u8 }]
}

/// A text behind the byte of its length.
pub open spec fn text(bytes: Seq<u8>) -> Seq<u8> {
    seq![bytes.len() as u8] + bytes
}

/// The byte that stands for a time in force.
pub open spec fn tif_code(tif: TimeInForce) -> u8 {
    match tif {
        TimeInForce::Alo => 0,
        TimeInForce::Ioc => 1,
        TimeInForce::Gtc => 2,
    }
}

/// An optional client order id: a flag, and behind a set flag the id in
/// 16 bytes.
pub open spec fn cloid_layout(cloid: Option<u128>) -> Seq<u8> {
    match cloid {
        Some(id) => flag(true) + be(id as nat, 16),
        None => flag(false),
    }
}

/// An optional 64-bit number: a flag, and behind a set flag the number in
/// 8 bytes.
pub open spec fn optional_u64_layout(number: Option<u64>) -> Seq<u8> {
    match number {
        Some(n) => flag(true) + be(n as nat, 8),
        None => flag(false),
    }
}

/// The layout of an order: asset, side, price, size, reduce-only flag, time
/// in force, client order id, in this order.
pub open spec fn order_layout(order: OrderFields) -> Seq<u8> {
    be(order.asset.unwrap() as nat, 4) + flag(order.is_buy) + text(bytes_of(order.limit_px))
        + text(bytes_of(order.sz)) + flag(order.reduce_only) + seq![tif_code(order.tif)]
        + cloid_layout(order.cloid)
}

/// The byte that opens the layout of an action and tells its kind.
pub open spec fn kind_code(action: ActionFields) -> u8 {
    match action {
        ActionFields::PlaceOrder { .. } => 1,
        ActionFields::CancelOrder { .. } => 2,
        ActionFields::ModifyOrder { .. } => 3,
        ActionFields::UpdateLeverage { .. } => 4,
        ActionFields::ReserveRequestWeight { .. } => 5,
    }
}

/// The fields of an action, in their fixed order.
pub open spec fn fields_layout(action: ActionFields) -> Seq<u8> {
    match action {
        ActionFields::PlaceOrder { order } => order_layout(order),
        ActionFields::CancelOrder { asset, oid } => be(asset.unwrap() as nat, 4) + be(
            oid as nat,
            8,
        ),
        ActionFields::ModifyOrder { oid, order } => be(oid as nat, 8) + order_layout(order),
        ActionFields::UpdateLeverage { asset, is_cross, leverage } => be(
            asset.unwrap() as nat,
            4,
        ) + flag(is_cross) + be(leverage as nat, 4),
        ActionFields::ReserveRequestWeight { weight } => be(weight as nat, 8),
    }
}

/// The layout of an action: the byte of its kind, then its fields.
pub open spec fn action_layout(action: ActionFields) -> Seq<u8> {
    seq![kind_code(action)] + fields_layout(action)
}

/// What is hashed for an action: its layout, the nonce in 8 bytes, and the
/// optional expiry.
pub open spec fn signing_payload(
    action: ActionFields,
    nonce: u64,
    expires_after: Option<u64>,
) -> Seq<u8> {
    action_layout(action) + be(nonce as nat, 8) + optional_u64_layout(expires_after)
}

/// A number written in `width` bytes takes `width` bytes.
pub proof fn lemma_be_len(value: nat, width: nat)
    ensures
        be(value, width).len() == width,
    decreases width,
{
    if width > 0 {
        lemma_be_len(value / 256, (width - 1) as nat);
    }
}

/// Two numbers that fit in `width` bytes and are written alike are equal.
pub proof fn lemma_be_injective(a: nat, b: nat, width: nat)
    requires
        a < limit(width),
        b < limit(width),
        be(a, width) == be(b, width),
    ensures
        a == b,
    decreases width,
{
    if width > 0 {
        let w = (width - 1) as nat;
        let x = be(a / 256, w);
        let y = be(b / 256, w);
        assert(x == be(a, width).drop_last());
        assert(y == be(b, width).drop_last());
        assert(be(a, width).last() == (a % 256) as u8);
        assert(be(b, width).last() == (b % 256) as u8);
        assert(a % 256 == b % 256);
        lemma_be_injective(a / 256, b / 256, w);
    }
}

/// The limits of 4, 8 and 16 bytes.
pub proof fn lemma_limits()
    ensures
        limit(4) == 0x1_0000_0000,
        limit(8) == 0x1_0000_0000_0000_0000,
        limit(16) == 0x1_0000_0000_0000_0000_0000_0000_0000_0000,
{
    assert(limit(0) == 1);
    assert(limit(1) == 0x100);
    assert(limit(2) == 0x1_0000);
    assert(limit(3) == 0x100_0000);
    assert(limit(4) == 0x1_0000_0000);
    assert(limit(5) == 0x100_0000_0000);
    assert(limit(6) == 0x1_0000_0000_0000);
    assert(limit(7) == 0x100_0000_0000_0000);
    assert(limit(8) == 0x1_0000_0000_0000_0000);
    assert(limit(9) == 0x100_0000_0000_0000_0000);
    assert(limit(10) == 0x1_0000_0000_0000_0000_0000);
    assert(limit(11) == 0x100_0000_0000_0000_0000_0000);
    assert(limit(12) == 0x1_0000_0000_0000_0000_0000_0000);
    assert(limit(13) == 0x100_0000_0000_0000_0000_0000_0000);
    assert(limit(14) == 0x1_0000_0000_0000_0000_0000_0000_0000);
    assert(limit(15) == 0x100_0000_0000_0000_0000_0000_0000_0000);
    assert(limit(16) == 0x1_0000_0000_0000_0000_0000_0000_0000_0000);
}

/// Two concatenations that agree, and whose first parts have one length,
/// agree part by part.
pub proof fn lemma_split(a: Seq<u8>, x: Seq<u8>, b: Seq<u8>, y: Seq<u8>)
    requires
        a + x == b + y,
        a.len() == b.len(),
    ensures
        a == b,
        x == y,
{
    let n = a.len() as int;
    assert((a + x).subrange(0, n) =~= a);
    assert((b + y).subrange(0, n) =~= b);
    assert((a + x).subrange(n, (a + x).len() as int) =~= x);
    assert((b + y).subrange(n, (b + y).len() as int) =~= y);
}

/// Two texts of at most 255 bytes that are written alike, whatever follows
/// them, are equal, and so is what follows.
pub proof fn lemma_text_split(a: Seq<u8>, x: Seq<u8>, b: Seq<u8>, y: Seq<u8>)
    requires
        text(a) + x == text(b) + y,
        a.len() <= 255,
        b.len() <= 255,
    ensures
        a == b,
        x == y,
{
    assert((text(a) + x)[0] == a.len() as u8);
    assert((text(b) + y)[0] == b.len() as u8);
    assert(a.len() == b.len());
    lemma_split(text(a), x, text(b), y);
    assert(text(a).subrange(1, text(a).len() as int) =~= a);
    assert(text(b).subrange(1, text(b).len() as int) =~= b);
}

/// Two client order ids that are written alike, whatever follows them, are
/// equal, and so is what follows.
pub proof fn lemma_cloid_split(a: Option<u128>, x: Seq<u8>, b: Option<u128>, y: Seq<u8>)
    requires
        cloid_layout(a) + x == cloid_layout(b) + y,
    ensures
        a == b,
        x == y,
{
    lemma_limits();
    assert((cloid_layout(a) + x)[0] == if a.is_some() { 1u8 } else { 0u8 });
    assert((cloid_layout(b) + y)[0] == if b.is_some() { 1u8 } else { 0u8 });
    match (a, b) {
        (Some(p), Some(q)) => {
            lemma_be_len(p as nat, 16);
            lemma_be_len(q as nat, 16);
            lemma_split(cloid_layout(a), x, cloid_layout(b), y);
            lemma_split(flag(true), be(p as nat, 16), flag(true), be(q as nat, 16));
            lemma_be_injective(p as nat, q as nat, 16);
        },
        (None, None) => {
            lemma_split(cloid_layout(a), x, cloid_layout(b), y);
        },
        _ => {},
    }
}

/// Two optional numbers that are written alike are equal.
pub proof fn lemma_optional_u64_injective(a: Option<u64>, b: Option<u64>)
    requires
        optional_u64_layout(a) == optional_u64_layout(b),
    ensures
        a == b,
{
    lemma_limits();
    assert(optional_u64_layout(a)[0] == if a.is_some() { 1u8 } else { 0u8 });
    assert(optional_u64_layout(b)[0] == if b.is_some() { 1u8 } else { 0u8 });
    match (a, b) {
        (Some(p), Some(q)) => {
            lemma_be_len(p as nat, 8);
            lemma_be_len(q as nat, 8);
            lemma_split(flag(true), be(p as nat, 8), flag(true), be(q as nat, 8));
            lemma_be_injective(p as nat, q as nat, 8);
        },
        _ => {},
    }
}

/// Two texts with the same bytes hold the same characters.
pub proof fn lemma_bytes_of_injective(a: Seq<char>, b: Seq<char>)
    requires
        bytes_of(a) == bytes_of(b),
    ensures
        a == b,
{
    vstd::utf8::encode_utf8_decode_utf8(a);
    vstd::utf8::encode_utf8_decode_utf8(b);
}

/// Concatenation does not depend on how it is bracketed.
pub proof fn lemma_assoc(a: Seq<u8>, b: Seq<u8>, c: Seq<u8>)
    ensures
        (a + b) + c == a + (b + c),
{
    assert((a + b) + c =~= a + (b + c));
}

/// The layout of an order followed by `rest`, written so that each field
/// is followed by everything behind it.
pub open spec fn order_then(order: OrderFields, rest: Seq<u8>) -> Seq<u8> {
    be(order.asset.unwrap() as nat, 4) + (flag(order.is_buy) + (text(bytes_of(order.limit_px))
        + (text(bytes_of(order.sz)) + (flag(order.reduce_only) + (seq![tif_code(order.tif)] + (
    cloid_layout(order.cloid) + rest))))))
}

/// The layout of an order followed by `rest` is the order's fields, each
/// followed by everything behind it.
pub proof fn lemma_order_then(order: OrderFields, rest: Seq<u8>)
    ensures
        order_layout(order) + rest == order_then(order, rest),
{
    let asset = be(order.asset.unwrap() as nat, 4);
    let side = flag(order.is_buy);
    let price = text(bytes_of(order.limit_px));
    let size = text(bytes_of(order.sz));
    let reduce = flag(order.reduce_only);
    let tif = seq![tif_code(order.tif)];
    let cloid = cloid_layout(order.cloid);
    lemma_assoc(asset + side + price + size + reduce + tif, cloid, rest);
    lemma_assoc(asset + side + price + size + reduce, tif, cloid + rest);
    lemma_assoc(asset + side + price + size, reduce, tif + (cloid + rest));
    lemma_assoc(asset + side + price, size, reduce + (tif + (cloid + rest)));
    lemma_assoc(asset + side, price, size + (reduce + (tif + (cloid + rest))));
    lemma_assoc(asset, side, price + (size + (reduce + (tif + (cloid + rest)))));
}

proof fn lemma_order_then_split(a: OrderFields, x: Seq<u8>, b: OrderFields, y: Seq<u8>)
    requires
        a.asset.is_some(),
        b.asset.is_some(),
        bytes_of(a.limit_px).len() <= 255,
        bytes_of(a.sz).len() <= 255,
        bytes_of(b.limit_px).len() <= 255,
        bytes_of(b.sz).len() <= 255,
        order_then(a, x) == order_then(b, y),
    ensures
        a == b,
        x == y,
{
    lemma_limits();
    lemma_be_len(a.asset.unwrap() as nat, 4);
    lemma_be_len(b.asset.unwrap() as nat, 4);
    let a5 = seq![tif_code(a.tif)] + (cloid_layout(a.cloid) + x);
    let b5 = seq![tif_code(b.tif)] + (cloid_layout(b.cloid) + y);
    let a4 = flag(a.reduce_only) + a5;
    let b4 = flag(b.reduce_only) + b5;
    let a3 = text(bytes_of(a.sz)) + a4;
    let b3 = text(bytes_of(b.sz)) + b4;
    let a2 = text(bytes_of(a.limit_px)) + a3;
    let b2 = text(bytes_of(b.limit_px)) + b3;
    let a1 = flag(a.is_buy) + a2;
    let b1 = flag(b.is_buy) + b2;
    lemma_split(be(a.asset.unwrap() as nat, 4), a1, be(b.asset.unwrap() as nat, 4), b1);
    lemma_be_injective(a.asset.unwrap() as nat, b.asset.unwrap() as nat, 4);
    lemma_split(flag(a.is_buy), a2, flag(b.is_buy), b2);
    assert(flag(a.is_buy)[0] == flag(b.is_buy)[0]);
    lemma_text_split(bytes_of(a.limit_px), a3, bytes_of(b.limit_px), b3);
    lemma_bytes_of_injective(a.limit_px, b.limit_px);
    lemma_text_split(bytes_of(a.sz), a4, bytes_of(b.sz), b4);
    lemma_bytes_of_injective(a.sz, b.sz);
    lemma_split(flag(a.reduce_only), a5, flag(b.reduce_only), b5);
    assert(flag(a.reduce_only)[0] == flag(b.reduce_only)[0]);
    lemma_split(
        seq![tif_code(a.tif)],
        cloid_layout(a.cloid) + x,
        seq![tif_code(b.tif)],
        cloid_layout(b.cloid) + y,
    );
    assert(seq![tif_code(a.tif)][0] == seq![tif_code(b.tif)][0]);
    lemma_cloid_split(a.cloid, x, b.cloid, y);
}

/// Two sound orders that are laid out alike, whatever follows them, are the
/// same order, and so is what follows.
pub proof fn lemma_order_split(a: OrderFields, x: Seq<u8>, b: OrderFields, y: Seq<u8>)
    requires
        a.asset.is_some(),
        b.asset.is_some(),
        is_numeral(bytes_of(a.limit_px)),
        is_numeral(bytes_of(a.sz)),
        is_numeral(bytes_of(b.limit_px)),
        is_numeral(bytes_of(b.sz)),
        order_layout(a) + x == order_layout(b) + y,
    ensures
        a == b,
        x == y,
{
    lemma_order_then(a, x);
    lemma_order_then(b, y);
    lemma_order_then_split(a, x, b, y);
}

/// Two sound actions that are laid out alike, whatever follows them, are
/// the same action, and so is what follows.
pub proof fn lemma_action_split(a: ActionFields, x: Seq<u8>, b: ActionFields, y: Seq<u8>)
    requires
        schema_fault(a).is_none(),
        schema_fault(b).is_none(),
        action_layout(a) + x == action_layout(b) + y,
    ensures
        a == b,
        x == y,
{
    lemma_limits();
    assert(action_layout(a) + x =~= seq![kind_code(a)] + (fields_layout(a) + x));
    assert(action_layout(b) + y =~= seq![kind_code(b)] + (fields_layout(b) + y));
    lemma_split(seq![kind_code(a)], fields_layout(a) + x, seq![kind_code(b)], fields_layout(b) + y);
    assert(seq![kind_code(a)][0] == seq![kind_code(b)][0]);
    match (a, b) {
        (ActionFields::PlaceOrder { order: p }, ActionFields::PlaceOrder { order: q }) => {
            lemma_order_split(p, x, q, y);
        },
        (
            ActionFields::CancelOrder { asset: p, oid: m },
            ActionFields::CancelOrder { asset: q, oid: n },
        ) => {
            lemma_be_len(p.unwrap() as nat, 4);
            lemma_be_len(q.unwrap() as nat, 4);
            lemma_be_len(m as nat, 8);
            lemma_be_len(n as nat, 8);
            lemma_split(fields_layout(a), x, fields_layout(b), y);
            lemma_split(
                be(p.unwrap() as nat, 4),
                be(m as nat, 8),
                be(q.unwrap() as nat, 4),
                be(n as nat, 8),
            );
            lemma_be_injective(p.unwrap() as nat, q.unwrap() as nat, 4);
            lemma_be_injective(m as nat, n as nat, 8);
        },
        (
            ActionFields::ModifyOrder { oid: m, order: p },
            ActionFields::ModifyOrder { oid: n, order: q },
        ) => {
            lemma_be_len(m as nat, 8);
            lemma_be_len(n as nat, 8);
            assert(fields_layout(a) + x =~= be(m as nat, 8) + (order_layout(p) + x));
            assert(fields_layout(b) + y =~= be(n as nat, 8) + (order_layout(q) + y));
            lemma_split(be(m as nat, 8), order_layout(p) + x, be(n as nat, 8), order_layout(q) + y);
            lemma_be_injective(m as nat, n as nat, 8);
            lemma_order_split(p, x, q, y);
        },
        (
            ActionFields::UpdateLeverage { asset: p, is_cross: c, leverage: l },
            ActionFields::UpdateLeverage { asset: q, is_cross: d, leverage: k },
        ) => {
            lemma_be_len(p.unwrap() as nat, 4);
            lemma_be_len(q.unwrap() as nat, 4);
            lemma_be_len(l as nat, 4);
            lemma_be_len(k as nat, 4);
            lemma_split(fields_layout(a), x, fields_layout(b), y);
            assert(fields_layout(a) =~= be(p.unwrap() as nat, 4) + (flag(c) + be(l as nat, 4)));
            assert(fields_layout(b) =~= be(q.unwrap() as nat, 4) + (flag(d) + be(k as nat, 4)));
            lemma_split(
                be(p.unwrap() as nat, 4),
                flag(c) + be(l as nat, 4),
                be(q.unwrap() as nat, 4),
                flag(d) + be(k as nat, 4),
            );
            lemma_split(flag(c), be(l as nat, 4), flag(d), be(k as nat, 4));
            assert(flag(c)[0] == flag(d)[0]);
            lemma_be_injective(p.unwrap() as nat, q.unwrap() as nat, 4);
            lemma_be_injective(l as nat, k as nat, 4);
        },
        (
            ActionFields::ReserveRequestWeight { weight: m },
            ActionFields::ReserveRequestWeight { weight: n },
        ) => {
            lemma_be_len(m as nat, 8);
            lemma_be_len(n as nat, 8);
            lemma_split(fields_layout(a), x, fields_layout(b), y);
            lemma_be_injective(m as nat, n as nat, 8);
        },
        _ => {},
    }
}

/// What is hashed tells the action, the nonce and the expiry apart: two
/// sound actions with their nonces and expiries that come to the same bytes
/// are the same action, with the same nonce and the same expiry.
pub proof fn lemma_signing_payload_injective(
    a: ActionFields,
    nonce_a: u64,
    expires_a: Option<u64>,
    b: ActionFields,
    nonce_b: u64,
    expires_b: Option<u64>,
)
    requires
        schema_fault(a).is_none(),
        schema_fault(b).is_none(),
        signing_payload(a, nonce_a, expires_a) == signing_payload(b, nonce_b, expires_b),
    ensures
        a == b,
        nonce_a == nonce_b,
        expires_a == expires_b,
{
    lemma_limits();
    let tail_a = be(nonce_a as nat, 8) + optional_u64_layout(expires_a);
    let tail_b = be(nonce_b as nat, 8) + optional_u64_layout(expires_b);
    assert(signing_payload(a, nonce_a, expires_a) =~= action_layout(a) + tail_a);
    assert(signing_payload(b, nonce_b, expires_b) =~= action_layout(b) + tail_b);
    lemma_action_split(a, tail_a, b, tail_b);
    lemma_be_len(nonce_a as nat, 8);
    lemma_be_len(nonce_b as nat, 8);
    lemma_split(
        be(nonce_a as nat, 8),
        optional_u64_layout(expires_a),
        be(nonce_b as nat, 8),
        optional_u64_layout(expires_b),
    );
    lemma_be_injective(nonce_a as nat, nonce_b as nat, 8);
    lemma_optional_u64_injective(expires_a, expires_b);
}

/// Appends `bytes` to `out`.
pub fn put_bytes(out: &mut Vec<u8>, bytes: &[u8])
    ensures
        final(out)@ == old(out)@ + bytes@,
{
    let mut i: usize = 0;
    while i < bytes.len()
        invariant
            i <= bytes.len(),
            out@ == old(out)@ + bytes@.take(i as int),
        decreases bytes.len() - i,
    {
        out.push(bytes[i]);
        assert(out@ =~= old(out)@ + bytes@.take(i + 1));
        i += 1;
    }
    assert(bytes@.take(i as int) =~= bytes@);
}

/// Appends `value` to `out` in `width` bytes, most significant byte first.
pub fn put_be(out: &mut Vec<u8>, value: u128, width: u8)
    ensures
        final(out)@ == old(out)@ + be(value as nat, width as nat),
    decreases width,
{
    if width > 0 {
        put_be(out, value / 256, width - 1);
        out.push((value % 256) as u8);
        assert(out@ =~= old(out)@ + be(value as nat, width as nat));
    } else {
        assert(out@ =~= old(out)@ + be(value as nat, width as nat));
    }
}

/// Appends a flag to `out`.
pub fn put_flag(out: &mut Vec<u8>, on: bool)
    ensures
        final(out)@ == old(out)@ + flag(on),
{
    out.push(if on { 1u8 } else { 0u8 });
    assert(out@ =~= old(out)@ + flag(on));
}

/// Appends a numeral to `out`, behind the byte of its length.
pub fn put_text(out: &mut Vec<u8>, numeral: &str)
    requires
        is_numeral(bytes_of(numeral@)),
    ensures
        final(out)@ == old(out)@ + text(bytes_of(numeral@)),
{
    let bytes: &[u8] = numeral.as_bytes();
    out.push(bytes.len() as u8);
    put_bytes(out, bytes);
    assert(out@ =~= old(out)@ + text(bytes_of(numeral@)));
}

/// Appends an optional 64-bit number to `out`.
pub fn put_optional_u64(out: &mut Vec<u8>, number: Option<u64>)
    ensures
        final(out)@ == old(out)@ + optional_u64_layout(number),
{
    match number {
        Some(n) => {
            put_flag(out, true);
            put_be(out, n as u128, 8);
            assert(out@ =~= old(out)@ + optional_u64_layout(number));
        },
        None => {
            put_flag(out, false);
        },
    }
}

fn tif_byte(tif: TimeInForce) -> (code: u8)
    ensures
        code == tif_code(tif),
{
    match tif {
        TimeInForce::Alo => 0,
        TimeInForce::Ioc => 1,
        TimeInForce::Gtc => 2,
    }
}

/// Appends the layout of a sound order to `out`.
pub fn put_order(out: &mut Vec<u8>, order: &OrderRequest)
    requires
        order@.asset.is_some(),
        is_numeral(bytes_of(order@.limit_px)),
        is_numeral(bytes_of(order@.sz)),
    ensures
        final(out)@ == old(out)@ + order_layout(order@),
{
    let asset: u32 = match order.asset {
        Some(asset) => asset,
        None => 0,
    };
    put_be(out, asset as u128, 4);
    put_flag(out, order.is_buy);
    put_text(out, order.limit_px.as_str());
    put_text(out, order.sz.as_str());
    put_flag(out, order.reduce_only);
    out.push(tif_byte(order.tif));
    let ghost before_cloid = out@;
    match order.cloid {
        Some(id) => {
            put_flag(out, true);
            put_be(out, id, 16);
            assert(out@ =~= before_cloid + cloid_layout(order.cloid));
        },
        None => {
            put_flag(out, false);
        },
    }
    assert(out@ =~= old(out)@ + order_layout(order@));
}

/// The layout of a sound action.
pub fn lay_out(action: &Action) -> (bytes: Vec<u8>)
    requires
        schema_fault(action@).is_none(),
    ensures
        bytes@ == action_layout(action@),
{
    let mut out: Vec<u8> = Vec::new();
    match action {
        Action::PlaceOrder(order) => {
            out.push(1u8);
            put_order(&mut out, order);
        },
        Action::CancelOrder(cancel) => {
            out.push(2u8);
            let asset: u32 = match cancel.asset {
                Some(asset) => asset,
                None => 0,
            };
            put_be(&mut out, asset as u128, 4);
            put_be(&mut out, cancel.oid as u128, 8);
        },
        Action::ModifyOrder(modify) => {
            out.push(3u8);
            put_be(&mut out, modify.oid as u128, 8);
            put_order(&mut out, &modify.order);
        },
        Action::UpdateLeverage(update) => {
            out.push(4u8);
            let asset: u32 = match update.asset {
                Some(asset) => asset,
                None => 0,
            };
            put_be(&mut out, asset as u128, 4);
            put_flag(&mut out, update.is_cross);
            put_be(&mut out, update.leverage as u128, 4);
        },
        Action::ReserveRequestWeight(reserve) => {
            out.push(5u8);
            put_be(&mut out, reserve.weight as u128, 8);
        },
    }
    assert(out@ =~= action_layout(action@));
    out
}

} // verus!
