//! Writing JSON text, byte by byte.
//!
//! The writers append to a byte vector. Text is written in UTF-8: only the
//! quotation mark, the backslash and the control characters are escaped,
//! and every other byte is written as it is.

use crate::exchange::actions::bytes_of;
use vstd::prelude::*;

verus! {

/// The digit that stands for `n` in lower-case hexadecimal.
pub open spec fn hex_digit(n: int) -> u8 {
    if n < 10 {
        (0x30 + n) as u8
    } else {
        (0x61 + n - 10) as u8
    }
}

/// The bytes in lower-case hexadecimal, two digits for each.
pub open spec fn hex(bytes: Seq<u8>) -> Seq<u8>
    decreases bytes.len(),
{
    if bytes.len() == 0 {
        Seq::empty()
    } else {
        hex(bytes.drop_last()) + seq![
            hex_digit(bytes.last() as int / 16),
            hex_digit(bytes.last() as int % 16),
        ]
    }
}

/// The bytes as a JSON string that holds `0x` and their hexadecimal form.
pub open spec fn hex_string(bytes: Seq<u8>) -> Seq<u8> {
    seq![0x22u8, 0x30u8, 0x78u8] + hex(bytes) + seq![0x22u8]
}

/// The number in decimal digits, without leading zeros.
pub open spec fn decimal(n: nat) -> Seq<u8>
    decreases n,
{
    if n < 10 {
        seq![(0x30 + n) as u8]
    } else {
        decimal(n / 10) + seq![(0x30 + n % 10) as u8]
    }
}

/// How one byte of a text is written inside a JSON string.
pub open spec fn escape(byte: u8) -> Seq<u8> {
    if byte == 0x22 {
        seq![0x5cu8, 0x22u8]
    } else if byte == 0x5c {
        seq![0x5cu8, 0x5cu8]
    } else if byte == 0x08 {
        seq![0x5cu8, 0x62u8]
    } else if byte == 0x0c {
        seq![0x5cu8, 0x66u8]
    } else if byte == 0x0a {
        seq![0x5cu8, 0x6eu8]
    } else if byte == 0x0d {
        seq![0x5cu8, 0x72u8]
    } else if byte == 0x09 {
        seq![0x5cu8, 0x74u8]
    } else if byte < 0x20 {
        seq![
            0x5cu8,
            0x75u8,
            0x30u8,
            0x30u8,
            hex_digit(byte as int / 16),
            hex_digit(byte as int % 16),
        ]
    } else {
        seq![byte]
    }
}

/// The bytes of a text as they are written inside a JSON string.
pub open spec fn escaped(bytes: Seq<u8>) -> Seq<u8>
    decreases bytes.len(),
{
    if bytes.len() == 0 {
        Seq::empty()
    } else {
        escaped(bytes.drop_last()) + escape(bytes.last())
    }
}

/// A text as a JSON string.
pub open spec fn string(text: Seq<char>) -> Seq<u8> {
    seq![0x22u8] + escaped(bytes_of(text)) + seq![0x22u8]
}

/// `true` or `false`.
pub open spec fn boolean(on: bool) -> Seq<u8> {
    if on {
        bytes_of("true"@)
    } else {
        bytes_of("false"@)
    }
}

/// Appends the bytes of `literal`.
pub fn put_literal(out: &mut Vec<u8>, literal: &str)
    ensures
        final(out)@ == old(out)@ + bytes_of(literal@),
{
    let bytes: &[u8] = literal.as_bytes();
    let mut i: usize = 0;
    while i < bytes.len()
        invariant
            i <= bytes.len(),
            out@ == old(out)@ + bytes@.take(i as int),
        decreases bytes.len() - i,
    {
        out.push(bytes[i]);
        assert(out@ =~= old(out)@ + bytes@.take(i + 1));
        i += 1;
    }
    assert(bytes@.take(i as int) =~= bytes@);
}

fn hex_digit_of(n: u8) -> (digit: u8)
    requires
        n < 16,
    ensures
        digit == hex_digit(n as int),
{
    if n < 10 {
        0x30 + n
    } else {
        0x61 + (n - 10)
    }
}

/// Appends the hexadecimal form of `bytes`.
pub fn put_hex(out: &mut Vec<u8>, bytes: &[u8])
    ensures
        final(out)@ == old(out)@ + hex(bytes@),
{
    let mut i: usize = 0;
    assert(bytes@.take(0) =~= Seq::<u8>::empty());
    while i < bytes.len()
        invariant
            i <= bytes.len(),
            out@ == old(out)@ + hex(bytes@.take(i as int)),
        decreases bytes.len() - i,
    {
        let byte: u8 = bytes[i];
        proof {
            let next = bytes@.take(i + 1);
            assert(next.drop_last() =~= bytes@.take(i as int));
            assert(next.last() == byte);
        }
        out.push(hex_digit_of(byte / 16));
        out.push(hex_digit_of(byte % 16));
        assert(out@ =~= old(out)@ + hex(bytes@.take(i + 1)));
        i += 1;
    }
    assert(bytes@.take(i as int) =~= bytes@);
}

/// Appends `bytes` as a JSON string that holds `0x` and their hexadecimal
/// form.
pub fn put_hex_string(out: &mut Vec<u8>, bytes: &[u8])
    ensures
        final(out)@ == old(out)@ + hex_string(bytes@),
{
    out.push(0x22u8);
    out.push(0x30u8);
    out.push(0x78u8);
    put_hex(out, bytes);
    out.push(0x22u8);
    assert(out@ =~= old(out)@ + hex_string(bytes@));
}

/// Appends `n` in decimal digits.
pub fn put_decimal(out: &mut Vec<u8>, n: u64)
    ensures
        final(out)@ == old(out)@ + decimal(n as nat),
    decreases n,
{
    if n < 10 {
        out.push(0x30u8 + n as u8);
        assert(out@ =~= old(out)@ + decimal(n as nat));
    } else {
        put_decimal(out, n / 10);
        out.push(0x30u8 + (n % 10) as u8);
        assert(out@ =~= old(out)@ + decimal(n as nat));
    }
}

fn put_escape(out: &mut Vec<u8>, byte: u8)
    ensures
        final(out)@ == old(out)@ + escape(byte),
{
    if byte == 0x22 {
        out.push(0x5cu8);
        out.push(0x22u8);
    } else if byte == 0x5c {
        out.push(0x5cu8);
        out.push(0x5cu8);
    } else if byte == 0x08 {
        out.push(0x5cu8);
        out.push(0x62u8);
    } else if byte == 0x0c {
        out.push(0x5cu8);
        out.push(0x66u8);
    } else if byte == 0x0a {
        out.push(0x5cu8);
        out.push(0x6eu8);
    } else if byte == 0x0d {
        out.push(0x5cu8);
        out.push(0x72u8);
    } else if byte == 0x09 {
        out.push(0x5cu8);
        out.push(0x74u8);
    } else if byte < 0x20 {
        out.push(0x5cu8);
        out.push(0x75u8);
        out.push(0x30u8);
        out.push(0x30u8);
        out.push(hex_digit_of(byte / 16));
        out.push(hex_digit_of(byte % 16));
    } else {
        out.push(byte);
    }
    assert(out@ =~= old(out)@ + escape(byte));
}

/// Appends `text` as a JSON string.
pub fn put_string(out: &mut Vec<u8>, text: &str)
    ensures
        final(out)@ == old(out)@ + string(text@),
{
    let bytes: &[u8] = text.as_bytes();
    out.push(0x22u8);
    let ghost opened = out@;
    let mut i: usize = 0;
    assert(bytes@.take(0) =~= Seq::<u8>::empty());
    while i < bytes.len()
        invariant
            i <= bytes.len(),
            out@ == opened + escaped(bytes@.take(i as int)),
        decreases bytes.len() - i,
    {
        proof {
            let next = bytes@.take(i + 1);
            assert(next.drop_last() =~= bytes@.take(i as int));
            assert(next.last() == bytes@[i as int]);
        }
        put_escape(out, bytes[i]);
        assert(out@ =~= opened + escaped(bytes@.take(i + 1)));
        i += 1;
    }
    assert(bytes@.take(i as int) =~= bytes@);
    out.push(0x22u8);
    assert(out@ =~= old(out)@ + string(text@));
}

/// Appends `true` or `false`.
pub fn put_boolean(out: &mut Vec<u8>, on: bool)
    ensures
        final(out)@ == old(out)@ + boolean(on),
{
    if on {
        put_literal(out, "true");
    } else {
        put_literal(out, "false");
    }
}

} // verus!
