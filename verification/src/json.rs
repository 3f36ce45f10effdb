//! The pieces of JSON text that token headers and claims are framed from, as bytes.

use vstd::prelude::*;
use vstd::utf8::encode_utf8;

verus! {

/// The lowercase hexadecimal digit for `v`.
pub open spec fn hex_digit(v: int) -> u8 {
    if v < 10 {
        ('0' as u8 + v) as u8
    } else {
        ('a' as u8 + v - 10) as u8
    }
}

/// What one byte of a string becomes inside a JSON string literal: a quote, a backslash
/// and the control characters are escaped, every other byte stands for itself.
pub open spec fn escaped_byte(b: u8) -> Seq<u8> {
    if b == '"' as u8 {
        seq!['\\' as u8, '"' as u8]
    } else if b == '\\' as u8 {
        seq!['\\' as u8, '\\' as u8]
    } else if b == 0x08 {
        seq!['\\' as u8, 'b' as u8]
    } else if b == 0x09 {
        seq!['\\' as u8, 't' as u8]
    } else if b == 0x0a {
        seq!['\\' as u8, 'n' as u8]
    } else if b == 0x0c {
        seq!['\\' as u8, 'f' as u8]
    } else if b == 0x0d {
        seq!['\\' as u8, 'r' as u8]
    } else if b < 0x20 {
        seq![
            '\\' as u8,
            'u' as u8,
            '0' as u8,
            '0' as u8,
            hex_digit(b as int / 16),
            hex_digit(b as int % 16),
        ]
    } else {
        seq![b]
    }
}

/// The escaped form of a whole byte string.
pub open spec fn escaped(bytes: Seq<u8>) -> Seq<u8>
    decreases bytes.len(),
{
    if bytes.len() == 0 {
        Seq::empty()
    } else {
        escaped(bytes.drop_last()) + escaped_byte(bytes.last())
    }
}

/// The JSON string literal for `text`, in UTF-8.
pub open spec fn json_string(text: Seq<char>) -> Seq<u8> {
    seq!['"' as u8] + escaped(encode_utf8(text)) + seq!['"' as u8]
}

/// The decimal digits of `n`, without leading zeros.
pub open spec fn decimal_digits(n: nat) -> Seq<u8>
    decreases n,
{
    if n < 10 {
        seq![('0' as u8 + n) as u8]
    } else {
        decimal_digits(n / 10) + seq![('0' as u8 + n % 10) as u8]
    }
}

/// The JSON number for the integer `v`.
pub open spec fn json_integer(v: int) -> Seq<u8> {
    if v < 0 {
        seq!['-' as u8] + decimal_digits((-v) as nat)
    } else {
        decimal_digits(v as nat)
    }
}

/// The bytes of a piece of fixed text.
pub open spec fn text_bytes(text: &str) -> Seq<u8> {
    encode_utf8(text@)
}

fn hex_digit_of(v: u8) -> (d: u8)
    requires
        v < 16,
    ensures
        d == hex_digit(v as int),
{
    if v < 10 {
        '0' as u8 + v
    } else {
        'a' as u8 + (v - 10)
    }
}

fn push_escaped_byte(out: &mut Vec<u8>, b: u8)
    ensures
        final(out)@ == old(out)@ + escaped_byte(b),
{
    if b == '"' as u8 || b == '\\' as u8 {
        out.push('\\' as u8);
        out.push(b);
    } else if b == 0x08 {
        out.push('\\' as u8);
        out.push('b' as u8);
    } else if b == 0x09 {
        out.push('\\' as u8);
        out.push('t' as u8);
    } else if b == 0x0a {
        out.push('\\' as u8);
        out.push('n' as u8);
    } else if b == 0x0c {
        out.push('\\' as u8);
        out.push('f' as u8);
    } else if b == 0x0d {
        out.push('\\' as u8);
        out.push('r' as u8);
    } else if b < 0x20 {
        out.push('\\' as u8);
        out.push('u' as u8);
        out.push('0' as u8);
        out.push('0' as u8);
        out.push(hex_digit_of(b / 16));
        out.push(hex_digit_of(b % 16));
    } else {
        out.push(b);
    }
    assert(out@ =~= old(out)@ + escaped_byte(b));
}

/// Appends fixed text to `out`.
pub fn push_text(out: &mut Vec<u8>, text: &str)
    ensures
        final(out)@ == old(out)@ + text_bytes(text),
{
    out.extend_from_slice(text.as_bytes());
}

/// Appends the JSON string literal for `text` to `out`.
pub fn push_json_string(out: &mut Vec<u8>, text: &str)
    ensures
        final(out)@ == old(out)@ + json_string(text@),
{
    let bytes = text.as_bytes();
    out.push('"' as u8);
    let mut i: usize = 0;
    while i < bytes.len()
        invariant
            i <= bytes.len(),
            bytes@ == encode_utf8(text@),
            out@ == old(out)@ + seq!['"' as u8] + escaped(bytes@.take(i as int)),
        decreases bytes.len() - i,
    {
        push_escaped_byte(out, bytes[i]);
        proof {
            let next = bytes@.take(i + 1);
            assert(next.drop_last() =~= bytes@.take(i as int));
            assert(next.last() == bytes@[i as int]);
        }
        i += 1;
    }
    out.push('"' as u8);
    proof {
        assert(bytes@.take(i as int) =~= bytes@);
        assert(out@ =~= old(out)@ + json_string(text@));
    }
}

fn push_decimal_digits(out: &mut Vec<u8>, n: u64)
    ensures
        final(out)@ == old(out)@ + decimal_digits(n as nat),
    decreases n,
{
    if n >= 10 {
        push_decimal_digits(out, n / 10);
    }
    out.push('0' as u8 + (n % 10) as u8);
    assert(out@ =~= old(out)@ + decimal_digits(n as nat));
}

/// Appends the JSON number for `v` to `out`.
pub fn push_json_integer(out: &mut Vec<u8>, v: i64)
    ensures
        final(out)@ == old(out)@ + json_integer(v as int),
{
    if v < 0 {
        out.push('-' as u8);
        let magnitude: u64 = if v == i64::MIN {
            0x8000_0000_0000_0000
        } else {
            (-v) as u64
        };
        push_decimal_digits(out, magnitude);
    } else {
        push_decimal_digits(out, v as u64);
    }
    assert(out@ =~= old(out)@ + json_integer(v as int));
}

} // verus!
