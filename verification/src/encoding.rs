//! Byte and text encodings of the numbers that enter keys, nonces and
//! audit records.

use vstd::prelude::*;
use vstd::string::StringExecFns;

verus! {

/// The eight bytes of `value`, most significant first.
#[verifier::opaque]
pub open spec fn be64(value: u64) -> Seq<u8> {
    seq![
        (value / 0x0100_0000_0000_0000) as u8,
        (value / 0x0001_0000_0000_0000 % 256) as u8,
        (value / 0x0000_0100_0000_0000 % 256) as u8,
        (value / 0x0000_0001_0000_0000 % 256) as u8,
        (value / 0x0000_0000_0100_0000 % 256) as u8,
        (value / 0x0000_0000_0001_0000 % 256) as u8,
        (value / 0x0000_0000_0000_0100 % 256) as u8,
        (value % 256) as u8,
    ]
}

/// The number that eight bytes spell, most significant first.
pub open spec fn be64_value(bytes: Seq<u8>) -> int
    recommends
        bytes.len() == 8,
{
    bytes[0] * 0x0100_0000_0000_0000 + bytes[1] * 0x0001_0000_0000_0000 + bytes[2]
        * 0x0000_0100_0000_0000 + bytes[3] * 0x0000_0001_0000_0000 + bytes[4]
        * 0x0000_0000_0100_0000 + bytes[5] * 0x0000_0000_0001_0000 + bytes[6]
        * 0x0000_0000_0000_0100 + bytes[7]
}

/// Reading back the big-endian bytes of a number gives the number, so the
/// encoding is one to one and keeps the order of the numbers.
pub proof fn lemma_be64_round_trip(value: u64)
    ensures
        be64(value).len() == 8,
        be64_value(be64(value)) == value,
{
    reveal(be64);
    assert((value / 0x0100_0000_0000_0000) as u8 * 0x0100_0000_0000_0000 + (value
        / 0x0001_0000_0000_0000 % 256) as u8 * 0x0001_0000_0000_0000 + (value
        / 0x0000_0100_0000_0000 % 256) as u8 * 0x0000_0100_0000_0000 + (value
        / 0x0000_0001_0000_0000 % 256) as u8 * 0x0000_0001_0000_0000 + (value
        / 0x0000_0000_0100_0000 % 256) as u8 * 0x0000_0000_0100_0000 + (value
        / 0x0000_0000_0001_0000 % 256) as u8 * 0x0000_0000_0001_0000 + (value
        / 0x0000_0000_0000_0100 % 256) as u8 * 0x0000_0000_0000_0100 + (value % 256) as u8
        == value) by (bit_vector);
}

/// The eight bytes of `value`, most significant first.
pub fn be64_bytes(value: u64) -> (bytes: [u8; 8])
    ensures
        bytes@ == be64(value),
{
    let bytes: [u8; 8] = [
        (value / 0x0100_0000_0000_0000) as u8,
        (value / 0x0001_0000_0000_0000 % 256) as u8,
        (value / 0x0000_0100_0000_0000 % 256) as u8,
        (value / 0x0000_0001_0000_0000 % 256) as u8,
        (value / 0x0000_0000_0100_0000 % 256) as u8,
        (value / 0x0000_0000_0001_0000 % 256) as u8,
        (value / 0x0000_0000_0000_0100 % 256) as u8,
        (value % 256) as u8,
    ];
    assert(bytes@ =~= be64(value)) by {
        reveal(be64);
    }
    bytes
}

/// The character of a decimal digit.
pub open spec fn decimal_digit(digit: int) -> char {
    seq!['0', '1', '2', '3', '4', '5', '6', '7', '8', '9'][digit]
}

/// Decimal text of `n`, without sign, padding or leading zeros.
pub open spec fn decimal_text(n: nat) -> Seq<char>
    decreases n,
{
    if n < 10 {
        seq![decimal_digit(n as int)]
    } else {
        decimal_text(n / 10).push(decimal_digit((n % 10) as int))
    }
}

/// The text of one decimal digit.
fn digit_text(digit: u64) -> (text: &'static str)
    requires
        digit < 10,
    ensures
        text@ == seq![decimal_digit(digit as int)],
{
    proof {
        reveal_strlit("0");
        reveal_strlit("1");
        reveal_strlit("2");
        reveal_strlit("3");
        reveal_strlit("4");
        reveal_strlit("5");
        reveal_strlit("6");
        reveal_strlit("7");
        reveal_strlit("8");
        reveal_strlit("9");
    }
    let text: &'static str = match digit {
        0 => "0",
        1 => "1",
        2 => "2",
        3 => "3",
        4 => "4",
        5 => "5",
        6 => "6",
        7 => "7",
        8 => "8",
        _ => "9",
    };
    assert(text@ =~= seq![decimal_digit(digit as int)]);
    text
}

/// Appends the decimal text of `n` to `text`.
pub fn push_decimal(text: &mut String, n: u64)
    ensures
        final(text)@ == old(text)@ + decimal_text(n as nat),
    decreases n,
{
    if n >= 10 {
        push_decimal(text, n / 10);
    }
    text.append(digit_text(n % 10));
    assert(text@ =~= old(text)@ + decimal_text(n as nat));
}

} // verus!
