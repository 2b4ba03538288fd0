//! Rendering of numbers and bytes as text.
use vstd::prelude::*;

verus! {

/// The character code of the digit `0`.
pub const ZERO: u8 = 0x30;

/// The character code of the letter `a`.
pub const LOWER_A: u8 = 0x61;

/// The lowercase hexadecimal digit for a value below 16.
pub open spec fn hex_digit(nibble: u8) -> char {
    if nibble < 10 {
        (ZERO + nibble) as char
    } else {
        (LOWER_A + nibble - 10) as char
    }
}

/// The lowercase hexadecimal text of `bytes`: two digits for each byte, the
/// high half first.
pub open spec fn hex_text(bytes: Seq<u8>) -> Seq<char> {
    Seq::new(
        2 * bytes.len(),
        |i: int|
            if i % 2 == 0 {
                hex_digit(bytes[i / 2] / 16)
            } else {
                hex_digit(bytes[i / 2] % 16)
            },
    )
}

/// The decimal digit for a value below 10.
pub open spec fn decimal_digit(digit: nat) -> char {
    (ZERO + digit) as char
}

/// The decimal text of `n`, without leading zeros.
pub open spec fn decimal_text(n: nat) -> Seq<char>
    decreases n,
{
    if n < 10 {
        seq![decimal_digit(n)]
    } else {
        decimal_text(n / 10).push(decimal_digit(n % 10))
    }
}

/// `String::push` of the standard library appends the given character to the
/// end of the string.
pub assume_specification[ String::push ](text: &mut String, ch: char)
    ensures
        final(text)@ == old(text)@.push(ch),
;

/// Calls `hex::encode`.
///
/// Trusted: the result holds two lowercase hexadecimal digits for each byte
/// of `data`, in order, the high half of a byte before its low half.
#[verifier::external_body]
pub(crate) fn hex_encode(data: &[u8]) -> (text: String)
    ensures
        text@ == hex_text(data@),
{
    hex::encode(data)
}

/// Appends the two hexadecimal digits of `byte` to `out`.
pub fn push_hex_byte(out: &mut String, byte: u8)
    ensures
        final(out)@ == old(out)@ + hex_text(seq![byte]),
{
    let high = hex_digit_of(byte / 16);
    let low = hex_digit_of(byte % 16);
    out.push(high);
    out.push(low);
}

/// The lowercase hexadecimal digit for a value below 16.
fn hex_digit_of(nibble: u8) -> (digit: char)
    requires
        nibble < 16,
    ensures
        digit == hex_digit(nibble),
{
    if nibble < 10 {
        (ZERO + nibble) as char
    } else {
        (LOWER_A + (nibble - 10)) as char
    }
}

/// The decimal text of `n`.
pub fn decimal(n: usize) -> (text: String)
    ensures
        text@ == decimal_text(n as nat),
{
    // The digits above the lowest one are found lowest first, and written
    // out highest first.
    let mut low_first: Vec<char> = Vec::new();
    let mut rest: usize = n;
    while rest >= 10
        invariant
            decimal_text(n as nat) == decimal_text(rest as nat) + low_first@.reverse(),
        decreases rest,
    {
        let digit = (ZERO + (rest % 10) as u8) as char;
        low_first.push(digit);
        rest = rest / 10;
    }
    let mut text = String::new();
    text.push((ZERO + rest as u8) as char);
    let mut left: usize = low_first.len();
    while left > 0
        invariant
            left <= low_first.len(),
            text@ == decimal_text(rest as nat) + low_first@.reverse().subrange(
                0,
                low_first.len() - left,
            ),
        decreases left,
    {
        left = left - 1;
        text.push(low_first[left]);
    }
    text
}

} // verus!
