//! Hexadecimal text: the `0x` prefix, digits, quantities, and the codec between bytes and digits.

use vstd::prelude::*;
use vstd::string::*;
use vstd::utf8::encode_utf8;

verus! {

/// Why a text is not the hexadecimal form of a byte string.
#[derive(Debug, Clone, Copy, PartialEq, Eq, Structural)]
pub enum DecodeError {
    /// The byte at `index` is no hexadecimal digit; `c` is that byte read as a character.
    InvalidHexCharacter { c: char, index: usize },
    /// The text has an odd number of bytes.
    OddLength,
    /// The text does not fill a container of fixed size.
    InvalidStringLength,
}

/// The number of bytes that a text takes in UTF-8.
pub open spec fn byte_len(text: Seq<char>) -> nat {
    encode_utf8(text).len()
}

/// `0`-`9`, `A`-`F` and `a`-`f`, as ASCII bytes.
pub open spec fn is_hex_digit(b: u8) -> bool {
    ||| 0x30 <= b <= 0x39
    ||| 0x41 <= b <= 0x46
    ||| 0x61 <= b <= 0x66
}

/// The value of a hexadecimal digit, `0` to `15`.
pub open spec fn digit_value(b: u8) -> int {
    if 0x30 <= b <= 0x39 {
        b - 0x30
    } else if 0x41 <= b <= 0x46 {
        b - 0x41 + 10
    } else {
        b - 0x61 + 10
    }
}

/// The lower-case digit for a value from `0` to `15`.
pub open spec fn lower_digit(n: int) -> char {
    if n < 10 {
        (0x30 + n) as char
    } else {
        (0x61 + n - 10) as char
    }
}

/// Every byte of the text is a hexadecimal digit.
pub open spec fn all_hex_digits(text: Seq<u8>) -> bool {
    forall|i: int| 0 <= i < text.len() ==> is_hex_digit(#[trigger] text[i])
}

/// The value of the first digit of a byte.
pub open spec fn high_half(b: u8) -> int {
    b as int / 16
}

/// The value of the second digit of a byte.
pub open spec fn low_half(b: u8) -> int {
    b as int % 16
}

/// Two lower-case digits for each byte, the high half first.
pub open spec fn hex_text(bytes: Seq<u8>) -> Seq<char> {
    Seq::new(
        2 * bytes.len(),
        |i: int|
            lower_digit(
                if i % 2 == 0 {
                    high_half(bytes[i / 2])
                } else {
                    low_half(bytes[i / 2])
                },
            ),
    )
}

/// The bytes that pairs of digits stand for.
pub open spec fn hex_bytes(text: Seq<u8>) -> Seq<u8> {
    Seq::new(
        text.len() / 2,
        |i: int| (16 * digit_value(text[2 * i]) + digit_value(text[2 * i + 1])) as u8,
    )
}

/// The text is the hexadecimal form of some byte string.
pub open spec fn is_hex_form(text: Seq<u8>) -> bool {
    &&& text.len() % 2 == 0
    &&& all_hex_digits(text)
}

/// `error` names what keeps the text from being a hexadecimal form: an odd length before
/// anything else, then the first byte that is no digit.
pub open spec fn is_hex_fault(text: Seq<u8>, error: DecodeError) -> bool {
    match error {
        DecodeError::OddLength => text.len() % 2 != 0,
        DecodeError::InvalidHexCharacter { c, index } => {
            &&& text.len() % 2 == 0
            &&& index < text.len()
            &&& c == text[index as int] as char
            &&& !is_hex_digit(text[index as int])
            &&& all_hex_digits(text.take(index as int))
        },
        DecodeError::InvalidStringLength => false,
    }
}

/// Calls `hex::decode`. The text is read byte by byte: pairs of digits, in either case, become
/// bytes; an odd length is reported first, then the first byte that is no digit, with its
/// position.
#[verifier::external_body]
pub(crate) fn hex_decode(text: &str) -> (res: Result<Vec<u8>, DecodeError>)
    ensures
        match res {
            Ok(bytes) => is_hex_form(encode_utf8(text@)) && bytes@ == hex_bytes(encode_utf8(text@)),
            Err(error) => is_hex_fault(encode_utf8(text@), error),
        },
{
    match hex::decode(text) {
        Ok(bytes) => Ok(bytes),
        Err(hex::FromHexError::InvalidHexCharacter { c, index }) => {
            Err(DecodeError::InvalidHexCharacter { c, index })
        },
        Err(hex::FromHexError::OddLength) => Err(DecodeError::OddLength),
        Err(hex::FromHexError::InvalidStringLength) => Err(DecodeError::InvalidStringLength),
    }
}

/// Calls `hex::encode`, which writes two lower-case digits for each byte. It reserves room for
/// the whole text at once, so the text has to fit into one allocation.
#[verifier::external_body]
pub(crate) fn hex_encode(bytes: &[u8]) -> (res: String)
    requires
        2 * bytes@.len() <= isize::MAX,
    ensures
        res@ == hex_text(bytes@),
{
    hex::encode(bytes)
}

/// The text without a leading `0x` or `0X`.
pub open spec fn without_prefix(text: Seq<char>) -> Seq<char> {
    if text.len() >= 2 && text[0] == '0' && (text[1] == 'x' || text[1] == 'X') {
        text.skip(2)
    } else {
        text
    }
}

/// Removes one hexadecimal prefix, `0x` or `0X`; a text without one comes back as it is. The
/// text has at least two bytes.
pub fn remove_0x(hex: &str) -> (res: &str)
    requires
        byte_len(hex@) >= 2,
    ensures
        res@ == without_prefix(hex@),
{
    let n: usize = hex.unicode_len();
    if n >= 2 && hex.get_char(0) == '0' && (hex.get_char(1) == 'x' || hex.get_char(1) == 'X') {
        hex.substring_char(2, n)
    } else {
        hex
    }
}

/// The number that a row of hexadecimal digits stands for.
pub open spec fn digits_value(digits: Seq<u8>) -> nat
    decreases digits.len(),
{
    if digits.len() == 0 {
        0
    } else {
        16 * digits_value(digits.drop_last()) + digit_value(digits.last()) as nat
    }
}

/// The digits of a quantity: all of it but an optional leading `+`.
pub open spec fn quantity_digits(text: Seq<u8>) -> Seq<u8> {
    if text.len() > 0 && text[0] == 0x2b {
        text.skip(1)
    } else {
        text
    }
}

/// The number written as an optional `+` and at least one hexadecimal digit, where 64 bits hold
/// it.
pub open spec fn quantity(text: Seq<u8>) -> Option<u64> {
    let digits = quantity_digits(text);
    if digits.len() > 0 && all_hex_digits(digits) && digits_value(digits) <= u64::MAX {
        Some(digits_value(digits) as u64)
    } else {
        None
    }
}

/// More digits behind a number never make it smaller.
proof fn lemma_digits_value_grows(digits: Seq<u8>, i: int)
    requires
        0 <= i <= digits.len(),
        all_hex_digits(digits),
    ensures
        digits_value(digits.take(i)) <= digits_value(digits),
    decreases digits.len() - i,
{
    if i == digits.len() {
        assert(digits.take(i) =~= digits);
    } else {
        assert(digits.take(i + 1).drop_last() =~= digits.take(i));
        assert(is_hex_digit(digits[i]));
        lemma_digits_value_grows(digits, i + 1);
    }
}

/// Reads a quantity; `None` where the text is not one or is beyond 64 bits.
pub fn parse_quantity(text: &str) -> (res: Option<u64>)
    ensures
        res == quantity(encode_utf8(text@)),
{
    let bytes = text.as_bytes();
    let n: usize = bytes.len();
    let start: usize = if n > 0 && bytes[0] == 0x2b { 1 } else { 0 };
    let ghost digits = quantity_digits(bytes@);
    assert(digits =~= bytes@.skip(start as int));
    if start == n {
        return None;
    }
    let mut value: u64 = 0;
    let mut i: usize = start;
    while i < n
        invariant
            n == bytes@.len(),
            start <= i <= n,
            bytes@ == encode_utf8(text@),
            digits == quantity_digits(bytes@),
            digits == bytes@.skip(start as int),
            all_hex_digits(digits.take(i - start)),
            value == digits_value(digits.take(i - start)),
        decreases n - i,
    {
        let b: u8 = bytes[i];
        assert(b == digits[i - start]);
        let d: u8 = if 0x30 <= b && b <= 0x39 {
            b - 0x30
        } else if 0x41 <= b && b <= 0x46 {
            b - 0x41 + 10
        } else if 0x61 <= b && b <= 0x66 {
            b - 0x61 + 10
        } else {
            assert(!is_hex_digit(digits[i - start]));
            return None;
        };
        let ghost longer = digits.take(i - start + 1);
        assert(longer.drop_last() =~= digits.take(i - start));
        assert(all_hex_digits(longer)) by {
            assert forall|j: int| 0 <= j < longer.len() implies is_hex_digit(#[trigger] longer[j]) by {
                if j < i - start {
                    assert(longer[j] == digits.take(i - start)[j]);
                }
            }
        }
        if value > (u64::MAX - d as u64) / 16 {
            proof {
                assert(digits_value(longer) > u64::MAX);
                if all_hex_digits(digits) {
                    lemma_digits_value_grows(digits, i - start + 1);
                }
            }
            return None;
        }
        value = 16 * value + d as u64;
        i = i + 1;
    }
    assert(digits.take(n - start) =~= digits);
    Some(value)
}

}
