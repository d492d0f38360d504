//! Text encodings of byte strings and numbers: hexadecimal, base64 and UTF-8.
//!
//! The conversions themselves are done by the `hex` and `base64` crates and
//! by the standard library. Their contracts here are taken on trust; what
//! they claim is said above each function.

use vstd::prelude::*;
use base64::Engine;

verus! {

/// The lower-case hexadecimal digit for a number below 16.
pub open spec fn lower_hex_digit(n: int) -> char {
    seq!['0', '1', '2', '3', '4', '5', '6', '7', '8', '9', 'a', 'b', 'c', 'd', 'e', 'f'][n]
}

/// The upper-case hexadecimal digit for a number below 16.
pub open spec fn upper_hex_digit(n: int) -> char {
    seq!['0', '1', '2', '3', '4', '5', '6', '7', '8', '9', 'A', 'B', 'C', 'D', 'E', 'F'][n]
}

/// The number that a hexadecimal digit of either case stands for.
pub open spec fn hex_digit_value(c: char) -> Option<int> {
    let code = c as u32 as int;
    if 0x30 <= code <= 0x39 {
        Some(code - 0x30)
    } else if 0x61 <= code <= 0x66 {
        Some(code - 0x61 + 10)
    } else if 0x41 <= code <= 0x46 {
        Some(code - 0x41 + 10)
    } else {
        None
    }
}

/// Whether every character is a hexadecimal digit.
pub open spec fn all_hex_digits(text: Seq<char>) -> bool {
    forall|i: int| 0 <= i < text.len() ==> (#[trigger] hex_digit_value(text[i])).is_some()
}

/// Bytes written as lower-case hexadecimal text, two digits a byte, the high
/// half first.
pub open spec fn hex_text(bytes: Seq<u8>) -> Seq<char> {
    Seq::new(
        2 * bytes.len(),
        |i: int|
            if i % 2 == 0 {
                lower_hex_digit(bytes[i / 2] as int / 16)
            } else {
                lower_hex_digit(bytes[i / 2] as int % 16)
            },
    )
}

/// Whether a text is hexadecimal for some byte string: digits only, and an
/// even number of them.
pub open spec fn is_hex_text(text: Seq<char>) -> bool {
    text.len() % 2 == 0 && all_hex_digits(text)
}

/// The bytes that a hexadecimal text stands for.
pub open spec fn hex_bytes(text: Seq<char>) -> Seq<u8> {
    Seq::new(
        text.len() / 2,
        |i: int|
            (16 * hex_digit_value(text[2 * i]).unwrap() + hex_digit_value(
                text[2 * i + 1],
            ).unwrap()) as u8,
    )
}

/// The number that a string of hexadecimal digits stands for, the most
/// significant digit first.
pub open spec fn hex_number(digits: Seq<char>) -> nat
    decreases digits.len(),
{
    if digits.len() == 0 {
        0
    } else {
        (16 * hex_number(digits.drop_last()) + hex_digit_value(digits.last()).unwrap()) as nat
    }
}

/// A text without the plus sign that may stand in front of a number.
pub open spec fn without_plus(text: Seq<char>) -> Seq<char> {
    if text.len() > 0 && text[0] == '+' {
        text.subrange(1, text.len() as int)
    } else {
        text
    }
}

/// The 32-bit number that a hexadecimal text stands for: an optional plus
/// sign, then at least one digit and digits only, and a value that fits.
pub open spec fn hex_u32(text: Seq<char>) -> Option<u32> {
    let digits = without_plus(text);
    if digits.len() > 0 && all_hex_digits(digits) && hex_number(digits) <= u32::MAX {
        Some(hex_number(digits) as u32)
    } else {
        None
    }
}

/// A 32-bit number as eight upper-case hexadecimal digits.
pub open spec fn upper_hex8(value: u32) -> Seq<char> {
    seq![
        upper_hex_digit(value as int / 0x1000_0000 % 16),
        upper_hex_digit(value as int / 0x100_0000 % 16),
        upper_hex_digit(value as int / 0x10_0000 % 16),
        upper_hex_digit(value as int / 0x1_0000 % 16),
        upper_hex_digit(value as int / 0x1000 % 16),
        upper_hex_digit(value as int / 0x100 % 16),
        upper_hex_digit(value as int / 0x10 % 16),
        upper_hex_digit(value as int % 16),
    ]
}

/// A 64-bit number as sixteen upper-case hexadecimal digits.
pub open spec fn upper_hex16(value: u64) -> Seq<char> {
    upper_hex8((value as int / 0x1_0000_0000) as u32) + upper_hex8(
        (value as int % 0x1_0000_0000) as u32,
    )
}

/// The decimal digit for a number below 10.
pub open spec fn decimal_digit(n: int) -> char {
    seq!['0', '1', '2', '3', '4', '5', '6', '7', '8', '9'][n]
}

/// A number in decimal, without leading zeros.
pub open spec fn decimal_text(value: nat) -> Seq<char>
    decreases value,
{
    if value < 10 {
        seq![decimal_digit(value as int)]
    } else {
        decimal_text(value / 10).push(decimal_digit(value as int % 10))
    }
}

/// Each hexadecimal digit, of either case, stands for the number it was
/// written for.
pub proof fn lemma_hex_digit_values(n: int)
    requires
        0 <= n < 16,
    ensures
        hex_digit_value(lower_hex_digit(n)) == Some(n),
        hex_digit_value(upper_hex_digit(n)) == Some(n),
{
    assert('0' as u32 == 0x30 && '1' as u32 == 0x31 && '2' as u32 == 0x32 && '3' as u32 == 0x33);
    assert('4' as u32 == 0x34 && '5' as u32 == 0x35 && '6' as u32 == 0x36 && '7' as u32 == 0x37);
    assert('8' as u32 == 0x38 && '9' as u32 == 0x39);
    assert('a' as u32 == 0x61 && 'b' as u32 == 0x62 && 'c' as u32 == 0x63);
    assert('d' as u32 == 0x64 && 'e' as u32 == 0x65 && 'f' as u32 == 0x66);
    assert('A' as u32 == 0x41 && 'B' as u32 == 0x42 && 'C' as u32 == 0x43);
    assert('D' as u32 == 0x44 && 'E' as u32 == 0x45 && 'F' as u32 == 0x46);
}

/// The hexadecimal text of a byte string is hexadecimal text, and stands for
/// that byte string: decoding inverts encoding.
pub proof fn lemma_hex_bytes_inverts_hex_text(bytes: Seq<u8>)
    ensures
        is_hex_text(hex_text(bytes)),
        hex_bytes(hex_text(bytes)) == bytes,
{
    let text = hex_text(bytes);
    assert forall|i: int| 0 <= i < text.len() implies (#[trigger] hex_digit_value(
        text[i],
    )).is_some() by {
        lemma_hex_digit_values(bytes[i / 2] as int / 16);
        lemma_hex_digit_values(bytes[i / 2] as int % 16);
    }
    assert forall|k: int| 0 <= k < bytes.len() implies hex_bytes(text)[k] == bytes[k] by {
        lemma_hex_digit_values(bytes[k] as int / 16);
        lemma_hex_digit_values(bytes[k] as int % 16);
        assert(text[2 * k] == lower_hex_digit(bytes[k] as int / 16));
        assert(text[2 * k + 1] == lower_hex_digit(bytes[k] as int % 16));
    }
    assert(hex_bytes(text) =~= bytes);
}

/// One more digit at the end of a hexadecimal number.
pub proof fn lemma_hex_number_push(digits: Seq<char>, digit: char)
    requires
        hex_digit_value(digit).is_some(),
    ensures
        hex_number(digits.push(digit)) == 16 * hex_number(digits) + hex_digit_value(
            digit,
        ).unwrap(),
        all_hex_digits(digits) ==> all_hex_digits(digits.push(digit)),
{
    let longer = digits.push(digit);
    assert(longer.drop_last() =~= digits);
    assert(longer.last() == digit);
    if all_hex_digits(digits) {
        assert forall|i: int| 0 <= i < longer.len() implies (#[trigger] hex_digit_value(
            longer[i],
        )).is_some() by {
            if i < digits.len() {
                assert(longer[i] == digits[i]);
            }
        }
    }
}

/// The number that the first `count` of the eight hexadecimal digits of a
/// 32-bit number make.
spec fn leading_digits(value: u32, count: nat) -> int {
    if count == 0 {
        0
    } else if count == 1 {
        value as int / 0x1000_0000
    } else if count == 2 {
        value as int / 0x100_0000
    } else if count == 3 {
        value as int / 0x10_0000
    } else if count == 4 {
        value as int / 0x1_0000
    } else if count == 5 {
        value as int / 0x1000
    } else if count == 6 {
        value as int / 0x100
    } else if count == 7 {
        value as int / 0x10
    } else {
        value as int
    }
}

/// Each further digit of a 32-bit number multiplies what came before by 16
/// and adds itself.
proof fn lemma_leading_digits_step(value: u32, count: nat)
    requires
        count < 8,
    ensures
        leading_digits(value, count + 1) == 16 * leading_digits(value, count) + leading_digits(
            value,
            count + 1,
        ) % 16,
        0 <= leading_digits(value, count + 1) <= u32::MAX,
{
}

/// The first digits of the hexadecimal text of a 32-bit number are digits
/// and make the number that they should, one digit more at a time.
proof fn lemma_upper_hex8_prefix(value: u32, count: nat)
    requires
        count <= 8,
    ensures
        all_hex_digits(upper_hex8(value).take(count as int)),
        hex_number(upper_hex8(value).take(count as int)) == leading_digits(value, count),
    decreases count,
{
    let text = upper_hex8(value);
    if count > 0 {
        let shorter = (count - 1) as nat;
        let digit = leading_digits(value, count) % 16;
        lemma_upper_hex8_prefix(value, shorter);
        lemma_leading_digits_step(value, shorter);
        lemma_hex_digit_values(digit);
        assert(text[shorter as int] == upper_hex_digit(digit));
        assert(text.take(count as int) =~= text.take(shorter as int).push(text[shorter as int]));
        lemma_hex_number_push(text.take(shorter as int), text[shorter as int]);
    }
}

/// The eight digits of a 32-bit number read as that number: a device
/// address that was written out in hexadecimal parses back to itself.
pub proof fn lemma_hex_u32_inverts_upper_hex8(value: u32)
    ensures
        hex_u32(upper_hex8(value)) == Some(value),
{
    let text = upper_hex8(value);
    lemma_upper_hex8_prefix(value, 8);
    assert(text.take(8) =~= text);
    lemma_hex_digit_values(value as int / 0x1000_0000 % 16);
    assert(hex_digit_value(text[0]).is_some());
    assert('+' as u32 == 0x2B);
    assert(without_plus(text) == text);
}

/// The standard base64 text of a byte string, alphabet `A-Za-z0-9+/` with
/// `=` padding, as `base64::engine::general_purpose::STANDARD` encodes it.
pub uninterp spec fn base64_text(bytes: Seq<u8>) -> Seq<char>;

/// The bytes that `base64::engine::general_purpose::STANDARD` decodes a text
/// to, or `None` where it refuses the text.
pub uninterp spec fn base64_bytes(text: Seq<char>) -> Option<Seq<u8>>;

/// The longest input that the base64 encoder takes: the length of its output
/// has to fit a `usize`.
pub open spec fn base64_encodable(len: nat) -> bool {
    len / 3 * 4 + 4 <= usize::MAX
}

#[verifier::external_type_specification]
#[verifier::external_body]
pub struct ExFromHexError(hex::FromHexError);

#[verifier::external_type_specification]
#[verifier::external_body]
pub struct ExBase64DecodeError(base64::DecodeError);

/// `hex::encode`: two lower-case digits for each byte, in order.
#[verifier::external_body]
pub(crate) fn hex_encode(bytes: &[u8]) -> (text: String)
    ensures
        text@ == hex_text(bytes@),
{
    hex::encode(bytes)
}

/// `hex::decode`: succeeds exactly on an even number of hexadecimal digits of
/// either case, and then gives the byte for each pair of digits.
#[verifier::external_body]
pub(crate) fn hex_decode(text: &str) -> (result: Result<Vec<u8>, hex::FromHexError>)
    ensures
        result.is_ok() <==> is_hex_text(text@),
        result matches Ok(bytes) ==> bytes@ == hex_bytes(text@),
{
    hex::decode(text)
}

/// `Engine::encode` of the standard base64 engine. The result is named, not
/// described: a function of the bytes alone.
#[verifier::external_body]
pub(crate) fn base64_encode(bytes: &[u8]) -> (text: String)
    requires
        base64_encodable(bytes@.len()),
    ensures
        text@ == base64_text(bytes@),
{
    base64::engine::general_purpose::STANDARD.encode(bytes)
}

/// `Engine::decode` of the standard base64 engine. The result is named, not
/// described: a function of the text alone.
#[verifier::external_body]
pub(crate) fn base64_decode(text: &str) -> (result: Result<Vec<u8>, base64::DecodeError>)
    ensures
        match result {
            Ok(bytes) => base64_bytes(text@) == Some(bytes@),
            Err(_) => base64_bytes(text@).is_none(),
        },
{
    base64::engine::general_purpose::STANDARD.decode(text)
}

/// `String::from_utf8`: succeeds exactly on well-formed UTF-8, and the string
/// then holds the characters that the bytes encode.
#[verifier::external_body]
pub(crate) fn string_from_utf8(bytes: Vec<u8>) -> (text: Option<String>)
    ensures
        text.is_some() <==> vstd::utf8::valid_utf8(bytes@),
        text matches Some(s) ==> s@ == vstd::utf8::decode_utf8(bytes@),
{
    String::from_utf8(bytes).ok()
}

/// `u32::from_str_radix` with radix 16: an optional plus sign and then
/// hexadecimal digits of either case; an empty string, any other character
/// and a value over 32 bits are refused.
#[verifier::external_body]
pub(crate) fn u32_from_hex(text: &str) -> (value: Option<u32>)
    ensures
        value == hex_u32(text@),
{
    u32::from_str_radix(text, 16).ok()
}

/// `format!` with `{:08X}`: upper-case hexadecimal, padded with zeros to
/// eight digits.
#[verifier::external_body]
pub(crate) fn u32_to_upper_hex(value: u32) -> (text: String)
    ensures
        text@ == upper_hex8(value),
{
    format!("{:08X}", value)
}

/// `format!` with `{:016X}`: upper-case hexadecimal, padded with zeros to
/// sixteen digits.
#[verifier::external_body]
pub(crate) fn u64_to_upper_hex(value: u64) -> (text: String)
    ensures
        text@ == upper_hex16(value),
{
    format!("{:016X}", value)
}

/// `format!` with `{}` on an unsigned number: its decimal digits, without
/// sign or leading zeros.
#[verifier::external_body]
pub(crate) fn u64_to_decimal(value: u64) -> (text: String)
    ensures
        text@ == decimal_text(value as nat),
{
    format!("{}", value)
}

} // verus!
