//! Textual encodings of addresses and unsigned integers, and the few outside
//! calls the relay makes on plain values.

use rand::Rng;
use std::str::FromStr;
use vstd::prelude::*;
use vstd::string::*;

verus! {

/// Number of bytes in an account address.
pub const ADDRESS_BYTES: usize = 20;

/// Two to the power of 64: the weight of one limb.
pub open spec fn limb_base() -> nat {
    0x1_0000_0000_0000_0000
}

/// Two to the power of 256: the first value that does not fit in four limbs.
pub open spec fn uint_bound() -> nat {
    limb_base() * limb_base() * limb_base() * limb_base()
}

/// The number that four limbs stand for, least significant limb first.
pub open spec fn limbs_value(limbs: Seq<u64>) -> nat
    recommends
        limbs.len() == 4,
{
    (limbs[0] as nat) + limb_base() * ((limbs[1] as nat) + limb_base() * ((limbs[2] as nat)
        + limb_base() * (limbs[3] as nat)))
}

pub open spec fn is_decimal_digit(c: char) -> bool {
    '0' <= c && c <= '9'
}

/// A decimal numeral: at least one character, each a digit from 0 to 9.
pub open spec fn is_decimal_text(text: Seq<char>) -> bool {
    text.len() > 0 && forall|i: int| 0 <= i < text.len() ==> is_decimal_digit(#[trigger] text[i])
}

/// The number a string of decimal digits denotes, most significant digit first.
pub open spec fn decimal_value(text: Seq<char>) -> nat
    decreases text.len(),
{
    if text.len() == 0 {
        0
    } else {
        10 * decimal_value(text.drop_last()) + ((text.last() as nat) - ('0' as nat)) as nat
    }
}

/// The number a textual integer field denotes: its decimal value where the
/// text is a decimal numeral below two to the 256, and nothing otherwise.
pub open spec fn uint_of_text(text: Seq<char>) -> Option<nat> {
    if is_decimal_text(text) && decimal_value(text) < uint_bound() {
        Some(decimal_value(text))
    } else {
        None
    }
}

pub open spec fn hex_digit_value(c: char) -> Option<nat> {
    if '0' <= c && c <= '9' {
        Some(((c as nat) - ('0' as nat)) as nat)
    } else if 'a' <= c && c <= 'f' {
        Some(((c as nat) - ('a' as nat) + 10) as nat)
    } else if 'A' <= c && c <= 'F' {
        Some(((c as nat) - ('A' as nat) + 10) as nat)
    } else {
        None
    }
}

/// The text without a leading `0x` or `0X`.
pub open spec fn without_hex_prefix(text: Seq<char>) -> Seq<char> {
    if text.len() >= 2 && text[0] == '0' && (text[1] == 'x' || text[1] == 'X') {
        text.skip(2)
    } else {
        text
    }
}

/// Forty hexadecimal digits, in either case.
pub open spec fn is_address_digits(digits: Seq<char>) -> bool {
    digits.len() == 2 * ADDRESS_BYTES && forall|i: int|
        0 <= i < digits.len() ==> hex_digit_value(#[trigger] digits[i]) is Some
}

/// The byte that the digit pair at `position` encodes.
pub open spec fn hex_pair_value(digits: Seq<char>, position: int) -> u8 {
    (16 * hex_digit_value(digits[2 * position])->0 + hex_digit_value(
        digits[2 * position + 1],
    )->0) as u8
}

/// The twenty bytes a textual address denotes: forty hexadecimal digits after
/// an optional `0x` prefix, two digits to a byte; nothing for any other text.
pub open spec fn address_of_text(text: Seq<char>) -> Option<Seq<u8>> {
    let digits = without_hex_prefix(text);
    if is_address_digits(digits) {
        Some(Seq::new(ADDRESS_BYTES as nat, |i: int| hex_pair_value(digits, i)))
    } else {
        None
    }
}

/// Whether `needle` occurs in `text` as a contiguous run of characters.
pub open spec fn occurs_in(needle: Seq<char>, text: Seq<char>) -> bool {
    exists|start: int|
        0 <= start && start + needle.len() <= text.len() && #[trigger] text.subrange(
            start,
            start + needle.len(),
        ) == needle
}

/// Calls `Address::from_str` of alloy's primitives, which decodes the text as
/// hexadecimal into a fixed array of twenty bytes: it drops a leading `0x` or
/// `0X`, and fails unless exactly forty hexadecimal digits remain.
#[verifier::external_body]
pub(crate) fn decode_address(text: &str) -> (bytes: Option<[u8; 20]>)
    ensures
        bytes is Some <==> address_of_text(text@) is Some,
        bytes is Some ==> bytes->0@ == address_of_text(text@)->0,
{
    match alloy::primitives::Address::from_str(text) {
        Ok(address) => Some(address.0.0),
        Err(_) => None,
    }
}

/// Calls `U256::from_str` of alloy's primitives on a decimal numeral. On such
/// text the call reads base ten, fails exactly when the number does not fit in
/// 256 bits, and otherwise holds the number as four limbs, least significant
/// first.
#[verifier::external_body]
pub(crate) fn decode_decimal(text: &str) -> (limbs: Option<[u64; 4]>)
    requires
        is_decimal_text(text@),
    ensures
        limbs is Some <==> decimal_value(text@) < uint_bound(),
        limbs is Some ==> limbs_value(limbs->0@) == decimal_value(text@),
{
    match alloy::primitives::U256::from_str(text) {
        Ok(number) => Some(number.into_limbs()),
        Err(_) => None,
    }
}

/// Calls `str::contains` with a string pattern, which tells whether the
/// pattern matches a sub-slice of the text.
#[verifier::external_body]
pub(crate) fn text_contains(text: &str, needle: &str) -> (found: bool)
    ensures
        found == occurs_in(needle@, text@),
{
    text.contains(needle)
}

/// Calls `gen_range` on rand's thread-local generator with the closed range
/// from `low` to `high`. The draw differs from call to call; all that is
/// claimed is that it lies in the range.
#[verifier::external_body]
pub(crate) fn draw_between(low: u64, high: u64) -> (drawn: u64)
    requires
        low <= high,
    ensures
        low <= drawn <= high,
{
    rand::thread_rng().gen_range(low..=high)
}

/// Tells whether the text is a decimal numeral.
pub fn check_decimal_text(text: &str) -> (decimal: bool)
    ensures
        decimal == is_decimal_text(text@),
{
    if !text.is_ascii() {
        return false;
    }
    let length: usize = text.unicode_len();
    if length == 0 {
        return false;
    }
    let mut position: usize = 0;
    while position < length
        invariant
            text.is_ascii(),
            length == text@.len(),
            position <= length,
            forall|i: int| 0 <= i < position ==> is_decimal_digit(#[trigger] text@[i]),
        decreases length - position,
    {
        let byte: u8 = text.get_ascii(position);
        if byte < 48 || byte > 57 {
            return false;
        }
        position += 1;
    }
    true
}

} // verus!
