//! UUIDs as 128-bit numbers, with their textual form.

use vstd::prelude::*;

verus! {

/// What reading a text as a UUID yields: its value, or the message of the refusal.
pub uninterp spec fn uuid_parsed(text: Seq<char>) -> Result<u128, Seq<char>>;

/// The lower-case hexadecimal digit of a number below sixteen.
pub open spec fn hex_digit(number: int) -> char {
    if number < 10 {
        ('0' as int + number) as char
    } else {
        ('a' as int + number - 10) as char
    }
}

/// Sixteen to a power.
pub open spec fn sixteen_to(exponent: int) -> int
    decreases exponent,
{
    if exponent <= 0 {
        1
    } else {
        16 * sixteen_to(exponent - 1)
    }
}

/// The hexadecimal digit of `value` at `place`, counted from the most significant of 32.
pub open spec fn uuid_digit(value: u128, place: int) -> char {
    hex_digit((value as int / sixteen_to(31 - place)) % 16)
}

/// The number of hyphens before an index of the hyphenated form.
pub open spec fn hyphens_before(index: int) -> int {
    if index <= 8 {
        0
    } else if index <= 13 {
        1
    } else if index <= 18 {
        2
    } else if index <= 23 {
        3
    } else {
        4
    }
}

/// The hyphenated form of a UUID: 32 lower-case hexadecimal digits in groups of 8-4-4-4-12.
pub open spec fn uuid_text(value: u128) -> Seq<char> {
    Seq::new(
        36,
        |index: int|
            if index == 8 || index == 13 || index == 18 || index == 23 {
                '-'
            } else {
                uuid_digit(value, index - hyphens_before(index))
            },
    )
}

/// Whether a value carries the version and variant bits of a random UUID.
pub open spec fn random_uuid_layout(value: u128) -> bool {
    &&& (value as int / sixteen_to(19)) % 16 == 4
    &&& 8 <= (value as int / sixteen_to(15)) % 16 < 12
}

/// Calls `uuid::Uuid::parse_str`. The result is a function of the text alone and is named
/// [`uuid_parsed`]; a refusal is carried as its displayed message.
#[verifier::external_body]
pub(crate) fn parse_uuid(text: &str) -> (parsed: Result<u128, String>)
    ensures
        match parsed {
            Ok(value) => uuid_parsed(text@) == Ok::<u128, Seq<char>>(value),
            Err(message) => uuid_parsed(text@) == Err::<u128, Seq<char>>(message@),
        },
{
    match uuid::Uuid::parse_str(text) {
        Ok(value) => Ok(value.as_u128()),
        Err(error) => Err(error.to_string()),
    }
}

/// Calls the `Display` of `uuid::Uuid`: the hyphenated lower-case form, which
/// `uuid::Uuid::parse_str` reads back to the same value.
#[verifier::external_body]
pub(crate) fn display_uuid(value: u128) -> (text: String)
    ensures
        text@ == uuid_text(value),
        (uuid_parsed(text@) == Ok::<u128, Seq<char>>(value)),
{
    uuid::Uuid::from_u128(value).to_string()
}

/// Calls `uuid::Uuid::new_v4`. The value is random: only its version and variant bits are fixed.
#[verifier::external_body]
pub(crate) fn random_uuid() -> (value: u128)
    ensures
        random_uuid_layout(value),
{
    uuid::Uuid::new_v4().as_u128()
}

} // verus!
