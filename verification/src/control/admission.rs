//! Admits complete requests, and tells whether two of them are the same.

use vstd::prelude::*;

use crate::contract::control::{conflict, invalid_request, OperationStart, OperatorError};
use crate::identifier::hex_digit;
use crate::text::same_text;

verus! {

/// The SHA-256 digest of bytes.
pub uninterp spec fn sha256(bytes: Seq<u8>) -> Seq<u8>;

/// Calls `sha2::Sha256::digest`. The digest is a function of the bytes and is named [`sha256`]; it
/// has 32 bytes.
#[verifier::external_body]
fn digest(bytes: &[u8]) -> (digest: Vec<u8>)
    ensures
        digest@ == sha256(bytes@),
        digest@.len() == 32,
{
    <sha2::Sha256 as sha2::Digest>::digest(bytes).to_vec()
}

/// Bytes in lower-case hexadecimal, two digits each.
pub open spec fn hexadecimal(bytes: Seq<u8>) -> Seq<char>
    decreases bytes.len(),
{
    if bytes.len() == 0 {
        Seq::empty()
    } else {
        let last = bytes.last() as int;
        hexadecimal(bytes.drop_last()).push(hex_digit(last / 16)).push(hex_digit(last % 16))
    }
}

/// The lower-case hexadecimal digit of a number below sixteen.
fn digit(number: u8) -> (digit: char)
    requires
        number < 16,
    ensures
        digit == hex_digit(number as int),
{
    match number {
        0 => '0',
        1 => '1',
        2 => '2',
        3 => '3',
        4 => '4',
        5 => '5',
        6 => '6',
        7 => '7',
        8 => '8',
        9 => '9',
        10 => 'a',
        11 => 'b',
        12 => 'c',
        13 => 'd',
        14 => 'e',
        _ => 'f',
    }
}

/// Writes bytes in lower-case hexadecimal.
pub fn to_hexadecimal(bytes: &Vec<u8>) -> (text: String)
    ensures
        text@ == hexadecimal(bytes@),
{
    let mut text = String::new();
    let mut index: usize = 0;
    while index < bytes.len()
        invariant
            index <= bytes@.len(),
            text@ == hexadecimal(bytes@.take(index as int)),
        decreases bytes@.len() - index,
    {
        text.push(digit(bytes[index] / 16));
        text.push(digit(bytes[index] % 16));
        index = index + 1;
        proof {
            assert(bytes@.take(index as int).drop_last() =~= bytes@.take(index - 1));
        }
    }
    proof {
        assert(bytes@.take(index as int) =~= bytes@);
    }
    text
}

/// The fingerprint of an encoded request.
pub fn fingerprint(encoded: &[u8]) -> (fingerprint: String)
    ensures
        fingerprint@ == hexadecimal(sha256(encoded@)),
{
    to_hexadecimal(&digest(encoded))
}

/// Refuses an incomplete one-shot request.
pub fn validate_start(start: &OperationStart) -> (valid: Result<(), OperatorError>)
    ensures
        match valid {
            Ok(()) => start@.prompt.len() > 0,
            Err(error) => start@.prompt.len() == 0 && error@ == invalid_request(
                "prompt must not be empty"@,
            ),
        },
{
    start.validate()
}

/// Refuses a request whose identity was used with other content.
pub fn ensure_fingerprint(request: &str, existing: &str) -> (same: Result<(), OperatorError>)
    ensures
        match same {
            Ok(()) => request@ == existing@,
            Err(error) => request@ != existing@ && error@ == conflict(
                "request UUID was reused with different conversation content"@,
            ),
        },
{
    if same_text(request, existing) {
        Ok(())
    } else {
        Err(
            OperatorError::Conflict(
                "request UUID was reused with different conversation content".to_owned(),
            ),
        )
    }
}

} // verus!
