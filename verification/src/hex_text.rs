//! Hexadecimal text as the engine's built-in addresses are written in, decoded
//! by the `hex` crate.

use crate::address::Address;
use vstd::prelude::*;

verus! {

/// The value of a hexadecimal digit, upper or lower case; `None` for any
/// other character.
pub open spec fn hex_digit(c: char) -> Option<u8> {
    let code = c as int;
    if 48 <= code <= 57 {
        Some((code - 48) as u8)
    } else if 97 <= code <= 102 {
        Some((code - 87) as u8)
    } else if 65 <= code <= 70 {
        Some((code - 55) as u8)
    } else {
        None
    }
}

/// Whether every character of a text is a hexadecimal digit.
pub open spec fn all_hex_digits(text: Seq<char>) -> bool {
    forall|i: int| 0 <= i < text.len() ==> (#[trigger] hex_digit(text[i])) is Some
}

/// The bytes that a text of hexadecimal digits spells, two digits to the
/// byte; `None` where the text has an odd length or holds another character.
pub open spec fn hex_bytes(text: Seq<char>) -> Option<Seq<u8>> {
    if text.len() % 2 == 0 && all_hex_digits(text) {
        Some(
            Seq::new(
                (text.len() / 2) as nat,
                |i: int|
                    (16 * hex_digit(text[2 * i]).unwrap() + hex_digit(
                        text[2 * i + 1],
                    ).unwrap()) as u8,
            ),
        )
    } else {
        None
    }
}

/// The error of `hex::decode`, passed on unread.
#[verifier::external_type_specification]
#[verifier::external_body]
pub struct ExFromHexError(hex::FromHexError);

/// Decodes hexadecimal text into bytes.
///
/// Calls `hex::decode`, which turns each pair of digits, of either case, into
/// one byte with the first digit in the high half, and fails on a text of odd
/// length and on any character that is no hexadecimal digit.
#[verifier::external_body]
pub(crate) fn decode(text: &str) -> (r: Result<Vec<u8>, hex::FromHexError>)
    ensures
        r is Ok <==> hex_bytes(text@) is Some,
        r matches Ok(bytes) ==> hex_bytes(text@) == Some(bytes@),
{
    hex::decode(text)
}

impl Address {
    /// The identifier that forty hexadecimal digits spell; `None` for any
    /// other text.
    pub open spec fn of_hex(text: Seq<char>) -> Option<Address> {
        match hex_bytes(text) {
            Some(bytes) => if bytes.len() == 20 {
                Some(Address::of_bytes(bytes))
            } else {
                None
            },
            None => None,
        }
    }

    /// Reads an identifier from forty hexadecimal digits, without a prefix.
    pub fn from_hex(text: &str) -> (r: Option<Address>)
        ensures
            r == Address::of_hex(text@),
    {
        match decode(text) {
            Ok(bytes) => Address::try_from_slice(bytes.as_slice()),
            Err(_) => None,
        }
    }
}

} // verus!
