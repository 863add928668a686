//! Hexadecimal digit strings, decoded by the `hex` crate.

use vstd::prelude::*;

verus! {

/// Why a string of hexadecimal digits could not be decoded.
#[derive(Debug, Clone, Copy, PartialEq, Eq, Structural)]
pub enum FromHexError {
    /// A character that is no hexadecimal digit, with its position.
    InvalidHexCharacter { c: char, index: usize },
    /// The number of digits is odd: two digits make one byte.
    OddLength,
    /// The digits do not fill a container of fixed size.
    InvalidStringLength,
}

/// One of `0`-`9`, `a`-`f`, `A`-`F`, as an ASCII byte.
pub open spec fn is_hex_digit(b: u8) -> bool {
    ||| 0x30 <= b <= 0x39
    ||| 0x41 <= b <= 0x46
    ||| 0x61 <= b <= 0x66
}

/// The number that a hexadecimal digit stands for.
pub open spec fn hex_digit_value(b: u8) -> int
    recommends
        is_hex_digit(b),
{
    if 0x30 <= b <= 0x39 {
        b - 0x30
    } else if 0x41 <= b <= 0x46 {
        b - 0x41 + 10
    } else {
        b - 0x61 + 10
    }
}

/// Every byte is a hexadecimal digit.
pub open spec fn all_hex_digits(bytes: Seq<u8>) -> bool {
    forall|i: int| 0 <= i < bytes.len() ==> is_hex_digit(#[trigger] bytes[i])
}

/// The position of the first byte that is no hexadecimal digit, or the
/// length where there is none.
pub open spec fn first_non_hex(bytes: Seq<u8>) -> int
    decreases bytes.len(),
{
    if bytes.len() == 0 {
        0
    } else if !is_hex_digit(bytes[0]) {
        0
    } else {
        1 + first_non_hex(bytes.drop_first())
    }
}

/// The bytes that an even number of hexadecimal digits spell, two digits to
/// a byte, the high half first.
pub open spec fn hex_bytes(digits: Seq<u8>) -> Seq<u8> {
    Seq::new(
        digits.len() / 2,
        |i: int| (16 * hex_digit_value(digits[2 * i]) + hex_digit_value(digits[2 * i + 1])) as u8,
    )
}

/// What decoding a string of hexadecimal digits gives: an odd length is
/// reported before anything else, then the first byte that is no digit.
pub open spec fn hex_decode(digits: Seq<u8>) -> Result<Seq<u8>, FromHexError> {
    if digits.len() % 2 != 0 {
        Err(FromHexError::OddLength)
    } else if first_non_hex(digits) < digits.len() {
        Err(
            FromHexError::InvalidHexCharacter {
                c: digits[first_non_hex(digits)] as char,
                index: first_non_hex(digits) as usize,
            },
        )
    } else {
        Ok(hex_bytes(digits))
    }
}

/// The first byte that is no digit lies within the string exactly when
/// some byte is no digit; it is itself no digit, and all before it are.
pub proof fn lemma_first_non_hex(bytes: Seq<u8>)
    ensures
        0 <= first_non_hex(bytes) <= bytes.len(),
        first_non_hex(bytes) == bytes.len() <==> all_hex_digits(bytes),
        first_non_hex(bytes) < bytes.len() ==> !is_hex_digit(bytes[first_non_hex(bytes)]),
        forall|i: int| 0 <= i < first_non_hex(bytes) ==> is_hex_digit(#[trigger] bytes[i]),
    decreases bytes.len(),
{
    if bytes.len() > 0 && is_hex_digit(bytes[0]) {
        let rest = bytes.drop_first();
        lemma_first_non_hex(rest);
        assert forall|i: int| 0 <= i < first_non_hex(bytes) implies is_hex_digit(
            #[trigger] bytes[i],
        ) by {
            if i > 0 {
                assert(bytes[i] == rest[i - 1]);
            }
        }
        if all_hex_digits(bytes) {
            assert forall|i: int| 0 <= i < rest.len() implies is_hex_digit(#[trigger] rest[i]) by {
                assert(rest[i] == bytes[i + 1]);
            }
        }
        if first_non_hex(bytes) < bytes.len() {
            assert(bytes[first_non_hex(bytes)] == rest[first_non_hex(rest)]);
        }
    }
}

/// The text that the `hex` crate prints for a byte that is no digit; it
/// quotes the byte as a character and gives the position in decimal.
pub uninterp spec fn invalid_character_message(c: char, index: int) -> Seq<char>;

impl FromHexError {
    /// The text of the error.
    pub open spec fn message(self) -> Seq<char> {
        match self {
            FromHexError::InvalidHexCharacter { c, index } => invalid_character_message(
                c,
                index as int,
            ),
            FromHexError::OddLength => "Odd number of digits"@,
            FromHexError::InvalidStringLength => "Invalid string length"@,
        }
    }

    /// The text of the error, as the `hex` crate words it.
    pub fn to_string(&self) -> (text: String)
        ensures
            text@ == self.message(),
    {
        hex_error_text(self)
    }
}

/// Decodes hexadecimal digits with `hex::FromHex::from_hex` for `Vec<u8>`.
/// The contract restates that function: it refuses an odd length first,
/// then reports the first byte outside `0-9a-fA-F` with its position, and
/// otherwise returns one byte for every two digits.
#[verifier::external_body]
pub(crate) fn decode_hex(digits: &[u8]) -> (decoded: Result<Vec<u8>, FromHexError>)
    ensures
        match decoded {
            Ok(bytes) => hex_decode(digits@) == Ok::<Seq<u8>, FromHexError>(bytes@),
            Err(e) => hex_decode(digits@) == Err::<Seq<u8>, FromHexError>(e),
        },
{
    let decoded: Result<Vec<u8>, hex::FromHexError> = hex::FromHex::from_hex(digits);
    match decoded {
        Ok(bytes) => Ok(bytes),
        Err(hex::FromHexError::InvalidHexCharacter { c, index }) => Err(
            FromHexError::InvalidHexCharacter { c, index },
        ),
        Err(hex::FromHexError::OddLength) => Err(FromHexError::OddLength),
        Err(hex::FromHexError::InvalidStringLength) => Err(FromHexError::InvalidStringLength),
    }
}

/// Formats the error with the `Display` impl of `hex::FromHexError`. The two
/// fixed texts are stated; the text for an invalid character is named.
#[verifier::external_body]
fn hex_error_text(e: &FromHexError) -> (text: String)
    ensures
        match *e {
            FromHexError::InvalidHexCharacter { c, index } => text@ == invalid_character_message(
                c,
                index as int,
            ),
            FromHexError::OddLength => text@ == "Odd number of digits"@,
            FromHexError::InvalidStringLength => text@ == "Invalid string length"@,
        },
{
    match *e {
        FromHexError::InvalidHexCharacter { c, index } => hex::FromHexError::InvalidHexCharacter {
            c,
            index,
        }.to_string(),
        FromHexError::OddLength => hex::FromHexError::OddLength.to_string(),
        FromHexError::InvalidStringLength => hex::FromHexError::InvalidStringLength.to_string(),
    }
}

} // verus!
