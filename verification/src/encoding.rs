//! Hexadecimal text and SHA-256 digests.
use vstd::prelude::*;

verus! {

/// Two lower-case hexadecimal digits for each byte.
pub open spec fn hex_text(bytes: Seq<u8>) -> Seq<char> {
    Seq::new(
        2 * bytes.len(),
        |i: int|
            crate::text::hex_digit(
                if i % 2 == 0 {
                    bytes[i / 2] as int / 16
                } else {
                    bytes[i / 2] as int % 16
                },
            ),
    )
}

/// The value of a byte that is an ASCII hexadecimal digit of either case.
pub open spec fn digit_value(b: u8) -> Option<int> {
    if 48 <= b <= 57 {
        Some(b - 48)
    } else if 97 <= b <= 102 {
        Some(b - 87)
    } else if 65 <= b <= 70 {
        Some(b - 55)
    } else {
        None
    }
}

/// Why a text is not the hexadecimal form of some bytes.
#[derive(Debug, Clone, Copy)]
pub enum HexError {
    /// The text has an odd number of bytes.
    OddLength,
    /// The byte at `index`, read as a character, is no hexadecimal digit.
    InvalidCharacter { c: char, index: usize },
    /// The text has another length than the bytes wanted.
    InvalidLength,
}

/// The bytes that a text stands for: two digits, of either case, for each byte.
pub open spec fn hex_bytes(text: Seq<char>) -> Option<Seq<u8>> {
    let raw = vstd::utf8::encode_utf8(text);
    if raw.len() % 2 == 0 && forall|i: int|
        0 <= i < raw.len() ==> (#[trigger] digit_value(raw[i])) is Some {
        Some(
            Seq::new(
                (raw.len() / 2) as nat,
                |i: int|
                    (16 * digit_value(raw[2 * i])->0 + digit_value(raw[2 * i + 1])->0) as u8,
            ),
        )
    } else {
        None
    }
}

/// Whether `error` says why `text` stands for no bytes: the length comes first, then the first
/// byte that is no digit.
pub open spec fn hex_fault(text: Seq<char>, error: HexError) -> bool {
    let raw = vstd::utf8::encode_utf8(text);
    match error {
        HexError::OddLength => raw.len() % 2 == 1,
        HexError::InvalidCharacter { c, index } => {
            &&& raw.len() % 2 == 0
            &&& index < raw.len()
            &&& digit_value(raw[index as int]) is None
            &&& c as u32 == raw[index as int]
            &&& forall|i: int| 0 <= i < index ==> (#[trigger] digit_value(raw[i])) is Some
        },
        HexError::InvalidLength => false,
    }
}

/// `hex::encode`: two lower-case digits for each byte, the high half first.
#[verifier::external_body]
pub(crate) fn hex_encode(bytes: &[u8]) -> (r: String)
    ensures
        r@ == hex_text(bytes@),
{
    hex::encode(bytes)
}

/// `hex::decode`, which works on the UTF-8 bytes of the text: digits of both cases are taken, an
/// odd length is reported first, then the first byte that is no digit.
#[verifier::external_body]
pub(crate) fn hex_decode(text: &str) -> (r: Result<Vec<u8>, HexError>)
    ensures
        match r {
            Ok(bytes) => hex_bytes(text@) == Some(bytes@),
            Err(error) => hex_bytes(text@) is None && hex_fault(text@, error),
        },
{
    hex::decode(text).map_err(
        |e|
            match e {
                hex::FromHexError::OddLength => HexError::OddLength,
                hex::FromHexError::InvalidHexCharacter { c, index } => HexError::InvalidCharacter {
                    c,
                    index,
                },
                hex::FromHexError::InvalidStringLength => HexError::InvalidLength,
            },
    )
}

/// What `hex::FromHexError` displays for a character that is no digit: the character as Rust's
/// debug format shows it, and its position.
pub uninterp spec fn invalid_character_text(c: char, index: nat) -> Seq<char>;

/// What is displayed of a decoding error.
pub open spec fn hex_error_message(error: HexError) -> Seq<char> {
    match error {
        HexError::OddLength => "Odd number of digits"@,
        HexError::InvalidCharacter { c, index } => invalid_character_text(c, index as nat),
        HexError::InvalidLength => "Invalid string length"@,
    }
}

/// The text that `hex::FromHexError` displays: fixed words for a bad length, a named text for a bad
/// character.
#[verifier::external_body]
pub(crate) fn hex_error_text(error: HexError) -> (r: String)
    ensures
        r@ == match error {
            HexError::OddLength => "Odd number of digits"@,
            HexError::InvalidCharacter { c, index } => invalid_character_text(c, index as nat),
            HexError::InvalidLength => "Invalid string length"@,
        },
{
    let e = match error {
        HexError::OddLength => hex::FromHexError::OddLength,
        HexError::InvalidCharacter { c, index } => hex::FromHexError::InvalidHexCharacter { c, index },
        HexError::InvalidLength => hex::FromHexError::InvalidStringLength,
    };
    e.to_string()
}

/// The SHA-256 digest of some bytes.
pub uninterp spec fn sha256(bytes: Seq<u8>) -> Seq<u8>;

/// `sha2::Sha256::digest`: the digest of the bytes, which has 32 bytes.
#[verifier::external_body]
pub(crate) fn sha256_digest(bytes: &[u8]) -> (r: Vec<u8>)
    ensures
        r@ == sha256(bytes@),
        r@.len() == 32,
{
    <sha2::Sha256 as sha2::Digest>::digest(bytes).to_vec()
}

/// Reading a hexadecimal text gives back the bytes that were written.
pub proof fn hex_reads_back(bytes: Seq<u8>)
    ensures
        hex_bytes(hex_text(bytes)) == Some(bytes),
{
    let text = hex_text(bytes);
    let raw = vstd::utf8::encode_utf8(text);
    assert(vstd::utf8::is_ascii_chars(text));
    vstd::utf8::is_ascii_chars_encode_utf8(text);
    assert(raw.len() == 2 * bytes.len());
    assert forall|i: int| 0 <= i < raw.len() implies (#[trigger] digit_value(raw[i])) == Some(
        if i % 2 == 0 {
            bytes[i / 2] as int / 16
        } else {
            bytes[i / 2] as int % 16
        },
    ) by {
        assert(raw[i] == text[i] as u8);
    }
    assert(hex_bytes(text)->0 =~= bytes) by {
        assert forall|i: int| 0 <= i < bytes.len() implies hex_bytes(text)->0[i] == bytes[i] by {
            assert(digit_value(raw[2 * i]) == Some(bytes[i] as int / 16));
            assert(digit_value(raw[2 * i + 1]) == Some(bytes[i] as int % 16));
        }
    }
}

/// The hexadecimal form of some bytes has two lower-case digits for each.
pub proof fn hex_is_lower_case(bytes: Seq<u8>)
    ensures
        hex_text(bytes).len() == 2 * bytes.len(),
        crate::text::is_hex(hex_text(bytes)),
        forall|i: int|
            0 <= i < bytes.len() ==> 16 * crate::text::digit_of(#[trigger] hex_text(bytes)[2 * i])
                + crate::text::digit_of(hex_text(bytes)[2 * i + 1]) == bytes[i],
{
}

} // verus!
