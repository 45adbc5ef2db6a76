//! The ingest auth token: the hex text given on the command line or kept in the user's
//! token file, decoded to bytes.

use crate::text::{chars_of, trim, trim_chars};
use vstd::prelude::*;

verus! {

/// Why a hex text does not decode
#[derive(Copy, Clone, PartialEq, Eq, Structural, Debug)]
pub enum HexError {
    /// A byte that is not a hex digit, with its position
    InvalidHexCharacter { c: char, index: usize },
    /// An odd number of digits
    OddLength,
    /// A length that does not fit the container
    InvalidStringLength,
}

/// Why no auth token could be had
#[derive(Copy, Clone, PartialEq, Eq, Structural, Debug)]
pub enum AuthTokenError {
    /// No token was given and none is kept in the token file
    AuthRequired,
    /// The token text is not hex
    Hex(HexError),
}

/// The auth token's bytes
pub struct AuthTokenBytes(pub Vec<u8>);

/// The value of a hex digit byte (either case)
pub open spec fn hex_digit_value(b: u8) -> Option<u8> {
    if 48 <= b <= 57 {
        Some((b - 48) as u8)
    } else if 65 <= b <= 70 {
        Some((b - 65 + 10) as u8)
    } else if 97 <= b <= 102 {
        Some((b - 97 + 10) as u8)
    } else {
        None
    }
}

/// Whether no byte before `n` is outside the hex digits
pub open spec fn hex_digits_upto(b: Seq<u8>, n: int) -> bool {
    forall|i: int| 0 <= i < n ==> #[trigger] hex_digit_value(b[i]) is Some
}

/// What `hex::decode` makes of the bytes: an odd length is an error, then the first byte
/// that is not a hex digit, else each pair of digits is one byte
pub open spec fn hex_decoded(b: Seq<u8>) -> Result<Seq<u8>, HexError> {
    if b.len() % 2 != 0 {
        Err(HexError::OddLength)
    } else if exists|i: int| 0 <= i < b.len() && #[trigger] hex_digit_value(b[i]) is None {
        let i = choose|i: int| 0 <= i < b.len() && hex_digit_value(b[i]) is None && hex_digits_upto(b, i);
        Err(HexError::InvalidHexCharacter { c: b[i] as char, index: i as usize })
    } else {
        Ok(
            Seq::new(
                (b.len() / 2) as nat,
                |k: int|
                    (hex_digit_value(b[2 * k])->Some_0 * 16 + hex_digit_value(b[2 * k + 1])->Some_0) as u8,
            ),
        )
    }
}

/// `hex::decode`: the bytes that a hex text's bytes stand for, two digits each, or why they
/// do not.
#[verifier::external_body]
fn hex_decode(b: &[u8]) -> (r: Result<Vec<u8>, HexError>)
    ensures
        match r {
            Ok(v) => hex_decoded(b@) == Ok::<Seq<u8>, HexError>(v@),
            Err(e) => hex_decoded(b@) == Err::<Seq<u8>, HexError>(e),
        },
{
    match hex::decode(b) {
        Ok(v) => Ok(v),
        Err(hex::FromHexError::InvalidHexCharacter { c, index }) => Err(
            HexError::InvalidHexCharacter { c, index },
        ),
        Err(hex::FromHexError::OddLength) => Err(HexError::OddLength),
        Err(hex::FromHexError::InvalidStringLength) => Err(HexError::InvalidStringLength),
    }
}

/// The UTF-8 encoding of one character
pub open spec fn utf8_char(c: char) -> Seq<u8> {
    let u = c as u32;
    if u < 0x80 {
        seq![u as u8]
    } else if u < 0x800 {
        seq![(0xC0 + u / 64) as u8, (0x80 + u % 64) as u8]
    } else if u < 0x10000 {
        seq![(0xE0 + u / 4096) as u8, (0x80 + (u / 64) % 64) as u8, (0x80 + u % 64) as u8]
    } else {
        seq![
            (0xF0 + u / 262144) as u8,
            (0x80 + (u / 4096) % 64) as u8,
            (0x80 + (u / 64) % 64) as u8,
            (0x80 + u % 64) as u8,
        ]
    }
}

/// The UTF-8 encoding of a text
pub open spec fn utf8(s: Seq<char>) -> Seq<u8>
    decreases s.len(),
{
    if s.len() == 0 {
        Seq::empty()
    } else {
        utf8(s.drop_last()) + utf8_char(s.last())
    }
}

/// The UTF-8 encoding of the characters
fn utf8_of(cs: &[char]) -> (r: Vec<u8>)
    ensures
        r@ == utf8(cs@),
{
    let mut r: Vec<u8> = Vec::new();
    let mut i: usize = 0;
    while i < cs.len()
        invariant
            i <= cs@.len(),
            r@ == utf8(cs@.subrange(0, i as int)),
        decreases cs@.len() - i,
    {
        let c = cs[i];
        let u = c as u32;
        let ghost before = r@;
        if u < 0x80 {
            r.push(u as u8);
        } else if u < 0x800 {
            r.push((0xC0 + u / 64) as u8);
            r.push((0x80 + u % 64) as u8);
        } else if u < 0x10000 {
            r.push((0xE0 + u / 4096) as u8);
            r.push((0x80 + (u / 64) % 64) as u8);
            r.push((0x80 + u % 64) as u8);
        } else {
            r.push((0xF0 + u / 262144) as u8);
            r.push((0x80 + (u / 4096) % 64) as u8);
            r.push((0x80 + (u / 64) % 64) as u8);
            r.push((0x80 + u % 64) as u8);
        }
        assert(r@ =~= before + utf8_char(c));
        i = i + 1;
        assert(cs@.subrange(0, i as int).drop_last() =~= cs@.subrange(0, i - 1));
    }
    assert(cs@.subrange(0, cs@.len() as int) =~= cs@);
    r
}

/// What resolving the token from a hex text gives: its bytes, decoded after surrounding
/// whitespace is trimmed
pub open spec fn token_from_text(text: Seq<char>, r: Result<AuthTokenBytes, AuthTokenError>) -> bool {
    match hex_decoded(utf8(trim(text))) {
        Ok(bytes) => r matches Ok(t) && t.0@ == bytes,
        Err(e) => r == Err::<AuthTokenBytes, AuthTokenError>(AuthTokenError::Hex(e)),
    }
}

impl AuthTokenBytes {
    /// The token from a hex text, surrounding whitespace ignored
    pub fn from_hex(text: &str) -> (r: Result<AuthTokenBytes, AuthTokenError>)
        ensures
            token_from_text(text@, r),
    {
        let cs = chars_of(text);
        let t = trim_chars(cs.as_slice());
        let bytes = utf8_of(t.as_slice());
        match hex_decode(bytes.as_slice()) {
            Ok(v) => Ok(AuthTokenBytes(v)),
            Err(e) => Err(AuthTokenError::Hex(e)),
        }
    }

    /// The token: the given hex text, else the content of the user's token file, which
    /// is not looked at when a text is given; without either a token is required
    pub fn resolve(maybe_provided_hex: Option<&str>, token_file: Option<String>) -> (r: Result<
        AuthTokenBytes,
        AuthTokenError,
    >)
        ensures
            match maybe_provided_hex {
                Some(h) => token_from_text(h@, r),
                None => match token_file {
                    Some(f) => token_from_text(f@, r),
                    None => r == Err::<AuthTokenBytes, AuthTokenError>(AuthTokenError::AuthRequired),
                },
            },
    {
        match maybe_provided_hex {
            Some(h) => AuthTokenBytes::from_hex(h),
            None => match token_file {
                Some(f) => AuthTokenBytes::from_hex(f.as_str()),
                None => Err(AuthTokenError::AuthRequired),
            },
        }
    }
}

} // verus!
