//! Session identifiers and their text form.

use base64::engine::general_purpose::URL_SAFE_NO_PAD;
use base64::Engine;
use sha2::{Digest, Sha256};
use vstd::bytes::{
    lemma_auto_spec_u128_to_from_le_bytes, spec_u128_from_le_bytes, spec_u128_to_le_bytes,
    u128_from_le_bytes, u128_to_le_bytes,
};
use vstd::prelude::*;

verus! {

/// Number of bytes in an identifier.
pub const ID_BYTES: usize = 16;

/// Number of characters in the text form of an identifier.
pub const ID_TEXT_LEN: usize = 22;

/// `DecodeSliceError` of `base64`, carried through as it is: nothing is said
/// of what an error holds.
#[verifier::external_type_specification]
#[verifier::external_body]
pub struct ExDecodeSliceError(base64::DecodeSliceError);

/// The unpadded URL-safe base64 text that `base64` encodes `bytes` to.
pub uninterp spec fn base64_encoding(bytes: Seq<u8>) -> Seq<char>;

/// The bytes that `base64` decodes unpadded URL-safe `text` to, `None` where
/// it rejects the text.
pub uninterp spec fn base64_decoding(text: Seq<char>) -> Option<Seq<u8>>;

/// Calls `Engine::encode` of `base64` on the engine `URL_SAFE_NO_PAD`.
///
/// Believed of it: sixteen bytes give twenty-two characters, and the engine
/// decodes what it encoded back to the same bytes.
#[verifier::external_body]
fn encode(bytes: &Vec<u8>) -> (text: String)
    ensures
        text@ == base64_encoding(bytes@),
        bytes@.len() == ID_BYTES ==> text@.len() == ID_TEXT_LEN,
        base64_decoding(text@) == Some(bytes@),
{
    URL_SAFE_NO_PAD.encode(bytes)
}

/// Calls `Engine::decode_slice` of `base64` on the engine `URL_SAFE_NO_PAD`
/// with an output slice of sixteen bytes.
///
/// Believed of it: it succeeds exactly on text that decodes to at most sixteen
/// bytes, returns their number and has written them to the front of the slice.
#[verifier::external_body]
fn decode_slice(text: &str) -> (r: Result<(usize, [u8; 16]), base64::DecodeSliceError>)
    ensures
        match r {
            Ok((n, decoded)) => n <= ID_BYTES && base64_decoding(text@) == Some(
                decoded@.subrange(0, n as int),
            ),
            Err(_) => match base64_decoding(text@) {
                Some(bytes) => bytes.len() > ID_BYTES,
                None => true,
            },
        },
{
    let mut decoded = [0u8; 16];
    let n = URL_SAFE_NO_PAD.decode_slice(text.as_bytes(), &mut decoded)?;
    Ok((n, decoded))
}

/// The SHA-256 digest of the UTF-8 bytes of `text`.
pub uninterp spec fn sha256_of(text: Seq<char>) -> Seq<u8>;

/// Calls `Digest::digest` of `sha2` for `Sha256` on the bytes of `text`.
///
/// Believed of it: the digest depends on the text alone and has 32 bytes.
#[verifier::external_body]
fn sha256_digest(text: &str) -> (digest: Vec<u8>)
    ensures
        digest@ == sha256_of(text@),
        digest@.len() == 32,
{
    Sha256::digest(text).to_vec()
}

/// The lower-case hexadecimal digit for a value below sixteen.
pub open spec fn hex_digit(nibble: int) -> char {
    seq!['0', '1', '2', '3', '4', '5', '6', '7', '8', '9', 'a', 'b', 'c', 'd', 'e', 'f'][nibble]
}

/// Lower-case hexadecimal text of `bytes`: two digits a byte, the high half
/// first.
pub open spec fn hex_lower(bytes: Seq<u8>) -> Seq<char> {
    Seq::new(
        2 * bytes.len(),
        |i: int|
            if i % 2 == 0 {
                hex_digit(bytes[i / 2] as int / 16)
            } else {
                hex_digit(bytes[i / 2] as int % 16)
            },
    )
}

/// Calls `hex::encode`.
///
/// Believed of it: the result is the lower-case hexadecimal text of the bytes.
#[verifier::external_body]
fn hex_encode(bytes: &Vec<u8>) -> (text: String)
    ensures
        text@ == hex_lower(bytes@),
{
    hex::encode(bytes)
}

/// Why a text is not an identifier.
#[derive(Clone, Copy, Debug, PartialEq, Eq, Structural)]
pub enum IdParseError {
    /// The text is not unpadded URL-safe base64, or holds more than sixteen
    /// bytes.
    Malformed,
    /// The text decodes to this many bytes, fewer than sixteen.
    InvalidLength(usize),
}

/// Identifier of a session: 128 bits that only a secure generator hands out.
#[derive(Clone, Copy, PartialEq, Eq, Hash, Structural)]
pub struct Id(pub i128);

impl Id {
    /// The sixteen bytes of the identifier, lowest first.
    pub open spec fn le_bytes(self) -> Seq<u8> {
        spec_u128_to_le_bytes(self.0 as u128)
    }

    /// The text form carried in cookies.
    pub open spec fn text(self) -> Seq<char> {
        base64_encoding(self.le_bytes())
    }

    /// The identifier that `text` stands for, if any: the text must decode to
    /// exactly sixteen bytes.
    pub open spec fn parsed(text: Seq<char>) -> Option<Id> {
        match base64_decoding(text) {
            Some(bytes) => if bytes.len() == ID_BYTES {
                Some(Id(spec_u128_from_le_bytes(bytes) as i128))
            } else {
                None
            },
            None => None,
        }
    }

    /// The error that parsing `text` gives where it stands for no identifier.
    pub open spec fn parse_error(text: Seq<char>) -> IdParseError {
        match base64_decoding(text) {
            Some(bytes) => if bytes.len() < ID_BYTES {
                IdParseError::InvalidLength(bytes.len() as usize)
            } else {
                IdParseError::Malformed
            },
            None => IdParseError::Malformed,
        }
    }

    /// The key under which the store files the session: the SHA-256 digest of
    /// the text form, in hexadecimal.
    pub open spec fn hashed(self) -> Seq<char> {
        hex_lower(sha256_of(self.text()))
    }

    /// The identifier with the value `id`.
    pub fn new(id: i128) -> (r: Self)
        ensures
            r == Id(id),
    {
        Self(id)
    }

    /// The identifier whose sixteen bytes, lowest first, are `bytes`.
    pub fn from_le_bytes(bytes: &[u8; 16]) -> (id: Self)
        ensures
            id == Id(spec_u128_from_le_bytes(bytes@) as i128),
            id.le_bytes() == bytes@,
    {
        let value = u128_from_le_bytes(bytes.as_slice());
        proof {
            lemma_auto_spec_u128_to_from_le_bytes();
            assert((value as i128) as u128 == value) by (bit_vector);
        }
        Id(value as i128)
    }

    /// The text form: 22 characters of unpadded URL-safe base64, which parse
    /// back to this identifier.
    pub fn to_string(&self) -> (text: String)
        ensures
            text@ == self.text(),
            text@.len() == ID_TEXT_LEN,
            Id::parsed(text@) == Some(*self),
    {
        let value = self.0;
        let bytes = u128_to_le_bytes(value as u128);
        let text = encode(&bytes);
        proof {
            lemma_auto_spec_u128_to_from_le_bytes();
            assert((value as u128) as i128 == value) by (bit_vector);
        }
        text
    }

    /// Reads an identifier from its text form. Any text that does not decode
    /// to exactly sixteen bytes is refused.
    pub fn parse(s: &str) -> (r: Result<Id, IdParseError>)
        ensures
            match r {
                Ok(id) => Id::parsed(s@) == Some(id),
                Err(e) => Id::parsed(s@) is None && e == Id::parse_error(s@),
            },
    {
        match decode_slice(s) {
            Ok((bytes_decoded, decoded)) => {
                if bytes_decoded != ID_BYTES {
                    return Err(IdParseError::InvalidLength(bytes_decoded));
                }
                assert(decoded@.subrange(0, 16) =~= decoded@);
                Ok(Id(u128_from_le_bytes(decoded.as_slice()) as i128))
            },
            Err(_) => Err(IdParseError::Malformed),
        }
    }

    /// The storage key of the session. It is never the text form itself.
    pub fn hashed_id(&self) -> (key: String)
        ensures
            key@ == self.hashed(),
            key@.len() == 64,
            self.text().len() == ID_TEXT_LEN,
            key@ != self.text(),
    {
        let text = self.to_string();
        let digest = sha256_digest(text.as_str());
        hex_encode(&digest)
    }
}

impl core::str::FromStr for Id {
    type Err = IdParseError;

    fn from_str(s: &str) -> (r: Result<Self, Self::Err>)
        ensures
            match r {
                Ok(id) => Id::parsed(s@) == Some(id),
                Err(e) => Id::parsed(s@) is None && e == Id::parse_error(s@),
            },
    {
        Id::parse(s)
    }
}

} // verus!
