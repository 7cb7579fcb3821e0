//! The daemon's configuration: the watch's public key and the lifetime of the
//! authentication session. The file is read and parsed by the caller; this
//! module completes the parsed values.

use vstd::prelude::*;

use vstd::utf8::encode_utf8;

verus! {

/// The session lifetime when the configuration names none: zero seconds,
/// so that every request runs the challenge.
pub fn default_auth_cache_ttl_seconds() -> (ttl: Option<u64>)
    ensures
        ttl == Some(0u64),
{
    Some(0)
}

/// Why a hexadecimal text does not decode, as the `hex` crate reports it.
#[derive(Debug, Clone, Copy, PartialEq, Eq, Structural)]
pub enum HexError {
    /// The character `c` at byte `index` is not a hexadecimal digit.
    InvalidHexCharacter { c: char, index: usize },
    /// The text has an odd number of bytes.
    OddLength,
    /// The decoded length does not fit the destination.
    InvalidStringLength,
}

/// The value of the hexadecimal digit `b` (either case), if it is one.
pub open spec fn hex_value(b: u8) -> Option<u8> {
    if 48 <= b <= 57 {
        Some((b - 48) as u8)
    } else if 65 <= b <= 70 {
        Some((b - 55) as u8)
    } else if 97 <= b <= 102 {
        Some((b - 87) as u8)
    } else {
        None
    }
}

/// The bytes that the digit pairs of `data` stand for.
pub open spec fn hex_decoded(data: Seq<u8>) -> Seq<u8> {
    Seq::new(
        data.len() / 2,
        |i: int| (hex_value(data[2 * i]).unwrap() * 16 + hex_value(data[2 * i + 1]).unwrap()) as u8,
    )
}

/// Whether every byte of `data` is a hexadecimal digit.
pub open spec fn all_hex_digits(data: Seq<u8>) -> bool {
    forall|i: int| 0 <= i < data.len() ==> #[trigger] hex_value(data[i]) is Some
}

/// Whether `index` is the first byte of `data` that is not a hexadecimal digit.
pub open spec fn first_non_hex(data: Seq<u8>, index: int) -> bool {
    &&& 0 <= index < data.len()
    &&& hex_value(data[index]) is None
    &&& forall|j: int| 0 <= j < index ==> #[trigger] hex_value(data[j]) is Some
}

/// What `hex::decode` answers for `data`.
pub open spec fn hex_outcome(data: Seq<u8>) -> Result<Seq<u8>, HexError> {
    if data.len() % 2 == 1 {
        Err(HexError::OddLength)
    } else if all_hex_digits(data) {
        Ok(hex_decoded(data))
    } else {
        let index = choose|i: int| first_non_hex(data, i);
        Err(HexError::InvalidHexCharacter { c: data[index] as char, index: index as usize })
    }
}

/// A decoding result taken by its view.
pub open spec fn decoded_view(r: Result<Vec<u8>, HexError>) -> Result<Seq<u8>, HexError> {
    match r {
        Ok(v) => Ok(v@),
        Err(e) => Err(e),
    }
}

/// Some byte is the first that is not a hexadecimal digit exactly when not
/// all bytes are digits, and that byte is unique.
pub proof fn lemma_first_non_hex(data: Seq<u8>)
    ensures
        !all_hex_digits(data) ==> exists|i: int| first_non_hex(data, i),
        forall|i: int, j: int| first_non_hex(data, i) && first_non_hex(data, j) ==> i == j,
    decreases data.len(),
{
    if !all_hex_digits(data) && data.len() > 0 {
        let prefix = data.drop_last();
        if all_hex_digits(prefix) {
            assert(first_non_hex(data, data.len() - 1)) by {
                assert forall|j: int| 0 <= j < data.len() - 1 implies #[trigger] hex_value(data[j]) is Some by {
                    assert(data[j] == prefix[j]);
                }
                let k = choose|k: int| 0 <= k < data.len() && !(#[trigger] hex_value(data[k]) is Some);
                if k < data.len() - 1 {
                    assert(data[k] == prefix[k]);
                }
            }
        } else {
            lemma_first_non_hex(prefix);
            let i = choose|i: int| first_non_hex(prefix, i);
            assert(first_non_hex(data, i)) by {
                assert(data[i] == prefix[i]);
                assert forall|j: int| 0 <= j < i implies #[trigger] hex_value(data[j]) is Some by {
                    assert(data[j] == prefix[j]);
                }
            }
        }
    }
}

/// Calls `hex::decode`. As the crate documents and implements it: an odd
/// length is `OddLength`; otherwise the first byte that is not a digit of
/// either case is reported with its index; otherwise each pair of digits
/// gives one byte, high digit first.
#[verifier::external_body]
fn hex_decode(data: &[u8]) -> (r: Result<Vec<u8>, HexError>)
    ensures
        decoded_view(r) == hex_outcome(data@),
{
    match hex::decode(data) {
        Ok(v) => Ok(v),
        Err(hex::FromHexError::InvalidHexCharacter { c, index }) => Err(HexError::InvalidHexCharacter { c, index }),
        Err(hex::FromHexError::OddLength) => Err(HexError::OddLength),
        Err(hex::FromHexError::InvalidStringLength) => Err(HexError::InvalidStringLength),
    }
}

/// The daemon's configuration.
pub struct AppConfig {
    /// The watch's public key: SubjectPublicKeyInfo DER, hex-encoded.
    pub public_key_der: String,
    /// The same key, decoded.
    pub public_key_der_hex: Vec<u8>,
    /// How long a successful authentication is held, in seconds.
    pub auth_cache_ttl_seconds: Option<u64>,
}

impl AppConfig {
    /// Completes a parsed configuration by decoding the hex-encoded public key.
    pub fn from_parsed(public_key_der: String, auth_cache_ttl_seconds: Option<u64>) -> (r: Result<AppConfig, HexError>)
        ensures
            match r {
                Ok(config) => hex_outcome(encode_utf8(public_key_der@)) == Ok::<Seq<u8>, HexError>(config.public_key_der_hex@)
                    && config.public_key_der@ == public_key_der@
                    && config.auth_cache_ttl_seconds == auth_cache_ttl_seconds,
                Err(e) => hex_outcome(encode_utf8(public_key_der@)) == Err::<Seq<u8>, HexError>(e),
            },
    {
        let decoded = hex_decode(public_key_der.as_str().as_bytes());
        match decoded {
            Ok(key) => Ok(AppConfig { public_key_der, public_key_der_hex: key, auth_cache_ttl_seconds }),
            Err(e) => Err(e),
        }
    }
}

} // verus!
