//! Ed25519 key material, read from hexadecimal text.

use vstd::prelude::*;
use vstd::utf8::encode_utf8;

use crate::foreign::{ed25519_public_key_check, ed25519_public_key_ok, hex_decode, hex_decoded};

verus! {

/// Why key text was refused.
#[derive(Debug, Clone, Copy, PartialEq, Eq, Structural)]
pub enum KeyError {
    /// The text is not hexadecimal: odd length or a non-digit.
    InvalidHex,
    /// The text does not spell exactly 32 bytes.
    WrongLength,
    /// The 32 bytes are not an Ed25519 public key.
    InvalidKey,
}

/// An Ed25519 public key, held as its 32 bytes.
pub struct VerifyKey {
    bytes: Vec<u8>,
}

/// An Ed25519 secret key, held as its 32 bytes.
pub struct SignKey {
    bytes: Vec<u8>,
}

impl VerifyKey {
    #[verifier::type_invariant]
    spec fn inv(&self) -> bool {
        self.bytes@.len() == 32 && ed25519_public_key_ok(self.bytes@)
    }

    /// The key's bytes.
    pub closed spec fn view(&self) -> Seq<u8> {
        self.bytes@
    }

    /// The key's bytes, which are always 32.
    pub fn as_bytes(&self) -> (r: &[u8])
        ensures
            r@ == self@,
            r@.len() == 32,
    {
        proof {
            use_type_invariant(self);
        }
        self.bytes.as_slice()
    }
}

impl SignKey {
    #[verifier::type_invariant]
    spec fn inv(&self) -> bool {
        self.bytes@.len() == 32
    }

    /// The key's bytes.
    pub closed spec fn view(&self) -> Seq<u8> {
        self.bytes@
    }

    /// The key's bytes, which are always 32.
    pub fn as_bytes(&self) -> (r: &[u8])
        ensures
            r@ == self@,
            r@.len() == 32,
    {
        proof {
            use_type_invariant(self);
        }
        self.bytes.as_slice()
    }
}

/// What hexadecimal key text gives: its 32 bytes, or the first reason to refuse it.
pub open spec fn key_bytes_of(text: Seq<u8>) -> Result<Seq<u8>, KeyError> {
    match hex_decoded(text) {
        None => Err(KeyError::InvalidHex),
        Some(b) => if b.len() == 32 {
            Ok(b)
        } else {
            Err(KeyError::WrongLength)
        },
    }
}

fn decode_key_bytes(hex_key: &str) -> (r: Result<Vec<u8>, KeyError>)
    ensures
        match r {
            Ok(b) => key_bytes_of(encode_utf8(hex_key@)) == Ok::<Seq<u8>, KeyError>(b@),
            Err(e) => key_bytes_of(encode_utf8(hex_key@)) == Err::<Seq<u8>, KeyError>(e),
        },
{
    match hex_decode(hex_key.as_bytes()) {
        None => Err(KeyError::InvalidHex),
        Some(b) => {
            if b.len() == 32 {
                Ok(b)
            } else {
                Err(KeyError::WrongLength)
            }
        },
    }
}

/// Reads a public key from 64 hexadecimal digits. It is refused when the text
/// is not hexadecimal, does not spell 32 bytes, or the bytes are no valid point.
pub fn parse_verify_key(hex_key: String) -> (r: Result<VerifyKey, KeyError>)
    ensures
        match key_bytes_of(encode_utf8(hex_key@)) {
            Err(e) => r == Err::<VerifyKey, KeyError>(e),
            Ok(b) => if ed25519_public_key_ok(b) {
                r matches Ok(k) && k@ == b
            } else {
                r == Err::<VerifyKey, KeyError>(KeyError::InvalidKey)
            },
        },
{
    let bytes = decode_key_bytes(hex_key.as_str())?;
    if ed25519_public_key_check(bytes.as_slice()) {
        Ok(VerifyKey { bytes })
    } else {
        Err(KeyError::InvalidKey)
    }
}

/// Reads a secret key from 64 hexadecimal digits. It is refused when the text
/// is not hexadecimal or does not spell 32 bytes.
pub fn parse_sign_key(hex_key: String) -> (r: Result<SignKey, KeyError>)
    ensures
        match key_bytes_of(encode_utf8(hex_key@)) {
            Err(e) => r == Err::<SignKey, KeyError>(e),
            Ok(b) => r matches Ok(k) && k@ == b,
        },
{
    let bytes = decode_key_bytes(hex_key.as_str())?;
    Ok(SignKey { bytes })
}

} // verus!
