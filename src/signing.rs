//! Detached Ed25519 signatures: checking the one on a request body, and
//! making one for a response body.

use vstd::prelude::*;
use vstd::utf8::encode_utf8;

use crate::foreign::{base64_bytes, base64_decode, base64_encode, base64_text, ed25519_accepts,
    ed25519_sign, ed25519_signature, ed25519_verify};
use crate::keys::{SignKey, VerifyKey};

verus! {

/// Whether a request body carries a valid signature. With no public key
/// configured every body counts as validly signed; otherwise the header must be
/// present, decode as standard base64 to exactly 64 bytes, and verify over the
/// body's bytes.
pub open spec fn signature_valid(key: Option<Seq<u8>>, header: Option<Seq<char>>, body: Seq<u8>) -> bool {
    match key {
        None => true,
        Some(k) => match header {
            None => false,
            Some(h) => match base64_bytes(h) {
                None => false,
                Some(sig) => sig.len() == 64 && ed25519_accepts(k, body, sig),
            },
        },
    }
}

/// The view of an optional key.
pub open spec fn key_view(key: Option<&VerifyKey>) -> Option<Seq<u8>> {
    match key {
        Some(k) => Some(k@),
        None => None,
    }
}

/// The view of an optional text.
pub open spec fn text_view(s: Option<&str>) -> Option<Seq<char>> {
    match s {
        Some(t) => Some(t@),
        None => None,
    }
}

/// The signature header that a response body gets: present only when a secret
/// key is configured and the policy asks for signed responses.
pub open spec fn response_signature(key: Option<Seq<u8>>, sign_responses: bool, body: Seq<char>) -> Option<Seq<char>> {
    match key {
        Some(k) => if sign_responses {
            Some(base64_text(ed25519_signature(k, encode_utf8(body))))
        } else {
            None
        },
        None => None,
    }
}

/// Checks the detached signature `header` (the text of the signature header,
/// if the request had one) over the bytes of `body`. Never fails: every
/// problem yields `false`.
pub fn verify_signature(key: Option<&VerifyKey>, header: Option<&str>, body: &str) -> (r: bool)
    ensures
        r == signature_valid(key_view(key), text_view(header), encode_utf8(body@)),
{
    let key = match key {
        None => return true,
        Some(k) => k,
    };
    let raw = match header {
        None => return false,
        Some(h) => h,
    };
    let sig = match base64_decode(raw) {
        None => return false,
        Some(b) => b,
    };
    if sig.len() != 64 {
        return false;
    }
    ed25519_verify(key.as_bytes(), body.as_bytes(), sig.as_slice())
}

/// Signs the bytes of a response body, giving the base64 text of the
/// signature, when a secret key is configured and `sign_responses` is set.
pub fn sign_response(key: Option<&SignKey>, sign_responses: bool, body: &str) -> (r: Option<String>)
    ensures
        match r {
            Some(s) => response_signature(
                match key { Some(k) => Some(k@), None => None },
                sign_responses,
                body@,
            ) == Some(s@),
            None => response_signature(
                match key { Some(k) => Some(k@), None => None },
                sign_responses,
                body@,
            ) is None,
        },
{
    let key = match key {
        None => return None,
        Some(k) => k,
    };
    if !sign_responses {
        return None;
    }
    let sig = ed25519_sign(key.as_bytes(), body.as_bytes());
    Some(base64_encode(sig.as_slice()))
}

} // verus!
