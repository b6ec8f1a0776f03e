use base64::Engine;
use ed25519_dalek::{Signer, SigningKey};
use mcp_firewall::keys::{parse_sign_key, parse_verify_key, KeyError};
use mcp_firewall::signing::{sign_response, verify_signature};

fn keypair() -> (SigningKey, String) {
    let sk = SigningKey::from_bytes(&[3u8; 32]);
    let vk = hex::encode(sk.verifying_key().to_bytes());
    (sk, vk)
}

#[test]
fn verify_key_round_trips_bytes() {
    let (sk, vk) = keypair();
    let k = parse_verify_key(vk).unwrap();
    assert_eq!(k.as_bytes(), &sk.verifying_key().to_bytes()[..]);
}

#[test]
fn uppercase_hex_is_accepted() {
    let k = parse_sign_key("AB".repeat(32)).unwrap();
    assert_eq!(k.as_bytes(), &[0xABu8; 32][..]);
}

#[test]
fn non_hex_key_is_refused() {
    assert_eq!(parse_sign_key("zz".repeat(32)).err(), Some(KeyError::InvalidHex));
    assert_eq!(parse_verify_key("abc".to_string()).err(), Some(KeyError::InvalidHex));
}

#[test]
fn short_key_is_refused() {
    assert_eq!(parse_sign_key("ab".repeat(31)).err(), Some(KeyError::WrongLength));
    assert_eq!(parse_verify_key("ab".repeat(33)).err(), Some(KeyError::WrongLength));
}

#[test]
fn valid_signature_is_accepted() {
    let (sk, vk) = keypair();
    let k = parse_verify_key(vk).unwrap();
    let sig = base64::engine::general_purpose::STANDARD.encode(sk.sign(b"hello").to_bytes());
    assert!(verify_signature(Some(&k), Some(&sig), "hello"));
    assert!(!verify_signature(Some(&k), Some(&sig), "hellO"));
}

#[test]
fn missing_or_malformed_signature_is_rejected() {
    let (_, vk) = keypair();
    let k = parse_verify_key(vk).unwrap();
    assert!(!verify_signature(Some(&k), None, "hello"));
    assert!(!verify_signature(Some(&k), Some("***"), "hello"));
    assert!(!verify_signature(Some(&k), Some("AAAA"), "hello"));
}

#[test]
fn no_key_accepts_everything() {
    assert!(verify_signature(None, None, "x"));
    assert!(verify_signature(None, Some("junk"), "x"));
}

#[test]
fn response_signature_is_base64_of_signature() {
    let sk = SigningKey::from_bytes(&[5u8; 32]);
    let k = parse_sign_key(hex::encode([5u8; 32])).unwrap();
    let s = sign_response(Some(&k), true, "{\"a\":1}").unwrap();
    assert_eq!(s, base64::engine::general_purpose::STANDARD.encode(sk.sign(b"{\"a\":1}").to_bytes()));
    assert_eq!(s.len(), 88);
    assert!(sign_response(Some(&k), false, "{}").is_none());
    assert!(sign_response(None, true, "{}").is_none());
}

#[test]
fn off_curve_key_is_refused() {
    let mut refused = 0;
    for i in 0..=255u8 {
        let mut b = [0u8; 32];
        b[0] = i;
        let curve_ok = ed25519_dalek::VerifyingKey::from_bytes(&b).is_ok();
        match parse_verify_key(hex::encode(b)) {
            Ok(k) => {
                assert!(curve_ok);
                assert_eq!(k.as_bytes(), &b[..]);
            }
            Err(e) => {
                assert!(!curve_ok);
                assert_eq!(e, KeyError::InvalidKey);
                refused += 1;
            }
        }
    }
    assert!(refused > 0);
}
