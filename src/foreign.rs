//! The calls this library makes into other crates and into parts of std
//! that carry no specification, each with the contract relied on.

use vstd::prelude::*;

verus! {

/// Relies on `str::starts_with` with a `&str` pattern: true exactly when
/// `prefix` is a prefix of `s`.
#[verifier::external_body]
pub(crate) fn str_starts_with(s: &str, prefix: &str) -> (r: bool)
    ensures
        r == prefix@.is_prefix_of(s@),
{
    s.starts_with(prefix)
}

/// Relies on `chrono::Utc::now` and `DateTime::to_rfc3339`: the current wall
/// clock time as RFC 3339 text. Nothing is promised of its value.
#[verifier::external_body]
pub(crate) fn rfc3339_now() -> (r: String) {
    chrono::Utc::now().to_rfc3339()
}

} // verus!

verus! {

/// The bucket table's type: `dashmap::DashMap`, carried opaquely.
#[verifier::external_type_specification]
#[verifier::external_body]
#[verifier::reject_recursive_types(K)]
#[verifier::reject_recursive_types(V)]
#[verifier::reject_recursive_types(S)]
pub struct ExDashMap<K, V, S>(dashmap::DashMap<K, V, S>);

/// Buckets keyed by text: a request count and the instant its window began.
pub type BucketTable = dashmap::DashMap<String, (u32, u64)>;

/// What a bucket table holds: for each key's text, its count and window start.
pub uninterp spec fn bucket_entries(m: BucketTable) -> Map<Seq<char>, (u32, u64)>;

/// The entry of `k` in `m`, if any.
pub open spec fn bucket_at(m: Map<Seq<char>, (u32, u64)>, k: Seq<char>) -> Option<(u32, u64)> {
    if m.dom().contains(k) {
        Some(m[k])
    } else {
        None
    }
}

/// Relies on `DashMap::new`: a new map is empty.
#[verifier::external_body]
pub(crate) fn bucket_table_new() -> (r: BucketTable)
    ensures
        bucket_entries(r).dom() == Set::<Seq<char>>::empty(),
{
    dashmap::DashMap::new()
}

/// Relies on `DashMap::get`: the value stored under a key equal to `k`, if any.
#[verifier::external_body]
pub(crate) fn bucket_table_get(m: &BucketTable, k: &String) -> (r: Option<(u32, u64)>)
    ensures
        r == bucket_at(bucket_entries(*m), k@),
{
    m.get(k).map(|e| *e)
}

/// Relies on `DashMap::insert`: afterwards `k` maps to `v` and every other key
/// is unchanged.
#[verifier::external_body]
pub(crate) fn bucket_table_insert(m: &mut BucketTable, k: String, v: (u32, u64))
    ensures
        bucket_entries(*final(m)) == bucket_entries(*old(m)).insert(k@, v),
{
    m.insert(k, v);
}

} // verus!

verus! {

/// `c` is an ASCII hexadecimal digit, in either case.
pub open spec fn hex_digit(c: u8) -> bool {
    (48 <= c <= 57) || (65 <= c <= 70) || (97 <= c <= 102)
}

/// The value of the hexadecimal digit `c`.
pub open spec fn hex_value(c: u8) -> int {
    if 48 <= c <= 57 {
        c - 48
    } else if 65 <= c <= 70 {
        c - 55
    } else {
        c - 87
    }
}

/// The bytes that the hexadecimal text `b` spells, two digits each, high digit
/// first; `None` for an odd length or a character that is not a digit.
pub open spec fn hex_decoded(b: Seq<u8>) -> Option<Seq<u8>> {
    if b.len() % 2 == 0 && forall|i: int| 0 <= i < b.len() ==> hex_digit(#[trigger] b[i]) {
        Some(Seq::new((b.len() / 2) as nat, |i: int| (16 * hex_value(b[2 * i]) + hex_value(b[2 * i + 1])) as u8))
    } else {
        None
    }
}

/// Relies on `hex::decode`: an odd length or a non-digit byte is an error,
/// otherwise each pair of digits gives one byte.
#[verifier::external_body]
pub(crate) fn hex_decode(b: &[u8]) -> (r: Option<Vec<u8>>)
    ensures
        match r {
            Some(v) => hex_decoded(b@) == Some(v@),
            None => hex_decoded(b@) is None,
        },
{
    hex::decode(b).ok()
}

/// Standard base64 text, with padding, of the bytes `b`.
pub uninterp spec fn base64_text(b: Seq<u8>) -> Seq<char>;

/// The bytes that standard padded base64 text `s` decodes to, or `None`.
pub uninterp spec fn base64_bytes(s: Seq<char>) -> Option<Seq<u8>>;

/// Relies on `base64::Engine::encode` with the `STANDARD` engine.
#[verifier::external_body]
pub(crate) fn base64_encode(b: &[u8]) -> (r: String)
    ensures
        r@ == base64_text(b@),
{
    base64::Engine::encode(&base64::engine::general_purpose::STANDARD, b)
}

/// Relies on `base64::Engine::decode` with the `STANDARD` engine; its result
/// depends on the text alone.
#[verifier::external_body]
pub(crate) fn base64_decode(s: &str) -> (r: Option<Vec<u8>>)
    ensures
        match r {
            Some(v) => base64_bytes(s@) == Some(v@),
            None => base64_bytes(s@) is None,
        },
{
    base64::Engine::decode(&base64::engine::general_purpose::STANDARD, s).ok()
}

/// The 32 bytes `b` encode a point that Ed25519 accepts as a public key.
pub uninterp spec fn ed25519_public_key_ok(b: Seq<u8>) -> bool;

/// The 64-byte signature `sig` of `msg` verifies under the public key `key`.
pub uninterp spec fn ed25519_accepts(key: Seq<u8>, msg: Seq<u8>, sig: Seq<u8>) -> bool;

/// The deterministic Ed25519 signature of `msg` under the secret key `key`.
pub uninterp spec fn ed25519_signature(key: Seq<u8>, msg: Seq<u8>) -> Seq<u8>;

/// Relies on `ed25519_dalek::VerifyingKey::from_bytes`: whether the bytes
/// decompress to a usable public key.
#[verifier::external_body]
pub(crate) fn ed25519_public_key_check(b: &[u8]) -> (r: bool)
    requires
        b@.len() == 32,
    ensures
        r == ed25519_public_key_ok(b@),
{
    let arr: [u8; 32] = b.try_into().unwrap();
    ed25519_dalek::VerifyingKey::from_bytes(&arr).is_ok()
}

/// Relies on `ed25519_dalek::Verifier::verify` for `VerifyingKey`, after
/// `VerifyingKey::from_bytes` and `Signature::from_bytes`: whether `sig` is a
/// valid signature of `msg` under `key`.
#[verifier::external_body]
pub(crate) fn ed25519_verify(key: &[u8], msg: &[u8], sig: &[u8]) -> (r: bool)
    requires
        key@.len() == 32,
        sig@.len() == 64,
    ensures
        r == ed25519_accepts(key@, msg@, sig@),
{
    let k: [u8; 32] = key.try_into().unwrap();
    let s: [u8; 64] = sig.try_into().unwrap();
    match ed25519_dalek::VerifyingKey::from_bytes(&k) {
        Ok(vk) => ed25519_dalek::Verifier::verify(&vk, msg, &ed25519_dalek::Signature::from_bytes(&s)).is_ok(),
        Err(_) => false,
    }
}

/// Relies on `ed25519_dalek::Signer::sign` for `SigningKey`, after
/// `SigningKey::from_bytes`, and on `Signature::to_bytes`: 64 bytes.
#[verifier::external_body]
pub(crate) fn ed25519_sign(key: &[u8], msg: &[u8]) -> (r: Vec<u8>)
    requires
        key@.len() == 32,
    ensures
        r@ == ed25519_signature(key@, msg@),
        r@.len() == 64,
{
    let k: [u8; 32] = key.try_into().unwrap();
    let sk = ed25519_dalek::SigningKey::from_bytes(&k);
    ed25519_dalek::Signer::sign(&sk, msg).to_bytes().to_vec()
}

} // verus!

verus! {

/// A filesystem path, carried opaquely.
#[verifier::external_type_specification]
#[verifier::external_body]
pub struct ExPathBuf(std::path::PathBuf);

} // verus!
