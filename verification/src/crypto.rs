//! The cryptographic primitives the wallet is built on: SHA-256 from `sha2`
//! and ECDSA over secp256k1 from `secp256k1`.
//!
//! Keys, digests and signatures cross this boundary as plain bytes. Nothing in
//! this module is proved: each function states what the outside crate
//! computes, and the rest of the library is verified against those
//! statements.

use secp256k1::ecdsa::Signature as EcdsaSignature;
use secp256k1::rand::rngs::OsRng;
use secp256k1::{Message, PublicKey, Secp256k1, SecretKey};
use sha2::{Digest, Sha256};
use vstd::prelude::*;

verus! {

/// Length in bytes of a secret key.
pub const SECRET_KEY_LEN: usize = 32;

/// Shortest DER encoding of an ECDSA signature: two one-byte integers.
pub const MIN_SIGNATURE_LEN: usize = 8;

/// Longest DER encoding of an ECDSA signature over secp256k1.
pub const MAX_SIGNATURE_LEN: usize = 72;

/// The number that `bytes` spell out, most significant byte first.
pub open spec fn be_value(bytes: Seq<u8>) -> nat
    decreases bytes.len(),
{
    if bytes.len() == 0 {
        0
    } else {
        be_value(bytes.drop_last()) * 256 + bytes.last() as nat
    }
}

/// The order of the secp256k1 group, most significant byte first.
pub open spec fn curve_order() -> Seq<u8> {
    seq![
        0xFFu8, 0xFF, 0xFF, 0xFF, 0xFF, 0xFF, 0xFF, 0xFF,
        0xFF, 0xFF, 0xFF, 0xFF, 0xFF, 0xFF, 0xFF, 0xFE,
        0xBA, 0xAE, 0xDC, 0xE6, 0xAF, 0x48, 0xA0, 0x3B,
        0xBF, 0xD2, 0x5E, 0x8C, 0xD0, 0x36, 0x41, 0x41,
    ]
}

/// A secret key is 32 bytes that spell a number above zero and below the
/// group order.
pub open spec fn is_valid_secret_key(secret: Seq<u8>) -> bool {
    &&& secret.len() == SECRET_KEY_LEN
    &&& 0 < be_value(secret) < be_value(curve_order())
}

/// SHA-256 of `data`, as `sha2` computes it.
pub uninterp spec fn sha256(data: Seq<u8>) -> Seq<u8>;

/// The compressed encoding of the public key that belongs to `secret`.
pub uninterp spec fn public_key_of(secret: Seq<u8>) -> Seq<u8>;

/// The DER encoding of the ECDSA signature that `secret` gives `digest`,
/// with the nonce of RFC 6979.
pub uninterp spec fn ecdsa_signature_of(secret: Seq<u8>, digest: Seq<u8>) -> Seq<u8>;

/// Whether secp256k1 accepts the DER bytes `signature` as a signature of
/// `digest` under the compressed public key `public_key`.
pub uninterp spec fn ecdsa_accepts(public_key: Seq<u8>, digest: Seq<u8>, signature: Seq<u8>) -> bool;

/// Calls `Sha256::digest` of `sha2`.
///
/// Trusted: the result is the SHA-256 digest of `data`, a function of the
/// bytes alone.
#[verifier::external_body]
pub(crate) fn sha256_digest(data: &[u8]) -> (digest: [u8; 32])
    ensures
        digest@ == sha256(data@),
{
    Sha256::digest(data).into()
}

/// Calls `Secp256k1::generate_keypair` of `secp256k1` with the operating
/// system's random source.
///
/// Trusted: whatever key is drawn, the first component is a valid secret key
/// and the second is the compressed encoding of its public key. Nothing is
/// said about which key comes back. The call aborts the process when the
/// random source is unavailable.
#[verifier::external_body]
pub(crate) fn generate_keypair() -> (pair: ([u8; 32], [u8; 33]))
    ensures
        is_valid_secret_key(pair.0@),
        pair.1@ == public_key_of(pair.0@),
{
    let (secret, public) = Secp256k1::new().generate_keypair(&mut OsRng);
    (secret.secret_bytes(), public.serialize())
}

/// Calls `SecretKey::from_slice`, then `PublicKey::from_secret_key` and
/// `PublicKey::serialize` of `secp256k1`.
///
/// Trusted: the bytes are refused exactly when they are not a valid secret
/// key; otherwise the result is the compressed encoding of the public key
/// that belongs to them.
#[verifier::external_body]
pub(crate) fn derive_public_key(secret: &[u8; 32]) -> (public: Option<[u8; 33]>)
    ensures
        public.is_some() == is_valid_secret_key(secret@),
        public.is_some() ==> public.unwrap()@ == public_key_of(secret@),
{
    match SecretKey::from_slice(secret) {
        Ok(key) => Some(PublicKey::from_secret_key(&Secp256k1::new(), &key).serialize()),
        Err(_) => None,
    }
}

/// Calls `Secp256k1::sign_ecdsa` and `Signature::serialize_der` of
/// `secp256k1` on the message made of `digest`.
///
/// Trusted: the signature is a function of key and digest alone (the nonce is
/// that of RFC 6979); its DER encoding is between 8 and 72 bytes long, two
/// integers of 1 to 33 bytes behind six bytes of framing; and verification
/// accepts it under the public key that belongs to `secret`, which is what
/// makes it a signature.
#[verifier::external_body]
pub(crate) fn ecdsa_sign(secret: &[u8; 32], digest: &[u8; 32]) -> (signature: Vec<u8>)
    requires
        is_valid_secret_key(secret@),
    ensures
        signature@ == ecdsa_signature_of(secret@, digest@),
        MIN_SIGNATURE_LEN <= signature@.len() <= MAX_SIGNATURE_LEN,
        ecdsa_accepts(public_key_of(secret@), digest@, signature@),
{
    let key = SecretKey::from_slice(secret).expect("a valid secret key");
    let message = Message::from_digest(*digest);
    Secp256k1::new().sign_ecdsa(&message, &key).serialize_der().to_vec()
}

/// Calls `PublicKey::from_slice`, `Signature::from_der` and
/// `Secp256k1::verify_ecdsa` of `secp256k1`.
///
/// Trusted: the answer is a function of the three byte strings alone. Bytes
/// that do not parse as a public key or as a DER signature are not accepted.
#[verifier::external_body]
pub(crate) fn ecdsa_verify(public_key: &[u8; 33], digest: &[u8; 32], signature: &[u8]) -> (accepted: bool)
    ensures
        accepted == ecdsa_accepts(public_key@, digest@, signature@),
{
    match (PublicKey::from_slice(public_key), EcdsaSignature::from_der(signature)) {
        (Ok(key), Ok(parsed)) => {
            let message = Message::from_digest(*digest);
            Secp256k1::new().verify_ecdsa(&message, &parsed, &key).is_ok()
        },
        _ => false,
    }
}

} // verus!
