//! An ECDSA signature, held as the bytes of its DER encoding.

use crate::crypto::{ecdsa_accepts, ecdsa_verify, sha256, sha256_digest};
use crate::hex_text::{hex_chars, hex_encode};
use vstd::prelude::*;

verus! {

/// A signature in DER form. Any bytes can be held; whether they are a
/// signature of something is what [`Signature::verify`] answers.
#[derive(Debug)]
pub struct Signature {
    der: Vec<u8>,
}

impl View for Signature {
    type V = Seq<u8>;

    closed spec fn view(&self) -> Seq<u8> {
        self.der@
    }
}

impl Clone for Signature {
    fn clone(&self) -> (copy: Signature)
        ensures
            copy@ == self@,
    {
        Signature { der: self.der.clone() }
    }
}

impl Signature {
    /// Whether secp256k1 accepts this signature for `data` under
    /// `public_key`: the signed digest is the SHA-256 of `data`.
    pub open spec fn accepted_by(&self, public_key: Seq<u8>, data: Seq<u8>) -> bool {
        ecdsa_accepts(public_key, sha256(data), self@)
    }

    /// Takes the DER bytes of a signature as they are.
    pub fn from_der(der: Vec<u8>) -> (signature: Signature)
        ensures
            signature@ == der@,
    {
        Signature { der }
    }

    /// The DER bytes.
    pub fn serialize_der(&self) -> (der: Vec<u8>)
        ensures
            der@ == self@,
    {
        self.der.clone()
    }

    /// The DER bytes as hexadecimal text, the form in which a transfer
    /// carries its signature.
    pub fn to_hex(&self) -> (text: String)
        ensures
            text@ == hex_chars(self@),
    {
        hex_encode(self.der.as_slice())
    }

    /// Checks the signature against the SHA-256 of `data` under the
    /// compressed public key `public_key`.
    pub fn verify(&self, public_key: &[u8; 33], data: &[u8]) -> (accepted: bool)
        ensures
            accepted == self.accepted_by(public_key@, data@),
    {
        let digest = sha256_digest(data);
        ecdsa_verify(public_key, &digest, self.der.as_slice())
    }
}

} // verus!
