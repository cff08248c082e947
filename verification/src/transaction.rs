//! A transfer of coins from one address to another, as the pending pool
//! takes it.

use crate::crypto::{ecdsa_accepts, sha256, sha256_digest};
use crate::encoding::{canonical_encoding, encode_transfer};
use crate::hex_text::hex_chars;
use crate::signature::Signature;
use vstd::prelude::*;
use vstd::string::*;

verus! {

/// A transfer. `amount` is in whole coins and `fee` in hundredths of a coin.
/// `signature` is empty until the sender has signed, and then holds the
/// hexadecimal text of the DER signature.
#[derive(Debug)]
pub struct Transaction {
    pub sender: String,
    pub receiver: String,
    pub amount: u64,
    pub fee: u64,
    pub signature: String,
}

/// What a [`Transaction`] says, field by field.
pub struct TransactionView {
    pub sender: Seq<char>,
    pub receiver: Seq<char>,
    pub amount: u64,
    pub fee: u64,
    pub signature: Seq<char>,
}

impl View for Transaction {
    type V = TransactionView;

    open spec fn view(&self) -> TransactionView {
        TransactionView {
            sender: self.sender@,
            receiver: self.receiver@,
            amount: self.amount,
            fee: self.fee,
            signature: self.signature@,
        }
    }
}

impl Clone for Transaction {
    fn clone(&self) -> (copy: Transaction)
        ensures
            copy@ == self@,
    {
        Transaction {
            sender: self.sender.clone(),
            receiver: self.receiver.clone(),
            amount: self.amount,
            fee: self.fee,
            signature: self.signature.clone(),
        }
    }
}

impl TransactionView {
    /// The bytes that are hashed: every field but the signature.
    pub open spec fn content(self) -> Seq<u8> {
        canonical_encoding(self.sender, self.receiver, self.amount, self.fee)
    }

    /// The SHA-256 of the content.
    pub open spec fn content_hash(self) -> Seq<u8> {
        sha256(self.content())
    }

    /// Whether a signature has been attached.
    pub open spec fn is_signed(self) -> bool {
        self.signature.len() > 0
    }

    /// The same transfer with the text of `signature` attached.
    pub open spec fn with_signature(self, signature: Seq<u8>) -> TransactionView {
        TransactionView { signature: hex_chars(signature), ..self }
    }

    /// Whether the attached text is that of a signature which secp256k1
    /// accepts for the content hash under `public_key`.
    pub open spec fn signed_under(self, public_key: Seq<u8>) -> bool {
        exists|signature: Seq<u8>|
            #![trigger hex_chars(signature)]
            self.signature == hex_chars(signature) && ecdsa_accepts(
                public_key,
                sha256(self.content_hash()),
                signature,
            )
    }
}

impl Transaction {
    /// A transfer that nobody has signed yet.
    pub fn new(sender: &str, receiver: &str, amount: u64, fee: u64) -> (tx: Transaction)
        ensures
            tx@ == (TransactionView {
                sender: sender@,
                receiver: receiver@,
                amount,
                fee,
                signature: Seq::empty(),
            }),
    {
        Transaction {
            sender: String::from_str(sender),
            receiver: String::from_str(receiver),
            amount,
            fee,
            signature: String::new(),
        }
    }

    /// The bytes that are hashed: sender, receiver, amount and fee, without
    /// the signature.
    pub fn canonical_bytes(&self) -> (bytes: Vec<u8>)
        ensures
            bytes@ == self@.content(),
    {
        encode_transfer(self.sender.as_str(), self.receiver.as_str(), self.amount, self.fee)
    }

    /// The content hash: SHA-256 of the canonical bytes.
    pub fn hash(&self) -> (digest: [u8; 32])
        ensures
            digest@ == self@.content_hash(),
    {
        let bytes = self.canonical_bytes();
        sha256_digest(bytes.as_slice())
    }

    /// Whether a signature has been attached.
    pub fn is_signed(&self) -> (signed: bool)
        ensures
            signed == self@.is_signed(),
    {
        !self.signature.as_str().is_empty()
    }

    /// Attaches `signature` as hexadecimal text. Nothing that is hashed
    /// changes.
    pub fn attach_signature(&mut self, signature: &Signature)
        ensures
            final(self)@ == old(self)@.with_signature(signature@),
    {
        self.signature = signature.to_hex();
    }
}

/// Attaching a signature leaves the content, and with it the content hash, as
/// it was.
pub proof fn lemma_signature_outside_content(tx: TransactionView, signature: Seq<u8>)
    ensures
        tx.with_signature(signature).content() == tx.content(),
        tx.with_signature(signature).content_hash() == tx.content_hash(),
{
}

} // verus!
