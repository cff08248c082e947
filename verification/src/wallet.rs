//! The wallet: a secp256k1 key pair with an optional miner role. It gives its
//! address, signs bytes, and authorizes transfers.

use crate::crypto::{
    derive_public_key, ecdsa_sign, ecdsa_signature_of, generate_keypair, is_valid_secret_key,
    public_key_of, sha256, sha256_digest, MAX_SIGNATURE_LEN, MIN_SIGNATURE_LEN,
};
use crate::fees::affordable;
use crate::hex_text::{hex_chars, hex_encode, lemma_hex_chars_injective, lemma_hex_chars_len};
use crate::signature::Signature;
use crate::transaction::{Transaction, TransactionView};
use crate::transfer::{
    authorize, miner_notice, notice_text, submit, unsigned_transfer, InsufficientFunds,
};
use vstd::prelude::*;

verus! {

/// Length in bytes of a compressed public key.
pub const PUBLIC_KEY_LEN: usize = 33;

/// Length in characters of an address.
pub const ADDRESS_LEN: usize = 66;

/// A key pair and a role. The secret key never leaves the wallet; the public
/// key is always the one that belongs to it.
pub struct Wallet {
    secret_key: [u8; 32],
    public_key: [u8; 33],
    is_miner: bool,
}

impl Clone for Wallet {
    fn clone(&self) -> (copy: Wallet)
        ensures
            copy == *self,
    {
        proof {
            use_type_invariant(self);
        }
        Wallet { secret_key: self.secret_key, public_key: self.public_key, is_miner: self.is_miner }
    }
}

impl Wallet {
    #[verifier::type_invariant]
    spec fn keys_correspond(self) -> bool {
        self.wf()
    }

    /// The secret key, for contracts only.
    pub closed spec fn secret(&self) -> Seq<u8> {
        self.secret_key@
    }

    /// The compressed public key.
    pub closed spec fn public(&self) -> Seq<u8> {
        self.public_key@
    }

    /// The secret key is valid and the public key is the one derived from
    /// it, 33 bytes long.
    pub open spec fn wf(&self) -> bool {
        &&& is_valid_secret_key(self.secret())
        &&& self.public() == public_key_of(self.secret())
        &&& self.public().len() == PUBLIC_KEY_LEN
    }

    /// Whether the wallet takes part in block assembly.
    pub closed spec fn miner(&self) -> bool {
        self.is_miner
    }

    /// The address: the hexadecimal text of the compressed public key.
    pub open spec fn spec_address(&self) -> Seq<char> {
        hex_chars(self.public())
    }

    /// The transfer that this wallet queues when it sends `amount` coins to
    /// the holder of `receiver_key`: fee of one percent, content hashed, the
    /// hash signed with this wallet's key, the signature attached as text.
    pub open spec fn signed_transfer(&self, receiver_key: Seq<u8>, amount: u64) -> TransactionView {
        let unsigned = unsigned_transfer(self.spec_address(), hex_chars(receiver_key), amount);
        unsigned.with_signature(
            ecdsa_signature_of(self.secret(), sha256(unsigned.content_hash())),
        )
    }

    /// A wallet with a fresh key pair from the operating system's random
    /// source. Without that source the process stops.
    pub fn new(is_miner: bool) -> (wallet: Wallet)
        ensures
            wallet.wf(),
            wallet.miner() == is_miner,
    {
        let (secret_key, public_key) = generate_keypair();
        Wallet { secret_key, public_key, is_miner }
    }

    /// The wallet of a given secret key. The key is refused when it is not a
    /// number above zero and below the group order.
    pub fn from_secret_key(secret_key: [u8; 32], is_miner: bool) -> (wallet: Option<Wallet>)
        ensures
            wallet.is_some() == is_valid_secret_key(secret_key@),
            wallet matches Some(w) ==> {
                &&& w.wf()
                &&& w.secret() == secret_key@
                &&& w.public() == public_key_of(secret_key@)
                &&& w.miner() == is_miner
            },
    {
        match derive_public_key(&secret_key) {
            Some(public_key) => Some(Wallet { secret_key, public_key, is_miner }),
            None => None,
        }
    }

    /// The compressed public key.
    pub fn public_key(&self) -> (key: [u8; 33])
        ensures
            key@ == self.public(),
            key@ == public_key_of(self.secret()),
    {
        proof {
            use_type_invariant(self);
        }
        self.public_key
    }

    /// Whether the wallet takes part in block assembly.
    pub fn is_miner(&self) -> (flag: bool)
        ensures
            flag == self.miner(),
    {
        self.is_miner
    }

    /// The address under which the ledger knows this wallet: 66 hexadecimal
    /// digits, the same for every wallet of the same secret key.
    pub fn address(&self) -> (text: String)
        ensures
            text@ == self.spec_address(),
            text@ == hex_chars(public_key_of(self.secret())),
            text@.len() == ADDRESS_LEN,
    {
        proof {
            use_type_invariant(self);
            lemma_hex_chars_len(self.public());
        }
        hex_encode(self.public_key.as_slice())
    }

    /// Signs the SHA-256 of `data`. The signature is the one that key and
    /// data determine, and it is accepted under this wallet's public key.
    pub fn sign(&self, data: &[u8]) -> (signature: Signature)
        ensures
            signature@ == ecdsa_signature_of(self.secret(), sha256(data@)),
            signature.accepted_by(self.public(), data@),
            MIN_SIGNATURE_LEN <= signature@.len() <= MAX_SIGNATURE_LEN,
    {
        proof {
            use_type_invariant(self);
        }
        let digest = sha256_digest(data);
        Signature::from_der(ecdsa_sign(&self.secret_key, &digest))
    }

    /// Authorizes a transfer of `amount` coins to `receiver`, given the
    /// sender's confirmed `balance` in hundredths.
    ///
    /// When the balance does not cover amount and fee, the refusal names this
    /// wallet's address and `mempool` is left as it is. Otherwise the
    /// transfer is built, hashed, signed and put at the end of `mempool`, and
    /// a miner gets its advisory line.
    pub fn send_money(
        &self,
        receiver: &Wallet,
        amount: u64,
        balance: u64,
        mempool: &mut Vec<Transaction>,
    ) -> (outcome: Result<Option<String>, InsufficientFunds>)
        ensures
            outcome.is_ok() == affordable(balance as nat, amount as nat),
            outcome matches Err(refusal) ==> {
                &&& refusal.address@ == self.spec_address()
                &&& final(mempool)@ == old(mempool)@
            },
            outcome matches Ok(notice) ==> {
                &&& final(mempool)@.len() == old(mempool)@.len() + 1
                &&& final(mempool)@.drop_last() == old(mempool)@
                &&& final(mempool)@.last()@ == self.signed_transfer(receiver.public(), amount)
                &&& final(mempool)@.last()@.is_signed()
                &&& 2 * MIN_SIGNATURE_LEN <= final(mempool)@.last()@.signature.len() <= 2
                    * MAX_SIGNATURE_LEN
                &&& final(mempool)@.last()@.signed_under(self.public())
                &&& notice.is_some() == self.miner()
                &&& notice matches Some(line) ==> line@ == notice_text(self.spec_address())
            },
    {
        let sender_address = self.address();
        let receiver_address = receiver.address();
        let tx = match authorize(
            sender_address.as_str(),
            receiver_address.as_str(),
            amount,
            balance,
        ) {
            Ok(tx) => tx,
            Err(refusal) => {
                return Err(refusal);
            },
        };
        let tx_hash = tx.hash();
        let signature = self.sign(tx_hash.as_slice());
        submit(tx, &signature, mempool);
        proof {
            let queued = final(mempool)@.last()@;
            assert(queued.signature == hex_chars(signature@));
            assert(queued.content_hash() == tx@.content_hash());
            lemma_hex_chars_len(signature@);
        }
        Ok(miner_notice(self.is_miner, sender_address.as_str()))
    }
}

/// Two wallets with the same secret key have the same public key and the
/// same address, whenever and wherever they were made.
pub proof fn lemma_address_determined_by_key(a: Wallet, b: Wallet)
    requires
        a.wf(),
        b.wf(),
        a.secret() == b.secret(),
    ensures
        a.public() == b.public(),
        a.spec_address() == b.spec_address(),
{
}

/// Two wallets with the same address have the same public key: the key can
/// be read back from the address.
pub proof fn lemma_address_names_public_key(a: Wallet, b: Wallet)
    requires
        a.spec_address() == b.spec_address(),
    ensures
        a.public() == b.public(),
{
    lemma_hex_chars_injective(a.public(), b.public());
}

} // verus!
