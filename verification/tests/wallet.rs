use ledger_wallet::signature::Signature;
use ledger_wallet::transaction::Transaction;
use ledger_wallet::wallet::Wallet;
use secp256k1::{ecdsa, Message, PublicKey, Secp256k1};
use sha2::{Digest, Sha256};

const ORDER: [u8; 32] = [
    0xff, 0xff, 0xff, 0xff, 0xff, 0xff, 0xff, 0xff, 0xff, 0xff, 0xff, 0xff, 0xff, 0xff, 0xff, 0xfe,
    0xba, 0xae, 0xdc, 0xe6, 0xaf, 0x48, 0xa0, 0x3b, 0xbf, 0xd2, 0x5e, 0x8c, 0xd0, 0x36, 0x41, 0x41,
];

const ADDRESS_OF_ONE: &str = "0279be667ef9dcbbac55a06295ce870b07029bfcdb2dce28d959f2815b16f81798";
const ADDRESS_OF_TWO: &str = "02c6047f9441ed7d6d3045406e95c07cd85c778e4b8cef3ca7abac09b95c709ee5";

fn key(last: u8) -> [u8; 32] {
    let mut bytes = [0u8; 32];
    bytes[31] = last;
    bytes
}

fn wallet(last: u8, is_miner: bool) -> Wallet {
    Wallet::from_secret_key(key(last), is_miner).expect("a valid key")
}

#[test]
fn address_of_a_known_key() {
    assert_eq!(wallet(1, false).address(), ADDRESS_OF_ONE);
    assert_eq!(wallet(2, false).address(), ADDRESS_OF_TWO);
    let sevens = Wallet::from_secret_key([7u8; 32], false).expect("a valid key");
    assert_eq!(
        sevens.address(),
        "02989c0b76cb563971fdc9bef31ec06c3560f3249d6ee9e5d83c57625596e05f6f"
    );
}

#[test]
fn address_is_the_same_every_time() {
    let first = wallet(1, false);
    assert_eq!(first.address(), first.address());
    let second = wallet(1, true);
    assert_eq!(first.address(), second.address());
    assert_eq!(first.clone().address(), first.address());
}

#[test]
fn address_is_hex_of_the_public_key() {
    let w = wallet(1, false);
    assert_eq!(w.address(), hex::encode(w.public_key()));
    assert_eq!(w.address().len(), 66);
    assert_eq!(hex::decode(w.address()).expect("hex"), w.public_key().to_vec());
}

#[test]
fn zero_is_no_secret_key() {
    assert!(Wallet::from_secret_key([0u8; 32], false).is_none());
}

#[test]
fn the_order_and_above_are_no_secret_keys() {
    assert!(Wallet::from_secret_key(ORDER, false).is_none());
    let mut above = ORDER;
    above[31] += 1;
    assert!(Wallet::from_secret_key(above, false).is_none());
    assert!(Wallet::from_secret_key([0xff; 32], false).is_none());
}

#[test]
fn one_below_the_order_is_a_secret_key() {
    let mut below = ORDER;
    below[31] -= 1;
    let w = Wallet::from_secret_key(below, false).expect("a valid key");
    assert_eq!(
        w.address(),
        "0379be667ef9dcbbac55a06295ce870b07029bfcdb2dce28d959f2815b16f81798"
    );
}

#[test]
fn role_is_kept() {
    assert!(wallet(1, true).is_miner());
    assert!(!wallet(1, false).is_miner());
    assert!(Wallet::new(true).is_miner());
    assert!(!Wallet::new(false).is_miner());
}

#[test]
fn fresh_wallets_have_valid_distinct_keys() {
    let a = Wallet::new(false);
    let b = Wallet::new(false);
    assert_ne!(a.address(), b.address());
    assert_eq!(a.address().len(), 66);
    assert!(a.address().starts_with("02") || a.address().starts_with("03"));
    assert!(PublicKey::from_slice(&a.public_key()).is_ok());
    assert!(PublicKey::from_slice(&b.public_key()).is_ok());
}

#[test]
fn signature_of_a_known_key_and_message() {
    let signature = wallet(1, false).sign(b"Satoshi Nakamoto");
    assert_eq!(
        signature.to_hex(),
        "3045022100934b1ea10a4b3c1757e2b0c017d0b6143ce3c9a7e6a4a49860d7a6ab210ee3d8\
         02202442ce9d2b916064108014783e923ec36b49743e2ffa1c4496f01a512aafd9e5"
    );
    let other = Wallet::from_secret_key([7u8; 32], false).expect("a valid key").sign(b"hello");
    assert_eq!(
        other.to_hex(),
        "304402206ca4c92e08205c932967dcd32120f9e5270a551799a490acfa78c5052726c181\
         022069cd2e2cbc0f2da74d921706edc2d3e92dc44c9b0b989b07520fa247551cca4c"
    );
}

#[test]
fn signing_twice_gives_the_same_signature() {
    let w = wallet(5, false);
    assert_eq!(w.sign(b"payload").serialize_der(), w.sign(b"payload").serialize_der());
    assert_ne!(w.sign(b"payload").serialize_der(), w.sign(b"payloae").serialize_der());
}

#[test]
fn signature_verifies_under_the_signer() {
    let w = Wallet::new(false);
    for data in [&b""[..], &b"a"[..], &b"some longer payload of bytes"[..], &[0u8; 100][..]] {
        let signature = w.sign(data);
        assert!(signature.verify(&w.public_key(), data));
        let length = signature.serialize_der().len();
        assert!(8 <= length && length <= 72);
    }
}

#[test]
fn signature_verifies_independently() {
    let w = Wallet::new(false);
    let data = b"independent check";
    let der = w.sign(data).serialize_der();
    let digest: [u8; 32] = Sha256::digest(data).into();
    let parsed = ecdsa::Signature::from_der(&der).expect("DER");
    let public = PublicKey::from_slice(&w.public_key()).expect("a public key");
    let message = Message::from_digest(digest);
    assert!(Secp256k1::new().verify_ecdsa(&message, &parsed, &public).is_ok());
}

#[test]
fn signature_does_not_verify_under_another_wallet() {
    let signer = Wallet::new(false);
    let other = Wallet::new(false);
    let signature = signer.sign(b"payload");
    assert!(!signature.verify(&other.public_key(), b"payload"));
    assert!(!wallet(1, false).sign(b"payload").verify(&wallet(2, false).public_key(), b"payload"));
}

#[test]
fn signature_does_not_verify_for_other_data() {
    let w = wallet(3, false);
    let signature = w.sign(b"payload");
    assert!(!signature.verify(&w.public_key(), b"payloae"));
    assert!(!signature.verify(&w.public_key(), b""));
}

#[test]
fn broken_signatures_and_keys_are_not_accepted() {
    let w = wallet(3, false);
    let mut der = w.sign(b"payload").serialize_der();
    assert!(Signature::from_der(der.clone()).verify(&w.public_key(), b"payload"));
    let last = der.len() - 1;
    der[last] ^= 1;
    assert!(!Signature::from_der(der).verify(&w.public_key(), b"payload"));
    assert!(!Signature::from_der(Vec::new()).verify(&w.public_key(), b"payload"));
    assert!(!Signature::from_der(vec![1, 2, 3]).verify(&w.public_key(), b"payload"));
    assert!(!w.sign(b"payload").verify(&[0u8; 33], b"payload"));
}

#[test]
fn miner_role_does_not_change_the_signature() {
    assert_eq!(
        wallet(9, true).sign(b"payload").serialize_der(),
        wallet(9, false).sign(b"payload").serialize_der()
    );
}

#[test]
fn transfer_with_enough_funds_is_queued() {
    let sender = wallet(1, false);
    let receiver = wallet(2, false);
    let mut pool: Vec<Transaction> = Vec::new();
    let outcome = sender.send_money(&receiver, 50, 10_000, &mut pool);
    assert_eq!(outcome.expect("100 coins cover 50.5"), None);
    assert_eq!(pool.len(), 1);
    assert_eq!(pool[0].sender, ADDRESS_OF_ONE);
    assert_eq!(pool[0].receiver, ADDRESS_OF_TWO);
    assert_eq!(pool[0].amount, 50);
    assert_eq!(pool[0].fee, 50);
    assert_eq!(
        pool[0].signature,
        "3045022100e5a9ee01c26e8d4fd952646056b31594f36c5bd7d0cc9087626048a9cb94aa3b\
         02207ceafdb9e1bdeaed01080f3120d3c5a07c1eb0b6d01c4747732d1687f4cab05c"
    );
}

#[test]
fn transfer_without_enough_funds_is_refused() {
    let sender = wallet(1, false);
    let receiver = wallet(2, false);
    let mut pool: Vec<Transaction> = Vec::new();
    let refusal = sender.send_money(&receiver, 50, 1_000, &mut pool).expect_err("10 coins");
    assert_eq!(refusal.address, sender.address());
    assert_eq!(refusal.message(), format!("Address: {} does not have enough funds", ADDRESS_OF_ONE));
    assert!(pool.is_empty());
}

#[test]
fn refused_transfer_leaves_the_pool_as_it_was() {
    let sender = wallet(1, false);
    let receiver = wallet(2, false);
    let mut pool = vec![Transaction::new("x", "y", 1, 1)];
    for (amount, balance) in [(50u64, 5_049u64), (1, 100), (1, 0), (u64::MAX, u64::MAX)] {
        assert!(sender.send_money(&receiver, amount, balance, &mut pool).is_err());
        assert_eq!(pool.len(), 1);
        assert_eq!(pool[0].sender, "x");
    }
}

#[test]
fn transfer_at_exactly_amount_and_fee_goes_through() {
    let sender = wallet(1, false);
    let receiver = wallet(2, false);
    let mut pool: Vec<Transaction> = Vec::new();
    assert!(sender.send_money(&receiver, 50, 5_050, &mut pool).is_ok());
    assert!(sender.send_money(&receiver, 1, 101, &mut pool).is_ok());
    assert!(sender.send_money(&receiver, 0, 0, &mut pool).is_ok());
    assert_eq!(pool.len(), 3);
}

#[test]
fn queued_transfer_is_signed_over_its_content_hash() {
    let sender = Wallet::new(false);
    let receiver = Wallet::new(false);
    let mut pool: Vec<Transaction> = Vec::new();
    sender.send_money(&receiver, 7, 1_000, &mut pool).expect("covered");
    let tx = &pool[0];
    assert!(tx.is_signed());
    assert_eq!(tx.sender, sender.address());
    assert_eq!(tx.receiver, receiver.address());
    let content_hash: [u8; 32] = Sha256::digest(tx.canonical_bytes()).into();
    assert_eq!(tx.hash(), content_hash);
    let der = hex::decode(&tx.signature).expect("hex");
    let signature = Signature::from_der(der);
    assert!(signature.verify(&sender.public_key(), &content_hash));
    assert!(!signature.verify(&receiver.public_key(), &content_hash));
    let signer = hex::decode(&tx.sender).expect("hex");
    assert_eq!(signer, sender.public_key().to_vec());
}

#[test]
fn queued_transfers_keep_their_order() {
    let sender = wallet(1, false);
    let receiver = wallet(2, false);
    let mut pool = vec![Transaction::new("x", "y", 1, 1)];
    sender.send_money(&receiver, 3, 10_000, &mut pool).expect("covered");
    receiver.send_money(&sender, 4, 10_000, &mut pool).expect("covered");
    assert_eq!(pool.len(), 3);
    assert_eq!(pool[0].sender, "x");
    assert_eq!(pool[1].amount, 3);
    assert_eq!(pool[1].sender, ADDRESS_OF_ONE);
    assert_eq!(pool[2].amount, 4);
    assert_eq!(pool[2].sender, ADDRESS_OF_TWO);
}

#[test]
fn two_transfers_on_one_balance_both_go_through() {
    let sender = wallet(1, false);
    let receiver = wallet(2, false);
    let balance: u64 = 10_000;
    let mut pool: Vec<Transaction> = Vec::new();
    assert!(sender.send_money(&receiver, 60, balance, &mut pool).is_ok());
    assert!(sender.send_money(&receiver, 60, balance, &mut pool).is_ok());
    assert_eq!(pool.len(), 2);
    let spent: u64 = pool.iter().map(|tx| tx.amount * 100 + tx.fee).sum();
    assert!(spent > balance);
}

#[test]
fn miner_is_told_that_its_transfer_is_queued() {
    let miner = wallet(1, true);
    let receiver = wallet(2, false);
    let mut pool: Vec<Transaction> = Vec::new();
    let notice = miner.send_money(&receiver, 1, 101, &mut pool).expect("covered");
    assert_eq!(
        notice,
        Some(format!("Miner {} added transaction to mining pool", ADDRESS_OF_ONE))
    );
    assert_eq!(pool.len(), 1);
    assert!(miner.send_money(&receiver, 1, 100, &mut pool).is_err());
    assert_eq!(pool.len(), 1);
}

#[test]
fn sending_to_oneself_is_an_ordinary_transfer() {
    let w = wallet(1, false);
    let mut pool: Vec<Transaction> = Vec::new();
    w.send_money(&w, 1, 101, &mut pool).expect("covered");
    assert_eq!(pool[0].sender, pool[0].receiver);
}
