use ledger_wallet::signature::Signature;
use ledger_wallet::transaction::Transaction;
use sha2::{Digest, Sha256};

#[test]
fn new_transaction_is_unsigned() {
    let tx = Transaction::new("alice", "bob", 50, 50);
    assert_eq!(tx.sender, "alice");
    assert_eq!(tx.receiver, "bob");
    assert_eq!(tx.amount, 50);
    assert_eq!(tx.fee, 50);
    assert_eq!(tx.signature, "");
    assert!(!tx.is_signed());
}

#[test]
fn canonical_bytes_leave_the_signature_out() {
    let mut tx = Transaction::new("alice", "bob", 50, 50);
    let before = tx.canonical_bytes();
    tx.attach_signature(&Signature::from_der(vec![0x30, 0x06, 0x02, 0x01, 0x01, 0x02, 0x01, 0x01]));
    assert_eq!(tx.canonical_bytes(), before);
    assert_eq!(
        hex::encode(&before),
        "0000000000000005616c6963650000000000000003626f6200000000000000320000000000000032"
    );
}

#[test]
fn hash_is_sha256_of_the_canonical_bytes() {
    let tx = Transaction::new("alice", "bob", 50, 50);
    assert_eq!(
        hex::encode(tx.hash()),
        "bcff8c8e7bc07f87ba3f689231d9c0311335c35b4e92ed5c6de8544de7c20b8f"
    );
    let again: [u8; 32] = Sha256::digest(tx.canonical_bytes()).into();
    assert_eq!(tx.hash(), again);
}

#[test]
fn hash_differs_from_the_bytes_it_digests() {
    let tx = Transaction::new("", "", 0, 0);
    assert_eq!(tx.canonical_bytes().len(), 32);
    assert_ne!(tx.hash().to_vec(), tx.canonical_bytes());
}

#[test]
fn hash_follows_every_field() {
    let base = Transaction::new("alice", "bob", 50, 50).hash();
    assert_ne!(Transaction::new("alicf", "bob", 50, 50).hash(), base);
    assert_ne!(Transaction::new("alice", "bop", 50, 50).hash(), base);
    assert_ne!(Transaction::new("alice", "bob", 51, 50).hash(), base);
    assert_ne!(Transaction::new("alice", "bob", 50, 51).hash(), base);
}

#[test]
fn hash_ignores_the_signature() {
    let mut tx = Transaction::new("alice", "bob", 50, 50);
    let before = tx.hash();
    tx.attach_signature(&Signature::from_der(vec![1, 2, 3]));
    assert_eq!(tx.hash(), before);
}

#[test]
fn attached_signature_is_hex_text() {
    let mut tx = Transaction::new("alice", "bob", 50, 50);
    tx.attach_signature(&Signature::from_der(vec![1, 2, 3, 15, 16, 0xab, 0xff]));
    assert_eq!(tx.signature, "0102030f10abff");
    assert!(tx.is_signed());
    assert_eq!(tx.sender, "alice");
    assert_eq!(tx.receiver, "bob");
    assert_eq!(tx.amount, 50);
    assert_eq!(tx.fee, 50);
}

#[test]
fn clone_keeps_every_field() {
    let mut tx = Transaction::new("alice", "bob", 7, 7);
    tx.attach_signature(&Signature::from_der(vec![0xde, 0xad]));
    let copy = tx.clone();
    assert_eq!(copy.sender, tx.sender);
    assert_eq!(copy.receiver, tx.receiver);
    assert_eq!(copy.amount, tx.amount);
    assert_eq!(copy.fee, tx.fee);
    assert_eq!(copy.signature, "dead");
}
