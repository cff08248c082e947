//! Key identity and transfer authorization for an account-balance ledger.
//!
//! A [`wallet::Wallet`] owns a secp256k1 signing key, publishes the hex text
//! of its compressed public key as its address, and authorizes transfers by
//! signing the content of a [`transaction::Transaction`] before queueing it.

pub mod crypto;
pub mod encoding;
pub mod fees;
pub mod hex_text;
pub mod signature;
pub mod transaction;
pub mod transfer;
pub mod wallet;
