//! The steps of authorizing a transfer that need no key: the affordability
//! gate, queueing the signed transfer, and the notice a miner gets.

use crate::fees::{affordable, can_afford, fee_for, fee_of};
use crate::signature::Signature;
use crate::transaction::{Transaction, TransactionView};
use vstd::prelude::*;
use vstd::string::*;

verus! {

/// The sender's balance does not cover amount and fee.
#[derive(Debug)]
pub struct InsufficientFunds {
    /// The address that lacks the funds.
    pub address: String,
}

/// The text of the refusal for `address`.
pub open spec fn refusal_text(address: Seq<char>) -> Seq<char> {
    "Address: "@ + address + " does not have enough funds"@
}

/// The line that tells a miner that its own transfer is queued.
pub open spec fn notice_text(address: Seq<char>) -> Seq<char> {
    "Miner "@ + address + " added transaction to mining pool"@
}

/// The transfer of `amount` coins from `sender` to `receiver` before anyone
/// signed it: the fee is one percent, the signature empty.
pub open spec fn unsigned_transfer(sender: Seq<char>, receiver: Seq<char>, amount: u64)
    -> TransactionView {
    TransactionView {
        sender,
        receiver,
        amount,
        fee: fee_of(amount as nat) as u64,
        signature: Seq::empty(),
    }
}

impl Clone for InsufficientFunds {
    fn clone(&self) -> (copy: InsufficientFunds)
        ensures
            copy.address@ == self.address@,
    {
        InsufficientFunds { address: self.address.clone() }
    }
}

impl InsufficientFunds {
    /// The refusal as a line of text.
    pub fn message(&self) -> (text: String)
        ensures
            text@ == refusal_text(self.address@),
    {
        String::from_str("Address: ").concat(self.address.as_str()).concat(
            " does not have enough funds",
        )
    }
}

/// The affordability gate. With `balance` hundredths on the sender's account,
/// a transfer of `amount` coins goes ahead exactly when the balance covers
/// amount and fee; the unsigned transfer is built only then. Otherwise the
/// refusal names the sender and nothing is built.
pub fn authorize(sender: &str, receiver: &str, amount: u64, balance: u64) -> (outcome: Result<
    Transaction,
    InsufficientFunds,
>)
    ensures
        outcome.is_ok() == affordable(balance as nat, amount as nat),
        outcome matches Ok(tx) ==> tx@ == unsigned_transfer(sender@, receiver@, amount),
        outcome matches Err(refusal) ==> refusal.address@ == sender@,
{
    if !can_afford(balance, amount) {
        return Err(InsufficientFunds { address: String::from_str(sender) });
    }
    Ok(Transaction::new(sender, receiver, amount, fee_for(amount)))
}

/// Attaches `signature` to `tx` and puts it at the end of `mempool`. What was
/// queued before stays as it was.
pub fn submit(tx: Transaction, signature: &Signature, mempool: &mut Vec<Transaction>)
    ensures
        final(mempool)@.len() == old(mempool)@.len() + 1,
        final(mempool)@.drop_last() == old(mempool)@,
        final(mempool)@.last()@ == tx@.with_signature(signature@),
{
    let mut signed = tx;
    signed.attach_signature(signature);
    mempool.push(signed);
    assert(final(mempool)@.drop_last() =~= old(mempool)@);
}

/// The advisory line for a wallet that has queued a transfer: a miner is told
/// that its transfer waits in the pool, anyone else is told nothing.
pub fn miner_notice(is_miner: bool, address: &str) -> (notice: Option<String>)
    ensures
        notice.is_some() == is_miner,
        notice matches Some(line) ==> line@ == notice_text(address@),
{
    if is_miner {
        Some(String::from_str("Miner ").concat(address).concat(" added transaction to mining pool"))
    } else {
        None
    }
}

} // verus!
