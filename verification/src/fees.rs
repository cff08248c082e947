//! The fee rule: every transfer costs one hundredth of its amount on top.
//!
//! Amounts are whole coins. Fees and balances are counted in hundredths of a
//! coin, so that one percent of any amount is an exact number.

use vstd::prelude::*;

verus! {

/// Hundredths that make up one coin.
pub const HUNDREDTHS_PER_COIN: u64 = 100;

/// The fee on one coin, in hundredths: one percent.
pub const FEE_PER_COIN: u64 = 1;

/// The fee on `amount` coins, in hundredths.
pub open spec fn fee_of(amount: nat) -> nat {
    amount * FEE_PER_COIN as nat
}

/// What a sender of `amount` coins must hold, in hundredths: the amount and
/// its fee.
pub open spec fn required_of(amount: nat) -> nat {
    amount * HUNDREDTHS_PER_COIN as nat + fee_of(amount)
}

/// A balance affords an amount when it covers amount and fee; equality is
/// enough.
pub open spec fn affordable(balance: nat, amount: nat) -> bool {
    balance >= required_of(amount)
}

/// The fee on `amount` coins, in hundredths.
pub fn fee_for(amount: u64) -> (fee: u64)
    ensures
        fee == fee_of(amount as nat),
{
    amount
}

/// What a sender of `amount` coins must hold, in hundredths.
pub fn required_funds(amount: u64) -> (required: u128)
    ensures
        required == required_of(amount as nat),
{
    let coins: u128 = amount as u128;
    let per_coin: u128 = HUNDREDTHS_PER_COIN as u128;
    assert(coins * per_coin == 100 * coins) by (nonlinear_arith)
        requires
            per_coin == 100,
    ;
    let whole: u128 = coins * per_coin;
    whole + (fee_for(amount) as u128)
}

/// Whether `balance` hundredths cover a transfer of `amount` coins.
pub fn can_afford(balance: u64, amount: u64) -> (yes: bool)
    ensures
        yes == affordable(balance as nat, amount as nat),
{
    balance as u128 >= required_funds(amount)
}

/// A balance of exactly amount plus fee affords the amount, and one
/// hundredth less does not.
pub proof fn lemma_exact_funds_suffice(amount: nat)
    ensures
        affordable(required_of(amount), amount),
        forall|balance: nat| balance < required_of(amount) ==> !affordable(balance, amount),
{
}

/// The requirement is a hundred and one hundredths per coin.
pub proof fn lemma_required_is_101_per_coin(amount: nat)
    ensures
        required_of(amount) == 101 * amount,
        fee_of(amount) * 100 == amount * HUNDREDTHS_PER_COIN as nat,
{
}

} // verus!
