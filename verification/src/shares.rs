//! Percentage shares and the payouts they stand for.
//!
//! A share is a whole percentage of the vault's balance. A payout is the share
//! of the balance rounded down, so the payouts of a plan whose shares add up to
//! `FULL_SHARE` never exceed the balance, and what they leave behind is
//! smaller than the number of shares.

use vstd::prelude::*;

verus! {

/// What the shares of one settlement must add up to.
pub const FULL_SHARE: u8 = 100;

/// The sum of `shares`.
pub open spec fn share_total(shares: Seq<u8>) -> nat
    decreases shares.len(),
{
    if shares.len() == 0 {
        0
    } else {
        share_total(shares.drop_last()) + shares.last() as nat
    }
}

/// The payout of one share: `share` percent of `balance`, rounded down.
pub open spec fn payout_of(balance: nat, share: nat) -> nat {
    balance * share / 100
}

/// The sum of the payouts of `shares`.
pub open spec fn paid_total(balance: nat, shares: Seq<u8>) -> nat
    decreases shares.len(),
{
    if shares.len() == 0 {
        0
    } else {
        paid_total(balance, shares.drop_last()) + payout_of(balance, shares.last() as nat)
    }
}

/// What the payouts of `shares` leave of `balance`.
pub open spec fn residual_of(balance: nat, shares: Seq<u8>) -> int {
    balance - paid_total(balance, shares)
}

/// A payout is the largest amount whose hundredfold does not exceed the
/// balance times the share.
pub proof fn lemma_payout_is_floor(balance: nat, share: nat)
    ensures
        100 * payout_of(balance, share) <= balance * share,
        balance * share < 100 * payout_of(balance, share) + 100,
{
    let x = (balance * share) as int;
    vstd::arithmetic::div_mod::lemma_fundamental_div_mod(x, 100);
    vstd::arithmetic::div_mod::lemma_mod_bound(x, 100);
}

/// A share of at most the whole pays out at most the balance.
pub proof fn lemma_payout_within_balance(balance: nat, share: nat)
    requires
        share <= 100,
    ensures
        payout_of(balance, share) <= balance,
{
    lemma_payout_is_floor(balance, share);
    assert(balance * share <= balance * 100) by (nonlinear_arith)
        requires
            share <= 100,
    ;
}

/// The payouts together lose less than one unit for each share: a hundred
/// times their sum lies within `99 * shares.len()` below the balance times the
/// sum of the shares.
pub proof fn lemma_paid_total_bounds(balance: nat, shares: Seq<u8>)
    ensures
        100 * paid_total(balance, shares) <= balance * share_total(shares),
        balance * share_total(shares) <= 100 * paid_total(balance, shares) + 99 * shares.len(),
    decreases shares.len(),
{
    if shares.len() == 0 {
        assert(balance * 0 == 0) by (nonlinear_arith);
    } else {
        let rest = shares.drop_last();
        let last = shares.last() as nat;
        lemma_paid_total_bounds(balance, rest);
        lemma_payout_is_floor(balance, last);
        assert(balance * (share_total(rest) + last) == balance * share_total(rest) + balance
            * last) by (nonlinear_arith);
    }
}

/// Shares that add up to the whole never pay out more than the balance, and
/// leave less than one unit for each share behind.
pub proof fn lemma_residual_bounds(balance: nat, shares: Seq<u8>)
    requires
        share_total(shares) == 100,
    ensures
        paid_total(balance, shares) <= balance,
        0 <= residual_of(balance, shares),
        shares.len() >= 1,
        residual_of(balance, shares) <= shares.len() - 1,
{
    lemma_paid_total_bounds(balance, shares);
    if shares.len() == 0 {
        assert(share_total(shares) == 0);
    }
}

/// The first `n + 1` shares add up to the first `n` and the next one, and so
/// do their payouts.
pub proof fn lemma_totals_step(balance: nat, shares: Seq<u8>, n: int)
    requires
        0 <= n < shares.len(),
    ensures
        share_total(shares.take(n + 1)) == share_total(shares.take(n)) + shares[n],
        paid_total(balance, shares.take(n + 1)) == paid_total(balance, shares.take(n)) + payout_of(
            balance,
            shares[n] as nat,
        ),
{
    assert(shares.take(n + 1).drop_last() =~= shares.take(n));
}

/// The first `n` shares add up to no more than all of them, and so do their
/// payouts.
pub proof fn lemma_totals_of_prefix(balance: nat, shares: Seq<u8>, n: int)
    requires
        0 <= n <= shares.len(),
    ensures
        share_total(shares.take(n)) <= share_total(shares),
        paid_total(balance, shares.take(n)) <= paid_total(balance, shares),
    decreases shares.len() - n,
{
    if n == shares.len() {
        assert(shares.take(n) =~= shares);
    } else {
        lemma_totals_step(balance, shares, n);
        lemma_totals_of_prefix(balance, shares, n + 1);
    }
}

/// Each share is at most the sum of all of them.
pub proof fn lemma_share_within_total(shares: Seq<u8>, i: int)
    requires
        0 <= i < shares.len(),
    ensures
        shares[i] <= share_total(shares),
{
    lemma_totals_step(0, shares, i);
    lemma_totals_of_prefix(0, shares, i + 1);
}

/// `share` percent of `balance`, rounded down.
pub fn payout(balance: u64, share: u8) -> (amount: u64)
    requires
        share <= 100,
    ensures
        amount == payout_of(balance as nat, share as nat),
{
    proof {
        lemma_payout_within_balance(balance as nat, share as nat);
        assert(balance * share <= u64::MAX * 100) by (nonlinear_arith)
            requires
                balance <= u64::MAX,
                share <= 100,
        ;
    }
    let product: u128 = (balance as u128) * (share as u128);
    (product / 100) as u64
}

/// Whether `shares` add up to the whole, `FULL_SHARE`.
pub fn is_whole(shares: &[u8]) -> (whole: bool)
    ensures
        whole == (share_total(shares@) == 100),
{
    let mut total: u8 = 0;
    let mut i: usize = 0;
    while i < shares.len()
        invariant
            i <= shares.len(),
            total == share_total(shares@.take(i as int)),
            total <= 100,
        decreases shares.len() - i,
    {
        proof {
            lemma_totals_step(0, shares@, i as int);
            lemma_totals_of_prefix(0, shares@, i + 1);
        }
        if shares[i] > FULL_SHARE - total {
            return false;
        }
        total = total + shares[i];
        i += 1;
    }
    proof {
        assert(shares@.take(i as int) =~= shares@);
    }
    total == FULL_SHARE
}

/// The payouts of `shares` from `balance`, one for each share and in the same
/// order.
pub fn payouts(balance: u64, shares: &[u8]) -> (amounts: Vec<u64>)
    requires
        forall|i: int| 0 <= i < shares@.len() ==> shares@[i] <= 100,
    ensures
        amounts@.len() == shares@.len(),
        forall|i: int|
            0 <= i < shares@.len() ==> amounts@[i] == payout_of(balance as nat, shares@[i] as nat),
{
    let mut amounts: Vec<u64> = Vec::new();
    let mut i: usize = 0;
    while i < shares.len()
        invariant
            i <= shares.len(),
            amounts@.len() == i,
            forall|j: int| 0 <= j < shares@.len() ==> shares@[j] <= 100,
            forall|j: int| 0 <= j < i ==> amounts@[j] == payout_of(balance as nat, shares@[j] as nat),
        decreases shares.len() - i,
    {
        amounts.push(payout(balance, shares[i]));
        i += 1;
    }
    amounts
}

} // verus!
