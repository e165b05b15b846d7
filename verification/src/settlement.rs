//! Settlement: the authority closes the escrow and the vault pays the winners.

use crate::error::EscrowError;
use crate::escrow::Escrow;
use crate::pubkey::Pubkey;
use crate::shares::{
    is_whole, lemma_residual_bounds, lemma_share_within_total, lemma_totals_of_prefix,
    lemma_totals_step, paid_total, payout_of, payouts, share_total,
};
use crate::token::{total_held, transfer, TokenAccount};
use vstd::prelude::*;

verus! {

/// What a settlement works on.
#[derive(Clone, Debug, PartialEq, Eq)]
pub struct Close {
    /// The escrow's record.
    pub escrow: Escrow,
    /// The escrow's vault.
    pub escrow_token_account: TokenAccount,
    /// The principal who asks for the settlement.
    pub authority: Pubkey,
    /// The holdings that the winners are paid into, in the winners' order.
    pub winner_token_accounts: Vec<TokenAccount>,
}

/// The holdings `destinations` after the payouts of `shares` from `balance`:
/// each of the first `shares.len()` has received the payout of the share at
/// its position, and the others are as they were.
pub open spec fn paid_out(destinations: Seq<TokenAccount>, balance: nat, shares: Seq<u8>) -> Seq<
    TokenAccount,
> {
    Seq::new(
        destinations.len(),
        |i: int|
            if i < shares.len() {
                destinations[i].credited(payout_of(balance, shares[i] as nat))
            } else {
                destinations[i]
            },
    )
}

impl Close {
    /// The vault's balance.
    pub open spec fn balance(self) -> nat {
        self.escrow_token_account.amount as nat
    }

    /// Whether the payouts of `shares` can be made: the vault is of the
    /// escrow's asset kind, and for each share there is a holding of that
    /// kind with room for the share's payout.
    pub open spec fn can_pay(self, shares: Seq<u8>) -> bool {
        &&& self.escrow_token_account.mint == self.escrow.token_mint
        &&& shares.len() <= self.winner_token_accounts@.len()
        &&& forall|i: int|
            0 <= i < shares.len() ==> (#[trigger] self.winner_token_accounts@[i]).can_receive(
                self.escrow.token_mint,
                payout_of(self.balance(), shares[i] as nat),
            )
    }

    /// What a settlement comes to: the error that refuses it, or nothing
    /// where it is made. The caller is looked at first, then the shares, then
    /// the holdings.
    pub open spec fn outcome(self, winners: Seq<Pubkey>, shares: Seq<u8>) -> Result<
        (),
        EscrowError,
    > {
        if self.authority != self.escrow.authority {
            Err(EscrowError::Unauthorized)
        } else if winners.len() != shares.len() || share_total(shares) != 100 {
            Err(EscrowError::InvalidShares)
        } else if !self.can_pay(shares) {
            Err(EscrowError::InvalidHolding)
        } else {
            Ok(())
        }
    }
}

/// A settlement makes no value and loses none: what the holdings have after
/// the payouts is what they had before and the payouts.
pub proof fn lemma_paid_out_total(
    destinations: Seq<TokenAccount>,
    mint: Pubkey,
    balance: nat,
    shares: Seq<u8>,
)
    requires
        shares.len() <= destinations.len(),
        forall|i: int|
            0 <= i < shares.len() ==> (#[trigger] destinations[i]).can_receive(
                mint,
                payout_of(balance, shares[i] as nat),
            ),
    ensures
        total_held(paid_out(destinations, balance, shares)) == total_held(destinations)
            + paid_total(balance, shares),
    decreases destinations.len(),
{
    let after = paid_out(destinations, balance, shares);
    if destinations.len() == 0 {
        assert(shares.len() == 0);
    } else if shares.len() == destinations.len() {
        let last = destinations.len() - 1;
        assert(destinations[last].can_receive(mint, payout_of(balance, shares[last] as nat)));
        assert(after.drop_last() =~= paid_out(
            destinations.drop_last(),
            balance,
            shares.drop_last(),
        ));
        lemma_paid_out_total(destinations.drop_last(), mint, balance, shares.drop_last());
    } else {
        assert(after.drop_last() =~= paid_out(destinations.drop_last(), balance, shares));
        lemma_paid_out_total(destinations.drop_last(), mint, balance, shares);
    }
}

/// Decides a settlement without making it: the amounts to pay, one for each
/// winner and in the winners' order, or the error that refuses the
/// settlement.
///
/// The call fails with `Unauthorized` unless the caller is the escrow's
/// authority, whatever the shares are; then with `InvalidShares` unless there
/// are as many shares as winners and the shares add up to 100; then with
/// `InvalidHolding` unless every payout can be made (see `Close::can_pay`).
/// Each amount is the share of the vault's balance at its position, rounded
/// down, so that the amounts together never exceed the balance.
pub fn payout_plan(ctx: &Close, winners: &[Pubkey], shares: &[u8]) -> (plan: Result<
    Vec<u64>,
    EscrowError,
>)
    ensures
        plan is Ok <==> ctx.outcome(winners@, shares@) is Ok,
        plan matches Err(refusal) ==> ctx.outcome(winners@, shares@) == Err::<(), EscrowError>(
            refusal,
        ),
        plan matches Ok(amounts) ==> {
            &&& amounts@.len() == shares@.len()
            &&& forall|i: int|
                0 <= i < shares@.len() ==> amounts@[i] == payout_of(
                    ctx.balance(),
                    shares@[i] as nat,
                )
            &&& paid_total(ctx.balance(), shares@) <= ctx.balance()
        },
{
    if !(ctx.authority == ctx.escrow.authority) {
        return Err(EscrowError::Unauthorized);
    }
    if winners.len() != shares.len() || !is_whole(shares) {
        return Err(EscrowError::InvalidShares);
    }
    let count = shares.len();
    let balance = ctx.escrow_token_account.amount;
    proof {
        assert forall|i: int| 0 <= i < shares@.len() implies shares@[i] <= 100 by {
            lemma_share_within_total(shares@, i);
        }
        lemma_residual_bounds(balance as nat, shares@);
    }
    let amounts = payouts(balance, shares);
    if !(ctx.escrow_token_account.mint == ctx.escrow.token_mint) || ctx.winner_token_accounts.len()
        < count {
        return Err(EscrowError::InvalidHolding);
    }
    let mut i: usize = 0;
    while i < count
        invariant
            i <= count,
            count == shares@.len(),
            count <= ctx.winner_token_accounts@.len(),
            ctx.authority == ctx.escrow.authority,
            winners@.len() == shares@.len(),
            share_total(shares@) == 100,
            ctx.escrow_token_account.mint == ctx.escrow.token_mint,
            balance == ctx.escrow_token_account.amount,
            amounts@.len() == count,
            forall|j: int|
                0 <= j < count ==> amounts@[j] == payout_of(balance as nat, shares@[j] as nat),
            forall|j: int|
                0 <= j < i ==> (#[trigger] ctx.winner_token_accounts@[j]).can_receive(
                    ctx.escrow.token_mint,
                    payout_of(balance as nat, shares@[j] as nat),
                ),
        decreases count - i,
    {
        let destination = &ctx.winner_token_accounts[i];
        if !(destination.mint == ctx.escrow.token_mint) || amounts[i] > u64::MAX
            - destination.amount {
            return Err(EscrowError::InvalidHolding);
        }
        i += 1;
    }
    Ok(amounts)
}

/// Settles the escrow: pays each winner the share of the vault's balance that
/// stands at the winner's position in `shares`, rounded down, into the holding
/// at that position.
///
/// The call fails as `payout_plan` does, and on the same inputs: with
/// `Unauthorized` unless the caller is the escrow's authority, whatever the
/// shares are; then with `InvalidShares` unless there are as many shares as
/// winners and the shares add up to 100; then with `InvalidHolding` unless
/// every payout can be made. The payouts are all taken from the balance that
/// the vault has when the call begins. Either all of them are made or none: a
/// call that fails changes nothing. After a settlement the vault holds what
/// the rounding left, which is less than one unit for each winner. The record
/// is never changed, and the holdings together hold what they held before.
pub fn close(ctx: &mut Close, winners: Vec<Pubkey>, shares: Vec<u8>) -> (settled: Result<
    (),
    EscrowError,
>)
    ensures
        settled == old(ctx).outcome(winners@, shares@),
        old(ctx).authority != old(ctx).escrow.authority ==> settled == Err::<(), EscrowError>(
            EscrowError::Unauthorized,
        ),
        old(ctx).authority == old(ctx).escrow.authority && share_total(shares@) != 100
            ==> settled == Err::<(), EscrowError>(EscrowError::InvalidShares),
        !old(ctx).can_pay(shares@) ==> settled is Err,
        settled is Err ==> *final(ctx) == *old(ctx),
        settled is Ok ==> {
            &&& old(ctx).authority == old(ctx).escrow.authority
            &&& winners@.len() == shares@.len()
            &&& share_total(shares@) == 100
            &&& final(ctx).escrow_token_account == old(ctx).escrow_token_account.debited(
                paid_total(old(ctx).balance(), shares@),
            )
            &&& final(ctx).winner_token_accounts@ == paid_out(
                old(ctx).winner_token_accounts@,
                old(ctx).balance(),
                shares@,
            )
            &&& paid_total(old(ctx).balance(), shares@) <= old(ctx).balance()
            &&& final(ctx).escrow_token_account.amount <= shares@.len() - 1
        },
        final(ctx).escrow == old(ctx).escrow,
        final(ctx).authority == old(ctx).authority,
        final(ctx).escrow_token_account.amount + total_held(final(ctx).winner_token_accounts@)
            == old(ctx).escrow_token_account.amount + total_held(old(ctx).winner_token_accounts@),
{
    let amounts = payout_plan(ctx, winners.as_slice(), shares.as_slice())?;
    let count = shares.len();
    let ghost balance = ctx.balance();
    proof {
        lemma_residual_bounds(balance, shares@);
    }
    let mut i: usize = 0;
    while i < count
        invariant
            i <= count,
            count == shares@.len(),
            old(ctx).outcome(winners@, shares@) is Ok,
            balance == old(ctx).balance(),
            balance - paid_total(balance, shares@) <= count - 1,
            paid_total(balance, shares@) <= balance,
            amounts@.len() == count,
            forall|j: int| 0 <= j < count ==> amounts@[j] == payout_of(balance, shares@[j] as nat),
            ctx.escrow == old(ctx).escrow,
            ctx.authority == old(ctx).authority,
            ctx.escrow_token_account == old(ctx).escrow_token_account.debited(
                paid_total(balance, shares@.take(i as int)),
            ),
            ctx.winner_token_accounts@ == paid_out(
                old(ctx).winner_token_accounts@,
                balance,
                shares@.take(i as int),
            ),
        decreases count - i,
    {
        proof {
            lemma_totals_step(balance, shares@, i as int);
            lemma_totals_of_prefix(balance, shares@, i + 1);
            assert(old(ctx).winner_token_accounts@[i as int].can_receive(
                ctx.escrow.token_mint,
                payout_of(balance, shares@[i as int] as nat),
            ));
        }
        transfer(&mut ctx.escrow_token_account, &mut ctx.winner_token_accounts[i], amounts[i])?;
        proof {
            assert(ctx.winner_token_accounts@ =~= paid_out(
                old(ctx).winner_token_accounts@,
                balance,
                shares@.take(i + 1),
            ));
        }
        i += 1;
    }
    proof {
        assert(shares@.take(i as int) =~= shares@);
        lemma_paid_out_total(
            old(ctx).winner_token_accounts@,
            ctx.escrow.token_mint,
            balance,
            shares@,
        );
    }
    Ok(())
}

} // verus!
