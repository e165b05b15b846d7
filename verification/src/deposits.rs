//! Deposits: the one way in which value comes into an escrow's vault.

use crate::error::EscrowError;
use crate::escrow::Escrow;
use crate::token::{transfer, transfer_outcome, TokenAccount};
use vstd::prelude::*;

verus! {

/// What a deposit works on. Whose the paying holding is, and that they have
/// signed for the deposit, is for the host to have seen to.
#[derive(Clone, Copy, Debug, PartialEq, Eq)]
pub struct Deposit {
    /// The escrow's record.
    pub escrow: Escrow,
    /// The holding that pays the buy-in.
    pub player_token_account: TokenAccount,
    /// The escrow's vault.
    pub escrow_token_account: TokenAccount,
}

impl Deposit {
    /// Whether both holdings are of the asset kind that the escrow takes.
    pub open spec fn holds_escrow_asset(self) -> bool {
        &&& self.player_token_account.mint == self.escrow.token_mint
        &&& self.escrow_token_account.mint == self.escrow.token_mint
    }

    /// What a deposit of `amount` comes to: the error that refuses it, or
    /// nothing where it is accepted. The amount is looked at first, then the
    /// holdings' asset kind, then whether the transfer can be made.
    pub open spec fn outcome(self, amount: u64) -> Result<(), EscrowError> {
        if amount != self.escrow.buy_in_amount {
            Err(EscrowError::InvalidAmount)
        } else if !self.holds_escrow_asset() {
            Err(EscrowError::InvalidHolding)
        } else {
            transfer_outcome(self.player_token_account, self.escrow_token_account, amount)
        }
    }

    /// What a deposit of `amount` leaves: where it is accepted, the amount
    /// has moved from the paying holding into the vault; where it is refused,
    /// everything is as it was.
    pub open spec fn after(self, amount: u64) -> Deposit {
        if self.outcome(amount) is Ok {
            Deposit {
                escrow: self.escrow,
                player_token_account: self.player_token_account.debited(amount as nat),
                escrow_token_account: self.escrow_token_account.credited(amount as nat),
            }
        } else {
            self
        }
    }
}

/// Takes one buy-in into the vault.
///
/// The deposit is accepted only where `amount` is the escrow's buy-in exactly:
/// any other amount fails with `InvalidAmount`, whatever the holdings are.
/// A holding of another asset kind than the escrow's fails with
/// `InvalidHolding`, a paying holding with less than `amount` with
/// `InsufficientBalance`, and a vault without room for `amount` with
/// `InvalidHolding`. An accepted deposit moves `amount` from the paying holding
/// into the vault; a refused one changes nothing. The record is never changed,
/// and the vault never shrinks.
pub fn deposit(ctx: &mut Deposit, amount: u64) -> (accepted: Result<(), EscrowError>)
    ensures
        accepted == old(ctx).outcome(amount),
        *final(ctx) == old(ctx).after(amount),
        amount != old(ctx).escrow.buy_in_amount ==> accepted == Err::<(), EscrowError>(
            EscrowError::InvalidAmount,
        ) && *final(ctx) == *old(ctx),
        accepted is Err ==> *final(ctx) == *old(ctx),
        accepted is Ok ==> final(ctx).escrow_token_account.amount == old(
            ctx,
        ).escrow_token_account.amount + old(ctx).escrow.buy_in_amount,
        final(ctx).escrow == old(ctx).escrow,
        final(ctx).escrow_token_account.amount >= old(ctx).escrow_token_account.amount,
        final(ctx).player_token_account.amount + final(ctx).escrow_token_account.amount == old(
            ctx,
        ).player_token_account.amount + old(ctx).escrow_token_account.amount,
{
    if amount != ctx.escrow.buy_in_amount {
        return Err(EscrowError::InvalidAmount);
    }
    if !(ctx.player_token_account.mint == ctx.escrow.token_mint) || !(ctx.escrow_token_account.mint
        == ctx.escrow.token_mint) {
        return Err(EscrowError::InvalidHolding);
    }
    transfer(&mut ctx.player_token_account, &mut ctx.escrow_token_account, amount)
}

} // verus!
