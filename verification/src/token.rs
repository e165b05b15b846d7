//! Holdings of an asset, and the transfer of an amount from one to another.

use crate::error::EscrowError;
use crate::pubkey::Pubkey;
use vstd::prelude::*;

verus! {

/// A holding: an amount of one kind of asset, in the smallest unit of that
/// asset.
#[derive(Clone, Copy, Debug, PartialEq, Eq)]
pub struct TokenAccount {
    /// The kind of asset held.
    pub mint: Pubkey,
    /// How much of it is held.
    pub amount: u64,
}

impl TokenAccount {
    /// The holding after `amount` was taken out of it.
    pub open spec fn debited(self, amount: nat) -> TokenAccount
        recommends
            amount <= self.amount,
    {
        TokenAccount { mint: self.mint, amount: (self.amount - amount) as u64 }
    }

    /// The holding after `amount` was paid into it.
    pub open spec fn credited(self, amount: nat) -> TokenAccount
        recommends
            self.amount + amount <= u64::MAX,
    {
        TokenAccount { mint: self.mint, amount: (self.amount + amount) as u64 }
    }

    /// Whether `amount` can be paid into the holding from one of the asset
    /// kind `mint`: the holding is of that kind, and has room for the amount.
    pub open spec fn can_receive(self, mint: Pubkey, amount: nat) -> bool {
        self.mint == mint && self.amount + amount <= u64::MAX
    }

    /// An empty holding of the asset kind `mint`.
    pub fn new(mint: Pubkey) -> (holding: TokenAccount)
        ensures
            holding == (TokenAccount { mint, amount: 0 }),
    {
        TokenAccount { mint, amount: 0 }
    }
}

/// What `holdings` hold together.
pub open spec fn total_held(holdings: Seq<TokenAccount>) -> nat
    decreases holdings.len(),
{
    if holdings.len() == 0 {
        0
    } else {
        total_held(holdings.drop_last()) + holdings.last().amount as nat
    }
}

/// What a transfer of `amount` from `from` to `to` comes to: the error that
/// refuses it, or nothing where it goes through.
pub open spec fn transfer_outcome(from: TokenAccount, to: TokenAccount, amount: u64) -> Result<
    (),
    EscrowError,
> {
    if from.amount < amount {
        Err(EscrowError::InsufficientBalance)
    } else if !to.can_receive(from.mint, amount as nat) {
        Err(EscrowError::InvalidHolding)
    } else {
        Ok(())
    }
}

/// Moves `amount` from `from` to `to`.
///
/// The transfer is refused with `InsufficientBalance` where `from` holds less
/// than `amount`, and with `InvalidHolding` where `to` is of another asset kind
/// than `from` or has no room for `amount`. A refused transfer changes neither
/// holding. One that goes through takes `amount` out of `from` and pays it
/// into `to`, so that the two together hold what they held before.
pub fn transfer(from: &mut TokenAccount, to: &mut TokenAccount, amount: u64) -> (moved: Result<
    (),
    EscrowError,
>)
    ensures
        moved == transfer_outcome(*old(from), *old(to), amount),
        moved is Err ==> *final(from) == *old(from) && *final(to) == *old(to),
        moved is Ok ==> *final(from) == old(from).debited(amount as nat) && *final(to) == old(
            to,
        ).credited(amount as nat),
        final(from).amount + final(to).amount == old(from).amount + old(to).amount,
{
    if from.amount < amount {
        return Err(EscrowError::InsufficientBalance);
    }
    if !(to.mint == from.mint) || amount > u64::MAX - to.amount {
        return Err(EscrowError::InvalidHolding);
    }
    from.amount = from.amount - amount;
    to.amount = to.amount + amount;
    Ok(())
}

} // verus!
