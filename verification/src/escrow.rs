//! The escrow's record, and the opening of an escrow.

use crate::error::EscrowError;
use crate::pubkey::Pubkey;
use vstd::prelude::*;

verus! {

/// The record of one escrow. It is written once, when the escrow is opened,
/// and no operation changes it afterwards.
#[derive(Clone, Copy, Debug, PartialEq, Eq)]
pub struct Escrow {
    /// The one principal who may settle the escrow.
    pub authority: Pubkey,
    /// The one kind of asset that the escrow takes in and pays out.
    pub token_mint: Pubkey,
    /// The amount that each deposit must have, exactly.
    pub buy_in_amount: u64,
}

impl Escrow {
    /// The number of bytes that a stored record takes: two identities and
    /// one amount.
    pub const LEN: usize = 32 + 32 + 8;
}

/// What the opening of an escrow works on.
#[derive(Clone, Copy, Debug, PartialEq, Eq)]
pub struct Initialize {
    /// The place of the escrow's record: empty until the escrow is opened.
    pub escrow: Option<Escrow>,
    /// The principal who opens the escrow, and who alone may settle it.
    pub authority: Pubkey,
    /// The kind of asset that the escrow is to hold.
    pub token_mint: Pubkey,
}

impl Initialize {
    /// The record that the opening writes.
    pub open spec fn record(self, buy_in_amount: u64) -> Escrow {
        Escrow { authority: self.authority, token_mint: self.token_mint, buy_in_amount }
    }
}

/// Opens the escrow: writes its record, with the authority and the asset kind
/// of `ctx` and the buy-in `buy_in_amount`. No value moves.
///
/// Where a record already stands, the call fails with `AlreadyInitialized` and
/// leaves it as it is.
pub fn initialize(ctx: &mut Initialize, buy_in_amount: u64) -> (opened: Result<(), EscrowError>)
    ensures
        old(ctx).escrow is None <==> opened is Ok,
        old(ctx).escrow is Some <==> opened == Err::<(), EscrowError>(
            EscrowError::AlreadyInitialized,
        ),
        opened is Err ==> *final(ctx) == *old(ctx),
        opened is Ok ==> final(ctx).escrow == Some(old(ctx).record(buy_in_amount)),
        final(ctx).authority == old(ctx).authority,
        final(ctx).token_mint == old(ctx).token_mint,
{
    if ctx.escrow.is_some() {
        return Err(EscrowError::AlreadyInitialized);
    }
    ctx.escrow = Some(
        Escrow { authority: ctx.authority, token_mint: ctx.token_mint, buy_in_amount },
    );
    Ok(())
}

} // verus!
