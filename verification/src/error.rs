//! The ways in which an operation on an escrow fails.

use vstd::prelude::*;

verus! {

/// Why an operation on an escrow was refused. Every refusal is final: the
/// operation has changed nothing, and nothing is tried again.
#[derive(Clone, Copy, Debug, PartialEq, Eq, Structural)]
pub enum EscrowError {
    /// A deposit of another amount than the escrow's buy-in.
    InvalidAmount,
    /// A settlement asked for by another than the escrow's authority.
    Unauthorized,
    /// Shares that differ in number from the winners, or that do not add up
    /// to the whole.
    InvalidShares,
    /// A transfer of more than its source holds.
    InsufficientBalance,
    /// An escrow record already stands where a new one was to be made.
    AlreadyInitialized,
    /// A holding that a transfer would pay into or out of is missing, is of
    /// another asset kind than the escrow's, or cannot hold the amount.
    InvalidHolding,
}

impl EscrowError {
    /// The words that describe the error.
    pub open spec fn message_of(self) -> Seq<char> {
        match self {
            EscrowError::InvalidAmount => "Invalid amount"@,
            EscrowError::Unauthorized => "Unauthorized"@,
            EscrowError::InvalidShares => "Invalid shares"@,
            EscrowError::InsufficientBalance => "Insufficient balance"@,
            EscrowError::AlreadyInitialized => "Already initialized"@,
            EscrowError::InvalidHolding => "Invalid holding"@,
        }
    }

    /// The words that describe the error.
    pub fn message(&self) -> (words: &'static str)
        ensures
            words@ == self.message_of(),
    {
        match self {
            EscrowError::InvalidAmount => "Invalid amount",
            EscrowError::Unauthorized => "Unauthorized",
            EscrowError::InvalidShares => "Invalid shares",
            EscrowError::InsufficientBalance => "Insufficient balance",
            EscrowError::AlreadyInitialized => "Already initialized",
            EscrowError::InvalidHolding => "Invalid holding",
        }
    }
}

} // verus!
