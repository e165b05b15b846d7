//! A custodial escrow: one authority collects a fixed buy-in from each
//! participant into a pooled vault and later pays the pool out to the winners
//! it names, each by a whole percentage of the vault's balance.
//!
//! An escrow is opened with [`initialize`], takes buy-ins with [`deposit`] and
//! is settled with [`close`]. Each operation works on the plain values that it
//! is handed: the escrow's record and the holdings that take part. It either
//! goes through as a whole or fails and changes nothing.

pub mod deposits;
pub mod error;
pub mod escrow;
pub mod pubkey;
pub mod settlement;
pub mod shares;
pub mod token;

pub use deposits::{deposit, Deposit};
pub use error::EscrowError;
pub use escrow::{initialize, Escrow, Initialize};
pub use pubkey::Pubkey;
pub use settlement::{close, payout_plan, Close};
pub use shares::{is_whole, payout, payouts, FULL_SHARE};
pub use token::{transfer, TokenAccount};
