//! A binary-outcome prediction market as a verified state machine.
//!
//! Participants stake value on a YES/NO question, the platform authority
//! settles the outcome, and every stake stays attributable to its voter.
//!
//! The four operations live in [`instructions`], the contexts they work on in
//! [`accounts`], the records in [`state`], and the derivation of storage
//! addresses in [`address`]. [`laws`] holds what is proved of every run.

pub mod accounts;
pub mod address;
pub mod error;
pub mod instructions;
pub mod laws;
pub mod pubkey;
pub mod state;

pub use accounts::{CastVote, CreateMarket, InitializeVault, SettleMarket};
pub use error::ReferandiumError;
pub use instructions::{create_market, initialize_vault, settle_market, vote};
pub use pubkey::Pubkey;
pub use state::{
    MarketAccount, MarketOutcome, SystemAccount, VaultAccount, VoteAccount, VoteDirection,
};
