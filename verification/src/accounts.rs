//! What each operation works on.
//!
//! A context holds the records an operation reads and writes, as the host
//! found them at the addresses that [`crate::address`] derives for them. A
//! record that the operation creates is an `Option`: `None` while its address
//! is free, `Some` once it is allocated.

use crate::pubkey::Pubkey;
use crate::state::{MarketAccount, MarketState, SystemAccount, VaultAccount, VoteAccount};
use vstd::prelude::*;

verus! {

/// What the one-time creation of the platform vault works on.
#[derive(Clone, Copy, Debug, PartialEq, Eq)]
pub struct InitializeVault {
    /// The vault's place, at the address of `vault_address`: `None` until the
    /// vault is created.
    pub vault: Option<VaultAccount>,
    /// The caller, who becomes the platform authority.
    pub authority: Pubkey,
    /// The bump seed of the vault's address.
    pub vault_bump: u8,
}

/// What the creation of a market works on.
#[derive(Debug, PartialEq, Eq)]
pub struct CreateMarket {
    /// The platform vault.
    pub vault: VaultAccount,
    /// The market's place, at the address that `market_address` derives
    /// from the identifier to list: `None` while no market has this
    /// identifier.
    pub market: Option<MarketAccount>,
    /// The caller.
    pub authority: Pubkey,
    /// The bump seed of the market's address.
    pub market_bump: u8,
}

impl Clone for CreateMarket {
    fn clone(&self) -> (copy: CreateMarket)
        ensures
            copy == *self,
    {
        CreateMarket {
            vault: self.vault,
            market: match &self.market {
                Some(market) => Some(market.clone()),
                None => None,
            },
            authority: self.authority,
            market_bump: self.market_bump,
        }
    }
}

/// A market creation's context as a mathematical value.
pub struct CreateMarketState {
    pub vault: VaultAccount,
    pub market: Option<MarketState>,
    pub authority: Pubkey,
    pub market_bump: u8,
}

impl View for CreateMarket {
    type V = CreateMarketState;

    open spec fn view(&self) -> CreateMarketState {
        CreateMarketState {
            vault: self.vault,
            market: match self.market {
                Some(market) => Some(market@),
                None => None,
            },
            authority: self.authority,
            market_bump: self.market_bump,
        }
    }
}

/// What one vote works on.
#[derive(Debug, PartialEq, Eq)]
pub struct CastVote {
    /// The market voted on.
    pub market: MarketAccount,
    /// The address of that market, as `market_address` derives it from the
    /// market's identifier.
    pub market_key: Pubkey,
    /// The escrow that holds the market's stakes, at the address that
    /// `escrow_address` derives from the market's address.
    pub market_escrow: SystemAccount,
    /// The place of this voter's receipt for this market, at the address
    /// that `vote_address` derives from the market's address and the voter:
    /// `None` until the voter has voted.
    pub vote_account: Option<VoteAccount>,
    /// The voter and the value the voter holds.
    pub voter: SystemAccount,
    /// The bump seed of the receipt's address.
    pub vote_bump: u8,
}

impl Clone for CastVote {
    fn clone(&self) -> (copy: CastVote)
        ensures
            copy == *self,
    {
        CastVote {
            market: self.market.clone(),
            market_key: self.market_key,
            market_escrow: self.market_escrow,
            vote_account: self.vote_account,
            voter: self.voter,
            vote_bump: self.vote_bump,
        }
    }
}

/// A vote's context as a mathematical value.
pub struct CastVoteState {
    pub market: MarketState,
    pub market_key: Pubkey,
    pub market_escrow: SystemAccount,
    pub vote_account: Option<VoteAccount>,
    pub voter: SystemAccount,
    pub vote_bump: u8,
}

impl View for CastVote {
    type V = CastVoteState;

    open spec fn view(&self) -> CastVoteState {
        CastVoteState {
            market: self.market@,
            market_key: self.market_key,
            market_escrow: self.market_escrow,
            vote_account: self.vote_account,
            voter: self.voter,
            vote_bump: self.vote_bump,
        }
    }
}

/// What the settlement of a market works on.
#[derive(Debug, PartialEq, Eq)]
pub struct SettleMarket {
    /// The platform vault.
    pub vault: VaultAccount,
    /// The market to settle.
    pub market: MarketAccount,
    /// The caller.
    pub authority: Pubkey,
}

impl Clone for SettleMarket {
    fn clone(&self) -> (copy: SettleMarket)
        ensures
            copy == *self,
    {
        SettleMarket {
            vault: self.vault,
            market: self.market.clone(),
            authority: self.authority,
        }
    }
}

/// A settlement's context as a mathematical value.
pub struct SettleMarketState {
    pub vault: VaultAccount,
    pub market: MarketState,
    pub authority: Pubkey,
}

impl View for SettleMarket {
    type V = SettleMarketState;

    open spec fn view(&self) -> SettleMarketState {
        SettleMarketState { vault: self.vault, market: self.market@, authority: self.authority }
    }
}

} // verus!
