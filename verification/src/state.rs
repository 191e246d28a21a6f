//! Records kept for the platform, for each market and for each vote.

use crate::pubkey::Pubkey;
use vstd::prelude::*;

verus! {

/// The most characters a market's question may have.
pub const MAX_QUESTION_LEN: usize = 200;

/// The most characters a market's description may have.
pub const MAX_DESCRIPTION_LEN: usize = 500;

/// The most characters a market's identifier may have.
pub const MAX_MARKET_ID_LEN: usize = 64;

/// The side a voter takes on a market's question.
#[derive(Clone, Copy, Debug, PartialEq, Eq, Structural)]
pub enum VoteDirection {
    Yes,
    No,
}

/// The resolution of a market. It starts `Pending` and leaves that state once.
#[derive(Clone, Copy, Debug, PartialEq, Eq, Structural)]
pub enum MarketOutcome {
    Pending,
    Yes,
    No,
}

/// The platform's single registry: who administers it and how many markets
/// it has listed.
#[derive(Clone, Copy, Debug, PartialEq, Eq)]
pub struct VaultAccount {
    pub authority: Pubkey,
    pub total_markets: u64,
    pub bump: u8,
}

impl VaultAccount {
    /// The storage a vault record takes, in bytes.
    pub const SIZE: usize = 8 + 32 + 8 + 1;
}

/// One market: its question, its tallies, its pooled stake and its outcome.
#[derive(Debug, PartialEq, Eq)]
pub struct MarketAccount {
    pub market_id: String,
    pub authority: Pubkey,
    pub question: String,
    pub description: String,
    pub yes_count: u64,
    pub no_count: u64,
    pub total_pool: u64,
    pub end_timestamp: i64,
    pub outcome: MarketOutcome,
    pub created_at: i64,
    pub bump: u8,
}

impl Clone for MarketAccount {
    fn clone(&self) -> (copy: MarketAccount)
        ensures
            copy == *self,
    {
        MarketAccount {
            market_id: self.market_id.clone(),
            authority: self.authority,
            question: self.question.clone(),
            description: self.description.clone(),
            yes_count: self.yes_count,
            no_count: self.no_count,
            total_pool: self.total_pool,
            end_timestamp: self.end_timestamp,
            outcome: self.outcome,
            created_at: self.created_at,
            bump: self.bump,
        }
    }
}

impl MarketAccount {
    /// The storage a market record takes, in bytes, with room for an
    /// identifier of 64, a question of 200 and a description of 500 bytes.
    pub const SIZE: usize = 8 + (4 + 64) + 32 + (4 + 200) + (4 + 500) + 8 + 8 + 8 + 8 + 1 + 8 + 1;
}

/// A market as a mathematical value: texts as sequences of characters,
/// tallies and pool as natural numbers.
pub struct MarketState {
    pub market_id: Seq<char>,
    pub authority: Pubkey,
    pub question: Seq<char>,
    pub description: Seq<char>,
    pub yes_count: nat,
    pub no_count: nat,
    pub total_pool: nat,
    pub end_timestamp: int,
    pub outcome: MarketOutcome,
    pub created_at: int,
    pub bump: u8,
}

impl View for MarketAccount {
    type V = MarketState;

    open spec fn view(&self) -> MarketState {
        MarketState {
            market_id: self.market_id@,
            authority: self.authority,
            question: self.question@,
            description: self.description@,
            yes_count: self.yes_count as nat,
            no_count: self.no_count as nat,
            total_pool: self.total_pool as nat,
            end_timestamp: self.end_timestamp as int,
            outcome: self.outcome,
            created_at: self.created_at as int,
            bump: self.bump,
        }
    }
}

impl MarketState {
    /// A market as it stands right after its creation: no votes, nothing
    /// pooled, outcome pending.
    pub open spec fn opened(
        market_id: Seq<char>,
        authority: Pubkey,
        question: Seq<char>,
        description: Seq<char>,
        end_timestamp: int,
        created_at: int,
        bump: u8,
    ) -> MarketState {
        MarketState {
            market_id,
            authority,
            question,
            description,
            yes_count: 0,
            no_count: 0,
            total_pool: 0,
            end_timestamp,
            outcome: MarketOutcome::Pending,
            created_at,
            bump,
        }
    }

    /// Whether the market's texts keep to their bounds and its deadline lies
    /// after its creation. Every listed market is so, and stays so.
    pub open spec fn well_formed(self) -> bool {
        &&& self.market_id.len() <= MAX_MARKET_ID_LEN
        &&& self.question.len() <= MAX_QUESTION_LEN
        &&& self.description.len() <= MAX_DESCRIPTION_LEN
        &&& self.created_at < self.end_timestamp
    }

    /// The market after one more vote: the tally of the chosen side goes up
    /// by one and the pool by the stake.
    pub open spec fn with_vote(self, direction: VoteDirection, amount: nat) -> MarketState {
        match direction {
            VoteDirection::Yes => MarketState {
                yes_count: self.yes_count + 1,
                total_pool: self.total_pool + amount,
                ..self
            },
            VoteDirection::No => MarketState {
                no_count: self.no_count + 1,
                total_pool: self.total_pool + amount,
                ..self
            },
        }
    }

    /// The market with its outcome set.
    pub open spec fn with_outcome(self, outcome: MarketOutcome) -> MarketState {
        MarketState { outcome, ..self }
    }

    /// The tally of one side.
    pub open spec fn count(self, direction: VoteDirection) -> nat {
        match direction {
            VoteDirection::Yes => self.yes_count,
            VoteDirection::No => self.no_count,
        }
    }
}

/// The receipt of one vote: who staked how much on which side of which
/// market, and when.
#[derive(Clone, Copy, Debug, PartialEq, Eq)]
pub struct VoteAccount {
    pub voter: Pubkey,
    pub market: Pubkey,
    pub direction: VoteDirection,
    pub amount: u64,
    pub timestamp: i64,
    pub bump: u8,
}

impl VoteAccount {
    /// The storage a vote record takes, in bytes.
    pub const SIZE: usize = 8 + 32 + 32 + 1 + 8 + 8 + 1;
}

/// An account that holds native value and nothing else.
#[derive(Clone, Copy, Debug, PartialEq, Eq)]
pub struct SystemAccount {
    pub key: Pubkey,
    pub lamports: u64,
}

} // verus!
