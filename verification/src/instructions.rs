//! The four operations of the platform: creating the vault, listing a market,
//! casting a vote and settling a market.
//!
//! Each operation is described by two specification functions: which error
//! refuses it, if any, and what it leaves behind when it is accepted. A
//! refused operation changes nothing.

use crate::accounts::{
    CastVote, CastVoteState, CreateMarket, CreateMarketState, InitializeVault, SettleMarket,
    SettleMarketState,
};
use crate::error::ReferandiumError;
use crate::state::{
    MarketAccount, MarketOutcome, MarketState, SystemAccount, VaultAccount, VoteAccount,
    VoteDirection, MAX_DESCRIPTION_LEN, MAX_MARKET_ID_LEN, MAX_QUESTION_LEN,
};
use vstd::prelude::*;
use vstd::string::StrSliceExecFns;

verus! {

/// The error with which the creation of the vault is refused, or `None`
/// where it is accepted: the vault is created once.
pub open spec fn initialize_vault_rejection(ctx: InitializeVault) -> Option<ReferandiumError> {
    if ctx.vault is Some {
        Some(ReferandiumError::AlreadyExists)
    } else {
        None
    }
}

/// What the creation of the vault leaves behind: the caller is the
/// authority, and no market is listed.
pub open spec fn initialize_vault_effect(ctx: InitializeVault) -> InitializeVault {
    InitializeVault {
        vault: Some(
            VaultAccount { authority: ctx.authority, total_markets: 0, bump: ctx.vault_bump },
        ),
        authority: ctx.authority,
        vault_bump: ctx.vault_bump,
    }
}

/// Creates the platform vault, with the caller as its authority.
pub fn initialize_vault(ctx: &mut InitializeVault) -> (r: Result<(), ReferandiumError>)
    ensures
        match r {
            Ok(()) => {
                &&& initialize_vault_rejection(*old(ctx)) is None
                &&& *final(ctx) == initialize_vault_effect(*old(ctx))
            },
            Err(e) => {
                &&& initialize_vault_rejection(*old(ctx)) == Some(e)
                &&& *final(ctx) == *old(ctx)
            },
        },
{
    if ctx.vault.is_some() {
        return Err(ReferandiumError::AlreadyExists);
    }
    ctx.vault = Some(
        VaultAccount { authority: ctx.authority, total_markets: 0, bump: ctx.vault_bump },
    );
    Ok(())
}

/// The error with which the creation of a market is refused, or `None`
/// where it is accepted.
///
/// The checks come in this order: the caller is the platform authority, the
/// question, the description and the identifier are short enough, the
/// deadline lies strictly after `now`, no market has the identifier yet, and
/// the count of markets does not pass its bound.
pub open spec fn create_market_rejection(
    ctx: CreateMarketState,
    market_id: Seq<char>,
    question: Seq<char>,
    description: Seq<char>,
    end_timestamp: i64,
    now: i64,
) -> Option<ReferandiumError> {
    if ctx.vault.authority != ctx.authority {
        Some(ReferandiumError::Unauthorized)
    } else if question.len() > MAX_QUESTION_LEN {
        Some(ReferandiumError::QuestionTooLong)
    } else if description.len() > MAX_DESCRIPTION_LEN {
        Some(ReferandiumError::DescriptionTooLong)
    } else if market_id.len() > MAX_MARKET_ID_LEN {
        Some(ReferandiumError::MarketIdTooLong)
    } else if end_timestamp <= now {
        Some(ReferandiumError::EndDateInPast)
    } else if ctx.market is Some {
        Some(ReferandiumError::AlreadyExists)
    } else if ctx.vault.total_markets + 1 > u64::MAX {
        Some(ReferandiumError::ArithmeticOverflow)
    } else {
        None
    }
}

/// What the creation of a market leaves behind: the market stands at its
/// place with no votes, nothing pooled and a pending outcome, and the vault
/// counts one market more.
pub open spec fn create_market_effect(
    ctx: CreateMarketState,
    market_id: Seq<char>,
    question: Seq<char>,
    description: Seq<char>,
    end_timestamp: i64,
    now: i64,
) -> CreateMarketState {
    CreateMarketState {
        vault: VaultAccount {
            authority: ctx.vault.authority,
            total_markets: (ctx.vault.total_markets + 1) as u64,
            bump: ctx.vault.bump,
        },
        market: Some(
            MarketState::opened(
                market_id,
                ctx.authority,
                question,
                description,
                end_timestamp as int,
                now as int,
                ctx.market_bump,
            ),
        ),
        authority: ctx.authority,
        market_bump: ctx.market_bump,
    }
}

/// Lists a new market at time `now`.
///
/// The creation is refused exactly as `create_market_rejection` says, and a
/// refused creation changes nothing. An accepted one leaves what
/// `create_market_effect` says: in particular the market is well formed,
/// both tallies and the pool are zero and the outcome is pending.
pub fn create_market(
    ctx: &mut CreateMarket,
    market_id: String,
    question: String,
    description: String,
    end_timestamp: i64,
    now: i64,
) -> (r: Result<(), ReferandiumError>)
    ensures
        match r {
            Ok(()) => {
                &&& create_market_rejection(
                    old(ctx)@,
                    market_id@,
                    question@,
                    description@,
                    end_timestamp,
                    now,
                ) is None
                &&& final(ctx)@ == create_market_effect(
                    old(ctx)@,
                    market_id@,
                    question@,
                    description@,
                    end_timestamp,
                    now,
                )
                &&& final(ctx).market is Some
                &&& final(ctx).market->0@.well_formed()
                &&& final(ctx).market->0.yes_count == 0
                &&& final(ctx).market->0.no_count == 0
                &&& final(ctx).market->0.total_pool == 0
                &&& final(ctx).market->0.outcome == MarketOutcome::Pending
            },
            Err(e) => {
                &&& create_market_rejection(
                    old(ctx)@,
                    market_id@,
                    question@,
                    description@,
                    end_timestamp,
                    now,
                ) == Some(e)
                &&& *final(ctx) == *old(ctx)
            },
        },
{
    if ctx.vault.authority != ctx.authority {
        return Err(ReferandiumError::Unauthorized);
    }
    if question.as_str().unicode_len() > MAX_QUESTION_LEN {
        return Err(ReferandiumError::QuestionTooLong);
    }
    if description.as_str().unicode_len() > MAX_DESCRIPTION_LEN {
        return Err(ReferandiumError::DescriptionTooLong);
    }
    if market_id.as_str().unicode_len() > MAX_MARKET_ID_LEN {
        return Err(ReferandiumError::MarketIdTooLong);
    }
    if end_timestamp <= now {
        return Err(ReferandiumError::EndDateInPast);
    }
    if ctx.market.is_some() {
        return Err(ReferandiumError::AlreadyExists);
    }
    let listed: u64 = match ctx.vault.total_markets.checked_add(1) {
        Some(sum) => sum,
        None => {
            return Err(ReferandiumError::ArithmeticOverflow);
        },
    };

    ctx.market = Some(
        MarketAccount {
            market_id,
            authority: ctx.authority,
            question,
            description,
            yes_count: 0,
            no_count: 0,
            total_pool: 0,
            end_timestamp,
            outcome: MarketOutcome::Pending,
            created_at: now,
            bump: ctx.market_bump,
        },
    );
    ctx.vault.total_markets = listed;
    Ok(())
}

/// The error with which a vote is refused, or `None` where it is accepted.
///
/// The checks come in this order: the stake is not zero, the market is still
/// pending, the deadline has not come, the voter can pay the stake and the
/// escrow can take it, the voter has no receipt for this market yet, and
/// neither the tally nor the pool passes its bound.
pub open spec fn vote_rejection(
    ctx: CastVoteState,
    direction: VoteDirection,
    amount: u64,
    now: i64,
) -> Option<ReferandiumError> {
    if amount == 0 {
        Some(ReferandiumError::ZeroAmount)
    } else if ctx.market.outcome != MarketOutcome::Pending {
        Some(ReferandiumError::MarketAlreadyResolved)
    } else if now >= ctx.market.end_timestamp {
        Some(ReferandiumError::MarketExpired)
    } else if ctx.voter.lamports < amount {
        Some(ReferandiumError::InsufficientBalance)
    } else if ctx.market_escrow.lamports + amount > u64::MAX {
        Some(ReferandiumError::ArithmeticOverflow)
    } else if ctx.vote_account is Some {
        Some(ReferandiumError::AlreadyExists)
    } else if ctx.market.count(direction) + 1 > u64::MAX {
        Some(ReferandiumError::ArithmeticOverflow)
    } else if ctx.market.total_pool + amount > u64::MAX {
        Some(ReferandiumError::ArithmeticOverflow)
    } else {
        None
    }
}

/// What an accepted vote leaves behind: the stake has moved from the voter
/// to the escrow, the receipt is written, and the market counts the vote.
pub open spec fn vote_effect(
    ctx: CastVoteState,
    direction: VoteDirection,
    amount: u64,
    now: i64,
) -> CastVoteState {
    CastVoteState {
        market: ctx.market.with_vote(direction, amount as nat),
        market_key: ctx.market_key,
        market_escrow: SystemAccount {
            key: ctx.market_escrow.key,
            lamports: (ctx.market_escrow.lamports + amount) as u64,
        },
        vote_account: Some(
            VoteAccount {
                voter: ctx.voter.key,
                market: ctx.market_key,
                direction,
                amount,
                timestamp: now,
                bump: ctx.vote_bump,
            },
        ),
        voter: SystemAccount {
            key: ctx.voter.key,
            lamports: (ctx.voter.lamports - amount) as u64,
        },
        vote_bump: ctx.vote_bump,
    }
}

/// Casts a vote at time `now`: stakes `amount` on `vote_direction`.
///
/// The vote is refused exactly as `vote_rejection` says, and a refused vote
/// changes nothing. An accepted vote leaves what `vote_effect` says. A well
/// formed market stays well formed.
pub fn vote(ctx: &mut CastVote, vote_direction: VoteDirection, amount: u64, now: i64) -> (r: Result<
    (),
    ReferandiumError,
>)
    ensures
        old(ctx).market@.well_formed() ==> final(ctx).market@.well_formed(),
        match r {
            Ok(()) => {
                &&& vote_rejection(old(ctx)@, vote_direction, amount, now) is None
                &&& final(ctx)@ == vote_effect(old(ctx)@, vote_direction, amount, now)
            },
            Err(e) => {
                &&& vote_rejection(old(ctx)@, vote_direction, amount, now) == Some(e)
                &&& *final(ctx) == *old(ctx)
            },
        },
{
    if amount == 0 {
        return Err(ReferandiumError::ZeroAmount);
    }
    if ctx.market.outcome != MarketOutcome::Pending {
        return Err(ReferandiumError::MarketAlreadyResolved);
    }
    if now >= ctx.market.end_timestamp {
        return Err(ReferandiumError::MarketExpired);
    }
    if ctx.voter.lamports < amount {
        return Err(ReferandiumError::InsufficientBalance);
    }
    let escrowed: u64 = match ctx.market_escrow.lamports.checked_add(amount) {
        Some(sum) => sum,
        None => {
            return Err(ReferandiumError::ArithmeticOverflow);
        },
    };
    if ctx.vote_account.is_some() {
        return Err(ReferandiumError::AlreadyExists);
    }
    let tally: u64 = match vote_direction {
        VoteDirection::Yes => ctx.market.yes_count,
        VoteDirection::No => ctx.market.no_count,
    };
    let counted: u64 = match tally.checked_add(1) {
        Some(sum) => sum,
        None => {
            return Err(ReferandiumError::ArithmeticOverflow);
        },
    };
    let pooled: u64 = match ctx.market.total_pool.checked_add(amount) {
        Some(sum) => sum,
        None => {
            return Err(ReferandiumError::ArithmeticOverflow);
        },
    };

    ctx.voter.lamports = ctx.voter.lamports - amount;
    ctx.market_escrow.lamports = escrowed;
    ctx.vote_account = Some(
        VoteAccount {
            voter: ctx.voter.key,
            market: ctx.market_key,
            direction: vote_direction,
            amount,
            timestamp: now,
            bump: ctx.vote_bump,
        },
    );
    match vote_direction {
        VoteDirection::Yes => {
            ctx.market.yes_count = counted;
        },
        VoteDirection::No => {
            ctx.market.no_count = counted;
        },
    }
    ctx.market.total_pool = pooled;
    Ok(())
}

/// The error with which a settlement is refused, or `None` where it is
/// accepted.
///
/// The checks come in this order: the caller is the platform authority, the
/// proposed outcome is `Yes` or `No`, and the market is still pending. The
/// deadline plays no part.
pub open spec fn settle_market_rejection(
    ctx: SettleMarketState,
    outcome: MarketOutcome,
) -> Option<ReferandiumError> {
    if ctx.vault.authority != ctx.authority {
        Some(ReferandiumError::Unauthorized)
    } else if outcome == MarketOutcome::Pending {
        Some(ReferandiumError::InvalidOutcome)
    } else if ctx.market.outcome != MarketOutcome::Pending {
        Some(ReferandiumError::MarketAlreadyResolved)
    } else {
        None
    }
}

/// What an accepted settlement leaves behind: the market has the proposed
/// outcome, and nothing else has changed.
pub open spec fn settle_market_effect(
    ctx: SettleMarketState,
    outcome: MarketOutcome,
) -> SettleMarketState {
    SettleMarketState {
        vault: ctx.vault,
        market: ctx.market.with_outcome(outcome),
        authority: ctx.authority,
    }
}

/// Settles a market with `outcome`.
///
/// The settlement is refused exactly as `settle_market_rejection` says, and
/// a refused settlement changes nothing. An accepted one leaves what
/// `settle_market_effect` says. A well formed market stays well formed.
pub fn settle_market(ctx: &mut SettleMarket, outcome: MarketOutcome) -> (r: Result<
    (),
    ReferandiumError,
>)
    ensures
        old(ctx).market@.well_formed() ==> final(ctx).market@.well_formed(),
        match r {
            Ok(()) => {
                &&& settle_market_rejection(old(ctx)@, outcome) is None
                &&& final(ctx)@ == settle_market_effect(old(ctx)@, outcome)
            },
            Err(e) => {
                &&& settle_market_rejection(old(ctx)@, outcome) == Some(e)
                &&& *final(ctx) == *old(ctx)
            },
        },
{
    if ctx.vault.authority != ctx.authority {
        return Err(ReferandiumError::Unauthorized);
    }
    if outcome == MarketOutcome::Pending {
        return Err(ReferandiumError::InvalidOutcome);
    }
    if ctx.market.outcome != MarketOutcome::Pending {
        return Err(ReferandiumError::MarketAlreadyResolved);
    }
    ctx.market.outcome = outcome;
    Ok(())
}

} // verus!
