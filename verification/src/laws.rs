//! What holds of every run of the platform, proved from the descriptions of
//! the operations.

use crate::accounts::{CastVoteState, SettleMarketState};
use crate::error::ReferandiumError;
use crate::instructions::{
    settle_market_effect, settle_market_rejection, vote_effect, vote_rejection,
};
use crate::state::{MarketOutcome, VoteAccount, VoteDirection};
use vstd::prelude::*;

verus! {

/// One call of `vote`: the context it finds and its arguments.
pub struct VoteCall {
    pub ctx: CastVoteState,
    pub direction: VoteDirection,
    pub amount: u64,
    pub now: i64,
}

impl VoteCall {
    /// Whether the call is accepted.
    pub open spec fn accepted(self) -> bool {
        vote_rejection(self.ctx, self.direction, self.amount, self.now) is None
    }

    /// What the call leaves behind when it is accepted.
    pub open spec fn after(self) -> CastVoteState {
        vote_effect(self.ctx, self.direction, self.amount, self.now)
    }

    /// Whether the call finds the market and its escrow as `earlier` left
    /// them.
    pub open spec fn follows(self, earlier: VoteCall) -> bool {
        &&& self.ctx.market == earlier.after().market
        &&& self.ctx.market_escrow == earlier.after().market_escrow
    }
}

/// Whether `calls` is a run of accepted votes on one market: every call is
/// accepted, and each call finds the market and its escrow as the call
/// before it left them. Voters and receipts may differ from call to call.
pub open spec fn vote_run(calls: Seq<VoteCall>) -> bool {
    &&& forall|i: int| 0 <= i < calls.len() ==> (#[trigger] calls[i]).accepted()
    &&& forall|i: int, j: int|
        0 <= i && j == i + 1 && j < calls.len() ==> (#[trigger] calls[j]).follows(
            #[trigger] calls[i],
        )
}

/// The sum of the stakes of `calls`.
pub open spec fn staked(calls: Seq<VoteCall>) -> nat
    decreases calls.len(),
{
    if calls.len() == 0 {
        0
    } else {
        staked(calls.drop_last()) + calls.last().amount as nat
    }
}

/// How many of `calls` vote for `direction`.
pub open spec fn votes_for(calls: Seq<VoteCall>, direction: VoteDirection) -> nat
    decreases calls.len(),
{
    if calls.len() == 0 {
        0
    } else if calls.last().direction == direction {
        votes_for(calls.drop_last(), direction) + 1
    } else {
        votes_for(calls.drop_last(), direction)
    }
}

/// After a run of accepted votes the pool has grown by the sum of the
/// stakes and so has the escrow, and each tally has grown by the number of
/// votes for its side.
pub proof fn lemma_pool_is_sum_of_stakes(calls: Seq<VoteCall>)
    requires
        calls.len() > 0,
        vote_run(calls),
    ensures
        calls.last().after().market.total_pool == calls[0].ctx.market.total_pool + staked(calls),
        calls.last().after().market_escrow.lamports == calls[0].ctx.market_escrow.lamports
            + staked(calls),
        calls.last().after().market.yes_count == calls[0].ctx.market.yes_count + votes_for(
            calls,
            VoteDirection::Yes,
        ),
        calls.last().after().market.no_count == calls[0].ctx.market.no_count + votes_for(
            calls,
            VoteDirection::No,
        ),
    decreases calls.len(),
{
    let before = calls.drop_last();
    let last = calls.last();
    assert(last == calls[calls.len() - 1]);
    assert(last.accepted());
    if calls.len() == 1 {
        assert(staked(before) == 0);
        assert(votes_for(before, VoteDirection::Yes) == 0);
        assert(votes_for(before, VoteDirection::No) == 0);
    } else {
        assert forall|i: int| 0 <= i < before.len() implies (#[trigger] before[i]).accepted() by {
            assert(before[i] == calls[i]);
        }
        assert forall|i: int, j: int| 0 <= i && j == i + 1 && j < before.len() implies (
        #[trigger] before[j]).follows(#[trigger] before[i]) by {
            assert(calls[j].follows(calls[i]));
        }
        lemma_pool_is_sum_of_stakes(before);
        assert(before.last() == calls[calls.len() - 2]);
        assert(last.follows(calls[calls.len() - 2]));
    }
}

/// At every point of a run of accepted votes that starts with the escrow
/// holding exactly the pool, the escrow holds exactly the pool: before each
/// vote and after it.
pub proof fn lemma_escrow_holds_the_pool(calls: Seq<VoteCall>, k: int)
    requires
        vote_run(calls),
        0 <= k < calls.len(),
        calls[0].ctx.market_escrow.lamports == calls[0].ctx.market.total_pool,
    ensures
        calls[k].ctx.market_escrow.lamports == calls[k].ctx.market.total_pool,
        calls[k].after().market_escrow.lamports == calls[k].after().market.total_pool,
    decreases k,
{
    assert(calls[k].accepted());
    if k > 0 {
        lemma_escrow_holds_the_pool(calls, k - 1);
        assert(calls[k].follows(calls[k - 1]));
    }
}

/// An accepted vote leaves the voter's receipt at its place, with the voter,
/// the market, the side, the stake and the time of the vote.
pub proof fn lemma_accepted_vote_leaves_receipt(
    ctx: CastVoteState,
    direction: VoteDirection,
    amount: u64,
    now: i64,
)
    ensures
        vote_effect(ctx, direction, amount, now).vote_account == Some(
            VoteAccount {
                voter: ctx.voter.key,
                market: ctx.market_key,
                direction,
                amount,
                timestamp: now,
                bump: ctx.vote_bump,
            },
        ),
{
}

/// One vote per voter and market: where the voter's receipt for the market
/// is in place, every vote is refused. It is refused as a duplicate exactly
/// where no earlier check refuses it first: a zero stake, a settled market,
/// a passed deadline, or a stake the voter cannot pay or the escrow cannot
/// take.
pub proof fn lemma_second_vote_is_refused(
    ctx: CastVoteState,
    direction: VoteDirection,
    amount: u64,
    now: i64,
)
    requires
        ctx.vote_account is Some,
    ensures
        vote_rejection(ctx, direction, amount, now) is Some,
        vote_rejection(ctx, direction, amount, now) == Some(ReferandiumError::AlreadyExists) <==> {
            &&& amount > 0
            &&& ctx.market.outcome == MarketOutcome::Pending
            &&& now < ctx.market.end_timestamp
            &&& ctx.voter.lamports >= amount
            &&& ctx.market_escrow.lamports + amount <= u64::MAX
        },
{
}

/// The receipt that a call leaves at its place: the one it writes where it
/// is accepted, the one it found where it is refused.
pub open spec fn receipt_left_by(call: VoteCall) -> Option<VoteAccount> {
    if call.accepted() {
        call.after().vote_account
    } else {
        call.ctx.vote_account
    }
}

/// Whether `calls` are votes of one voter on one market, accepted or
/// refused: each call finds the receipt's place as the call before it left
/// it.
pub open spec fn votes_of_one_voter(calls: Seq<VoteCall>) -> bool {
    forall|i: int, j: int|
        0 <= i && j == i + 1 && j < calls.len() ==> (#[trigger] calls[j]).ctx.vote_account
            == receipt_left_by(#[trigger] calls[i])
}

/// At most one receipt per voter and market: of the votes of one voter on
/// one market, none is accepted after an accepted one, and the receipt of
/// the accepted one stays as it was written.
pub proof fn lemma_at_most_one_accepted_vote(calls: Seq<VoteCall>, first: int, later: int)
    requires
        votes_of_one_voter(calls),
        0 <= first < later < calls.len(),
        calls[first].accepted(),
    ensures
        !calls[later].accepted(),
        calls[later].ctx.vote_account == calls[first].after().vote_account,
        receipt_left_by(calls[later]) == calls[first].after().vote_account,
    decreases later - first,
{
    if later == first + 1 {
        assert(calls[later].ctx.vote_account == receipt_left_by(calls[first]));
    } else {
        lemma_at_most_one_accepted_vote(calls, first, later - 1);
        assert(calls[later].ctx.vote_account == receipt_left_by(calls[later - 1]));
    }
}

/// A settled market takes no vote. The vote is refused as coming after the
/// settlement exactly where its stake is not zero.
pub proof fn lemma_settled_market_refuses_votes(
    ctx: CastVoteState,
    direction: VoteDirection,
    amount: u64,
    now: i64,
)
    requires
        ctx.market.outcome != MarketOutcome::Pending,
    ensures
        vote_rejection(ctx, direction, amount, now) is Some,
        vote_rejection(ctx, direction, amount, now) == Some(
            ReferandiumError::MarketAlreadyResolved,
        ) <==> amount > 0,
{
}

/// A settled market takes no second settlement. The settlement is refused
/// as a second one exactly where the caller is the authority and proposes
/// `Yes` or `No`.
pub proof fn lemma_settled_market_refuses_settlement(
    ctx: SettleMarketState,
    outcome: MarketOutcome,
)
    requires
        ctx.market.outcome != MarketOutcome::Pending,
    ensures
        settle_market_rejection(ctx, outcome) is Some,
        settle_market_rejection(ctx, outcome) == Some(
            ReferandiumError::MarketAlreadyResolved,
        ) <==> {
            &&& ctx.vault.authority == ctx.authority
            &&& outcome != MarketOutcome::Pending
        },
{
}

/// An accepted settlement leaves the market settled, and an accepted vote
/// leaves the outcome as it was: the outcome leaves `Pending` once and never
/// comes back.
pub proof fn lemma_outcome_is_terminal(
    settlement: SettleMarketState,
    outcome: MarketOutcome,
    ballot: VoteCall,
)
    ensures
        settle_market_rejection(settlement, outcome) is None ==> {
            &&& settlement.market.outcome == MarketOutcome::Pending
            &&& settle_market_effect(settlement, outcome).market.outcome == outcome
            &&& outcome != MarketOutcome::Pending
        },
        ballot.after().market.outcome == ballot.ctx.market.outcome,
{
}

/// A vote at or after the deadline is refused, whatever the market's
/// outcome. It is refused as expired exactly where the stake is not zero and
/// the market is still pending: a zero stake and a settled market are
/// refused for that reason first.
pub proof fn lemma_vote_after_deadline_is_refused(
    ctx: CastVoteState,
    direction: VoteDirection,
    amount: u64,
    now: i64,
)
    requires
        now >= ctx.market.end_timestamp,
    ensures
        vote_rejection(ctx, direction, amount, now) is Some,
        vote_rejection(ctx, direction, amount, now) == Some(ReferandiumError::MarketExpired) <==> {
            &&& amount > 0
            &&& ctx.market.outcome == MarketOutcome::Pending
        },
{
}

} // verus!
