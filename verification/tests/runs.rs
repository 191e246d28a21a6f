use referandium::{
    settle_market, vote, CastVote, MarketAccount, MarketOutcome, Pubkey, ReferandiumError,
    SettleMarket, SystemAccount, VaultAccount, VoteDirection,
};

const END: i64 = 900;

fn key(tag: u8) -> Pubkey {
    Pubkey::new_from_array([tag; 32])
}

fn fresh_market() -> MarketAccount {
    MarketAccount {
        market_id: "m1".to_string(),
        authority: key(1),
        question: "Q?".to_string(),
        description: String::new(),
        yes_count: 0,
        no_count: 0,
        total_pool: 0,
        end_timestamp: END,
        outcome: MarketOutcome::Pending,
        created_at: 0,
        bump: 254,
    }
}

#[test]
fn pool_and_escrow_equal_the_sum_of_stakes_after_every_vote() {
    let stakes: [(VoteDirection, u64); 5] = [
        (VoteDirection::Yes, 100),
        (VoteDirection::No, 50),
        (VoteDirection::No, 1),
        (VoteDirection::Yes, 4_000_000_000),
        (VoteDirection::Yes, 7),
    ];
    let mut market = fresh_market();
    let mut escrow = SystemAccount { key: key(11), lamports: 0 };
    let mut sum: u64 = 0;
    let mut yes: u64 = 0;
    let mut no: u64 = 0;
    for (i, (direction, amount)) in stakes.iter().enumerate() {
        let mut ctx = CastVote {
            market,
            market_key: key(10),
            market_escrow: escrow,
            vote_account: None,
            voter: SystemAccount { key: key(100 + i as u8), lamports: *amount },
            vote_bump: 0,
        };
        assert_eq!(vote(&mut ctx, *direction, *amount, i as i64), Ok(()));
        sum += amount;
        match direction {
            VoteDirection::Yes => yes += 1,
            VoteDirection::No => no += 1,
        }
        assert_eq!(ctx.market.total_pool, sum);
        assert_eq!(ctx.market_escrow.lamports, sum);
        assert_eq!(ctx.market.yes_count, yes);
        assert_eq!(ctx.market.no_count, no);
        market = ctx.market;
        escrow = ctx.market_escrow;
    }
    assert_eq!(market.total_pool, 4_000_000_158);
    assert_eq!(escrow.lamports, 4_000_000_158);
    assert_eq!(market.yes_count, 3);
    assert_eq!(market.no_count, 2);
}

#[test]
fn refused_votes_leave_pool_and_escrow_alone() {
    let mut ctx = CastVote {
        market: fresh_market(),
        market_key: key(10),
        market_escrow: SystemAccount { key: key(11), lamports: 0 },
        vote_account: None,
        voter: SystemAccount { key: key(20), lamports: 10 },
        vote_bump: 0,
    };
    assert_eq!(
        vote(&mut ctx, VoteDirection::Yes, 11, 0),
        Err(ReferandiumError::InsufficientBalance)
    );
    assert_eq!(vote(&mut ctx, VoteDirection::Yes, 0, 0), Err(ReferandiumError::ZeroAmount));
    assert_eq!(vote(&mut ctx, VoteDirection::Yes, 5, END), Err(ReferandiumError::MarketExpired));
    assert_eq!(ctx.market.total_pool, 0);
    assert_eq!(ctx.market_escrow.lamports, 0);
    assert_eq!(ctx.voter.lamports, 10);
    assert_eq!(ctx.vote_account, None);
}

#[test]
fn voter_votes_once_per_market() {
    let mut ctx = CastVote {
        market: fresh_market(),
        market_key: key(10),
        market_escrow: SystemAccount { key: key(11), lamports: 0 },
        vote_account: None,
        voter: SystemAccount { key: key(20), lamports: 10 },
        vote_bump: 0,
    };
    assert_eq!(vote(&mut ctx, VoteDirection::Yes, 4, 1), Ok(()));
    let after_first = ctx.clone();
    assert!(after_first.vote_account.is_some());
    for (direction, amount, now) in [
        (VoteDirection::Yes, 4, 1),
        (VoteDirection::No, 1, 2),
        (VoteDirection::Yes, 6, END - 1),
    ] {
        assert_eq!(vote(&mut ctx, direction, amount, now), Err(ReferandiumError::AlreadyExists));
        assert_eq!(ctx, after_first);
    }
    assert_eq!(ctx.market.yes_count, 1);
    assert_eq!(ctx.market.no_count, 0);
    assert_eq!(ctx.market.total_pool, 4);
}

#[test]
fn settled_market_refuses_every_vote_and_settlement() {
    let admin = key(1);
    let mut settlement = SettleMarket {
        vault: VaultAccount { authority: admin, total_markets: 1, bump: 255 },
        market: fresh_market(),
        authority: admin,
    };
    assert_eq!(settle_market(&mut settlement, MarketOutcome::No), Ok(()));
    for proposal in [MarketOutcome::Pending, MarketOutcome::Yes, MarketOutcome::No] {
        assert!(settle_market(&mut settlement, proposal).is_err());
        assert_eq!(settlement.market.outcome, MarketOutcome::No);
    }
    let mut ctx = CastVote {
        market: settlement.market,
        market_key: key(10),
        market_escrow: SystemAccount { key: key(11), lamports: 0 },
        vote_account: None,
        voter: SystemAccount { key: key(20), lamports: 10 },
        vote_bump: 0,
    };
    for (amount, now) in [(0, 0), (1, 0), (10, END - 1), (10, END), (11, END + 1)] {
        assert!(vote(&mut ctx, VoteDirection::Yes, amount, now).is_err());
        assert_eq!(ctx.market.outcome, MarketOutcome::No);
        assert_eq!(ctx.market.total_pool, 0);
    }
}

#[test]
fn vote_after_the_deadline_fails_whatever_the_outcome() {
    for outcome in [MarketOutcome::Pending, MarketOutcome::Yes, MarketOutcome::No] {
        let mut market = fresh_market();
        market.outcome = outcome;
        let mut ctx = CastVote {
            market,
            market_key: key(10),
            market_escrow: SystemAccount { key: key(11), lamports: 0 },
            vote_account: None,
            voter: SystemAccount { key: key(20), lamports: 10 },
            vote_bump: 0,
        };
        let before = ctx.clone();
        let refused = vote(&mut ctx, VoteDirection::Yes, 5, END + 1);
        if outcome == MarketOutcome::Pending {
            assert_eq!(refused, Err(ReferandiumError::MarketExpired));
        } else {
            assert_eq!(refused, Err(ReferandiumError::MarketAlreadyResolved));
        }
        assert_eq!(ctx, before);
    }
}
