//! Accepting a quest: a counterparty matches the stake and the quest is
//! taken.

use vstd::prelude::*;
use crate::escrow::{Deposit, TokenAccount};
use crate::state::address::Address;
use crate::state::counter::Counter;
use crate::state::quest::{Quest, QuestError};
use crate::state::status::QuestStatus;

verus! {

/// What the offeree chooses when accepting a quest.
#[derive(Clone, Copy, Debug, PartialEq, Eq)]
pub struct AcceptQuestParams {
    /// Collateral that the offeree stakes.
    pub stake_amount: u64,
    /// Digest of the offeree's proposal.
    pub offeree_proposal_hash: [u8; 32],
}

/// The accounts that accepting a quest reads and changes.
#[derive(Clone, Copy, Debug, PartialEq, Eq)]
pub struct AcceptQuest {
    /// The record to accept.
    pub quest: Quest,
    /// The offeree's account of the collateral token.
    pub offeree_token_account: TokenAccount,
    /// The aggregate counter.
    pub counter: Counter,
    /// The party that signed as offeree.
    pub offeree: Address,
    /// The party that signed as owner.
    pub owner: Address,
}

/// Why an acceptance is refused, if it is. In this order: the signer is not
/// the owner of the quest; the quest is not open; the offeree is the owner;
/// the offeree holds less collateral than the required minimum; the stake is
/// below the required minimum; the stake is above the owner's; a count would
/// leave its range.
pub open spec fn accept_quest_error(ctx: AcceptQuest, params: AcceptQuestParams) -> Option<
    QuestError,
> {
    if ctx.quest.owner != ctx.owner {
        Some(QuestError::MissingOwnerSignature)
    } else if !(ctx.quest.status is Open) {
        Some(QuestError::QuestNotOpen)
    } else if ctx.offeree == ctx.owner {
        Some(QuestError::OwnerCannotAcceptOwnQuest)
    } else if ctx.offeree_token_account.amount < ctx.quest.min_stake_required {
        Some(QuestError::NotEnoughTokenBalance)
    } else if params.stake_amount < ctx.quest.min_stake_required {
        Some(QuestError::StakeAmountTooLow)
    } else if params.stake_amount > ctx.quest.staked {
        Some(QuestError::StakeAmountTooHigh)
    } else if ctx.counter.posts_open == 0 {
        Some(QuestError::CounterUnderflow)
    } else if ctx.counter.posts_taken == u64::MAX {
        Some(QuestError::CounterOverflow)
    } else {
        None
    }
}

/// An acceptance gets as far as the judgement of its stake: the owner
/// co-signed, the quest is open, the offeree is not the owner and holds at
/// least the required minimum.
pub open spec fn stake_is_judged(ctx: AcceptQuest) -> bool {
    &&& ctx.quest.owner == ctx.owner
    &&& ctx.quest.status is Open
    &&& ctx.offeree != ctx.owner
    &&& ctx.offeree_token_account.amount >= ctx.quest.min_stake_required
}

/// The accounts after an acceptance at time `slot`: the quest is taken and
/// records the offeree, the stake, the proposal and the time; one quest fewer
/// is open and one more is taken.
pub open spec fn accepted(ctx: AcceptQuest, params: AcceptQuestParams, slot: u64) -> AcceptQuest {
    AcceptQuest {
        quest: Quest {
            status: QuestStatus::Taken,
            accepted_timestamp: Some(slot),
            offeree: Some(ctx.offeree),
            offeree_staked: Some(params.stake_amount),
            offeree_proposal_hash: Some(params.offeree_proposal_hash),
            ..ctx.quest
        },
        counter: Counter {
            posts_open: (ctx.counter.posts_open - 1) as u64,
            posts_taken: (ctx.counter.posts_taken + 1) as u64,
            ..ctx.counter
        },
        ..ctx
    }
}

/// Accepts an open quest at time `slot`. Returns the collateral that the
/// offeree has to put into the escrow.
///
/// A stake equal to the required minimum, or equal to the owner's stake, is
/// accepted; one below the first or above the second is refused.
pub fn accept_quest_handler(ctx: &mut AcceptQuest, params: AcceptQuestParams, slot: u64) -> (r:
    Result<Deposit, QuestError>)
    ensures
        match accept_quest_error(*old(ctx), params) {
            Some(e) => r == Err::<Deposit, QuestError>(e) && *final(ctx) == *old(ctx),
            None => r == Ok::<Deposit, QuestError>(Deposit { collateral: params.stake_amount })
                && *final(ctx) == accepted(*old(ctx), params, slot),
        },
        r is Ok ==> old(ctx).quest.min_stake_required <= params.stake_amount <= old(
            ctx,
        ).quest.staked,
        stake_is_judged(*old(ctx)) ==> {
            &&& params.stake_amount < old(ctx).quest.min_stake_required ==> r == Err::<
                Deposit,
                QuestError,
            >(QuestError::StakeAmountTooLow)
            &&& old(ctx).quest.min_stake_required <= params.stake_amount && params.stake_amount
                > old(ctx).quest.staked ==> r == Err::<Deposit, QuestError>(
                QuestError::StakeAmountTooHigh,
            )
            &&& old(ctx).quest.min_stake_required <= params.stake_amount <= old(ctx).quest.staked
                ==> !(r matches Err(QuestError::StakeAmountTooLow)) && !(r matches Err(
                QuestError::StakeAmountTooHigh,
            ))
            &&& old(ctx).quest.min_stake_required <= params.stake_amount <= old(ctx).quest.staked
                && 0 < old(ctx).counter.posts_open && old(ctx).counter.posts_taken < u64::MAX
                ==> r is Ok
        },
        old(ctx).quest.wf() ==> final(ctx).quest.wf(),
{
    if ctx.quest.owner != ctx.owner {
        return Err(QuestError::MissingOwnerSignature);
    }
    match ctx.quest.status {
        QuestStatus::Open => {},
        _ => {
            return Err(QuestError::QuestNotOpen);
        },
    }
    if ctx.offeree == ctx.owner {
        return Err(QuestError::OwnerCannotAcceptOwnQuest);
    }
    if ctx.offeree_token_account.amount < ctx.quest.min_stake_required {
        return Err(QuestError::NotEnoughTokenBalance);
    }
    if params.stake_amount < ctx.quest.min_stake_required {
        return Err(QuestError::StakeAmountTooLow);
    }
    if params.stake_amount > ctx.quest.staked {
        return Err(QuestError::StakeAmountTooHigh);
    }
    if ctx.counter.posts_open == 0 {
        return Err(QuestError::CounterUnderflow);
    }
    if ctx.counter.posts_taken == u64::MAX {
        return Err(QuestError::CounterOverflow);
    }
    ctx.quest.offeree = Some(ctx.offeree);
    ctx.quest.offeree_staked = Some(params.stake_amount);
    ctx.quest.offeree_proposal_hash = Some(params.offeree_proposal_hash);
    ctx.quest.accepted_timestamp = Some(slot);
    ctx.quest.status = QuestStatus::Taken;
    ctx.counter.posts_open = ctx.counter.posts_open - 1;
    ctx.counter.posts_taken = ctx.counter.posts_taken + 1;
    Ok(Deposit { collateral: params.stake_amount })
}

} // verus!
