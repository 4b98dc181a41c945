//! Creating a quest: a new record in state `Unpublished`, funded by its owner.

use vstd::prelude::*;
use crate::escrow::{Funding, TokenAccount};
use crate::state::address::Address;
use crate::state::config::Config;
use crate::state::quest::{Quest, QuestError};
use crate::state::status::QuestStatus;

verus! {

/// What the owner chooses when creating a quest.
#[derive(Clone, Copy, Debug, PartialEq, Eq)]
pub struct CreateQuestParams {
    /// Collateral that the owner stakes.
    pub stake_amount: u64,
    /// The least collateral a counterparty has to match.
    pub min_stake_required: u64,
    /// Native currency paid in advance for placement.
    pub placement_paid: u64,
    /// Digest of the title and description.
    pub details_hash: [u8; 32],
}

/// Nonces of the addresses that are derived for a new quest.
#[derive(Clone, Copy, Debug, PartialEq, Eq, Structural)]
pub struct CreateQuestBumps {
    pub quest: u8,
}

/// The accounts that creating a quest reads.
#[derive(Clone, Copy, Debug, PartialEq, Eq)]
pub struct CreateQuest {
    /// The unique key of the new quest.
    pub id: Address,
    /// The party that creates and funds the quest.
    pub owner: Address,
    /// The owner's account of the collateral token.
    pub owner_token_account: TokenAccount,
    /// The registry.
    pub config: Config,
    /// Nonces of the derived addresses.
    pub bumps: CreateQuestBumps,
}

/// Why a creation is refused, if it is: the owner holds less collateral than
/// the stake, or, failing that, the required minimum exceeds the stake.
pub open spec fn create_quest_error(ctx: CreateQuest, params: CreateQuestParams) -> Option<
    QuestError,
> {
    if ctx.owner_token_account.amount < params.stake_amount {
        Some(QuestError::NotEnoughTokenBalance)
    } else if params.min_stake_required > params.stake_amount {
        Some(QuestError::MinStakeRequiredExceedsStaked)
    } else {
        None
    }
}

/// The record of a quest created at time `slot`.
pub open spec fn created_quest(ctx: CreateQuest, params: CreateQuestParams, slot: u64) -> Quest {
    Quest {
        bump: ctx.bumps.quest,
        status: QuestStatus::Unpublished,
        owner: ctx.owner,
        timestamp: slot,
        staked: params.stake_amount,
        min_stake_required: params.min_stake_required,
        placement_paid: params.placement_paid,
        details_hash: params.details_hash,
        id: ctx.id,
        accepted_timestamp: None,
        offeree: None,
        offeree_staked: None,
        offeree_proposal_hash: None,
        owner_votes: None,
        offeree_votes: None,
        abstained_votes: None,
    }
}

/// What the owner pays for a creation: the base fee of the registry to the
/// treasury, the placement payment into the custody of the record, and the
/// stake into the escrow.
pub open spec fn creation_funding(ctx: CreateQuest, params: CreateQuestParams) -> Funding {
    Funding {
        base_fee: ctx.config.base_fee,
        placement: params.placement_paid,
        collateral: params.stake_amount,
    }
}

/// Creates a quest at time `slot`. Returns the new record, unpublished and
/// without a counterparty, and what the owner has to pay for it.
///
/// A quest whose required minimum exceeds its stake is never created.
pub fn create_quest_handler(ctx: &CreateQuest, params: CreateQuestParams, slot: u64) -> (r: Result<
    (Quest, Funding),
    QuestError,
>)
    ensures
        match create_quest_error(*ctx, params) {
            Some(e) => r == Err::<(Quest, Funding), QuestError>(e),
            None => r == Ok::<(Quest, Funding), QuestError>(
                (created_quest(*ctx, params, slot), creation_funding(*ctx, params)),
            ),
        },
        r matches Ok((quest, _)) ==> quest.wf() && quest.min_stake_required <= quest.staked,
        ctx.owner_token_account.amount >= params.stake_amount && params.min_stake_required
            > params.stake_amount ==> r == Err::<(Quest, Funding), QuestError>(
            QuestError::MinStakeRequiredExceedsStaked,
        ),
{
    if ctx.owner_token_account.amount < params.stake_amount {
        return Err(QuestError::NotEnoughTokenBalance);
    }
    if params.min_stake_required > params.stake_amount {
        return Err(QuestError::MinStakeRequiredExceedsStaked);
    }
    let quest = Quest {
        bump: ctx.bumps.quest,
        status: QuestStatus::Unpublished,
        owner: ctx.owner,
        timestamp: slot,
        staked: params.stake_amount,
        min_stake_required: params.min_stake_required,
        placement_paid: params.placement_paid,
        details_hash: params.details_hash,
        id: ctx.id,
        accepted_timestamp: None,
        offeree: None,
        offeree_staked: None,
        offeree_proposal_hash: None,
        owner_votes: None,
        offeree_votes: None,
        abstained_votes: None,
    };
    let funding = Funding {
        base_fee: ctx.config.base_fee,
        placement: params.placement_paid,
        collateral: params.stake_amount,
    };
    Ok((quest, funding))
}

} // verus!
