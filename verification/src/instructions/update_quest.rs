//! Updating a quest while it is unpublished.

use vstd::prelude::*;
use crate::state::address::Address;
use crate::state::quest::{Quest, QuestError};
use crate::state::status::QuestStatus;

verus! {

/// What the owner wants changed. A field that is `None` stays as it is.
#[derive(Clone, Copy, Debug, PartialEq, Eq)]
pub struct UpdateQuestParams {
    /// A new digest of the title and description.
    pub details_hash: Option<[u8; 32]>,
    /// A new required minimum.
    pub min_stake_required: Option<u64>,
}

/// The accounts that updating a quest reads and changes.
#[derive(Clone, Copy, Debug, PartialEq, Eq)]
pub struct UpdateQuest {
    /// The record to update.
    pub quest: Quest,
    /// The party that signed as owner.
    pub owner: Address,
}

/// Why an update is refused, if it is. In this order: the signer is not the
/// owner of the quest; the quest is not unpublished; the new required minimum
/// exceeds the owner's stake.
pub open spec fn update_quest_error(ctx: UpdateQuest, params: UpdateQuestParams) -> Option<
    QuestError,
> {
    if ctx.quest.owner != ctx.owner {
        Some(QuestError::MissingOwnerSignature)
    } else if !(ctx.quest.status is Unpublished) {
        Some(QuestError::UpdateNotAllowed)
    } else if params.min_stake_required matches Some(min) && min > ctx.quest.staked {
        Some(QuestError::MinStakeRequiredExceedsStaked)
    } else {
        None
    }
}

/// The accounts after an update: each field for which a new value was given
/// holds it, every other field is as before.
pub open spec fn updated(ctx: UpdateQuest, params: UpdateQuestParams) -> UpdateQuest {
    UpdateQuest {
        quest: Quest {
            details_hash: match params.details_hash {
                Some(hash) => hash,
                None => ctx.quest.details_hash,
            },
            min_stake_required: match params.min_stake_required {
                Some(min) => min,
                None => ctx.quest.min_stake_required,
            },
            ..ctx.quest
        },
        ..ctx
    }
}

/// Updates an unpublished quest. No funds move and no counter changes.
pub fn update_quest_handler(ctx: &mut UpdateQuest, params: UpdateQuestParams) -> (r: Result<
    (),
    QuestError,
>)
    ensures
        match update_quest_error(*old(ctx), params) {
            Some(e) => r == Err::<(), QuestError>(e) && *final(ctx) == *old(ctx),
            None => r == Ok::<(), QuestError>(()) && *final(ctx) == updated(*old(ctx), params),
        },
        r is Ok && params.min_stake_required is Some ==> final(ctx).quest.min_stake_required
            <= final(ctx).quest.staked,
        old(ctx).quest.wf() ==> final(ctx).quest.wf(),
{
    if ctx.quest.owner != ctx.owner {
        return Err(QuestError::MissingOwnerSignature);
    }
    match ctx.quest.status {
        QuestStatus::Unpublished => {},
        _ => {
            return Err(QuestError::UpdateNotAllowed);
        },
    }
    match params.min_stake_required {
        Some(min) => {
            if min > ctx.quest.staked {
                return Err(QuestError::MinStakeRequiredExceedsStaked);
            }
            ctx.quest.min_stake_required = min;
        },
        None => {},
    }
    match params.details_hash {
        Some(hash) => {
            ctx.quest.details_hash = hash;
        },
        None => {},
    }
    Ok(())
}

} // verus!
