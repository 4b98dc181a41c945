//! Replacing the digest of a quest while it is unpublished.

use vstd::prelude::*;
use crate::instructions::update_quest::{update_quest_error, updated, UpdateQuest, UpdateQuestParams};
use crate::state::address::Address;
use crate::state::quest::{Quest, QuestError};
use crate::state::status::QuestStatus;

verus! {

/// The new digest of the title and description.
#[derive(Clone, Copy, Debug, PartialEq, Eq)]
pub struct UpdateQuestHashParams {
    pub details_hash: [u8; 32],
}

/// The accounts that replacing the digest reads and changes.
#[derive(Clone, Copy, Debug, PartialEq, Eq)]
pub struct UpdateQuestHash {
    /// The record to update.
    pub quest: Quest,
    /// The party that signed as owner.
    pub owner: Address,
}

/// Replaces the digest of an unpublished quest. Refused where the signer is
/// not the owner of the quest, and, failing that, where the quest is not
/// unpublished. No funds move and no counter changes.
pub fn update_quest_hash_handler(ctx: &mut UpdateQuestHash, params: UpdateQuestHashParams) -> (r:
    Result<(), QuestError>)
    ensures
        old(ctx).quest.owner != old(ctx).owner ==> r == Err::<(), QuestError>(
            QuestError::MissingOwnerSignature,
        ) && *final(ctx) == *old(ctx),
        old(ctx).quest.owner == old(ctx).owner && !(old(ctx).quest.status is Unpublished) ==> r
            == Err::<(), QuestError>(QuestError::UpdateNotAllowed) && *final(ctx) == *old(ctx),
        old(ctx).quest.owner == old(ctx).owner && old(ctx).quest.status is Unpublished ==> r
            == Ok::<(), QuestError>(()) && *final(ctx) == (UpdateQuestHash {
            quest: Quest { details_hash: params.details_hash, ..old(ctx).quest },
            ..*old(ctx)
        }),
        old(ctx).quest.wf() ==> final(ctx).quest.wf(),
{
    if ctx.quest.owner != ctx.owner {
        return Err(QuestError::MissingOwnerSignature);
    }
    match ctx.quest.status {
        QuestStatus::Unpublished => {},
        _ => {
            return Err(QuestError::UpdateNotAllowed);
        },
    }
    ctx.quest.details_hash = params.details_hash;
    Ok(())
}

/// Replacing the digest is an update that gives a new digest and no new
/// minimum: the two are refused on the same accounts, for the same reason,
/// and leave the same record.
pub proof fn lemma_hash_update_is_an_update(ctx: UpdateQuestHash, params: UpdateQuestHashParams)
    ensures
        ({
            let update = UpdateQuest { quest: ctx.quest, owner: ctx.owner };
            let given = UpdateQuestParams {
                details_hash: Some(params.details_hash),
                min_stake_required: None,
            };
            &&& update_quest_error(update, given) == (if ctx.quest.owner != ctx.owner {
                Some(QuestError::MissingOwnerSignature)
            } else if !(ctx.quest.status is Unpublished) {
                Some(QuestError::UpdateNotAllowed)
            } else {
                None
            })
            &&& updated(update, given).quest == (Quest {
                details_hash: params.details_hash,
                ..ctx.quest
            })
        }),
{
}

} // verus!
