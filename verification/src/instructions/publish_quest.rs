//! Publishing a quest: it becomes open for acceptance.

use vstd::prelude::*;
use crate::state::address::Address;
use crate::state::counter::Counter;
use crate::state::quest::{Quest, QuestError};
use crate::state::status::QuestStatus;

verus! {

/// The accounts that publishing a quest reads and changes.
#[derive(Clone, Copy, Debug, PartialEq, Eq)]
pub struct PublishQuest {
    /// The record to publish.
    pub quest: Quest,
    /// The aggregate counter.
    pub counter: Counter,
    /// The party that signed as owner.
    pub owner: Address,
}

/// Why a publication is refused, if it is. In this order: the signer is not
/// the owner of the quest; the quest is not unpublished; the count of open
/// quests is at its largest value.
pub open spec fn publish_quest_error(ctx: PublishQuest) -> Option<QuestError> {
    if ctx.quest.owner != ctx.owner {
        Some(QuestError::MissingOwnerSignature)
    } else if !(ctx.quest.status is Unpublished) {
        Some(QuestError::QuestAlreadyPublished)
    } else if ctx.counter.posts_open == u64::MAX {
        Some(QuestError::CounterOverflow)
    } else {
        None
    }
}

/// The accounts after a publication: the quest is open and one more quest is
/// counted as open.
pub open spec fn published(ctx: PublishQuest) -> PublishQuest {
    PublishQuest {
        quest: Quest { status: QuestStatus::Open, ..ctx.quest },
        counter: Counter { posts_open: (ctx.counter.posts_open + 1) as u64, ..ctx.counter },
        ..ctx
    }
}

/// Publishes an unpublished quest. No funds move.
pub fn publish_quest_handler(ctx: &mut PublishQuest) -> (r: Result<(), QuestError>)
    ensures
        match publish_quest_error(*old(ctx)) {
            Some(e) => r == Err::<(), QuestError>(e) && *final(ctx) == *old(ctx),
            None => r == Ok::<(), QuestError>(()) && *final(ctx) == published(*old(ctx)),
        },
        old(ctx).quest.wf() ==> final(ctx).quest.wf(),
{
    if ctx.quest.owner != ctx.owner {
        return Err(QuestError::MissingOwnerSignature);
    }
    match ctx.quest.status {
        QuestStatus::Unpublished => {},
        _ => {
            return Err(QuestError::QuestAlreadyPublished);
        },
    }
    if ctx.counter.posts_open == u64::MAX {
        return Err(QuestError::CounterOverflow);
    }
    ctx.quest.status = QuestStatus::Open;
    ctx.counter.posts_open = ctx.counter.posts_open + 1;
    Ok(())
}

} // verus!
