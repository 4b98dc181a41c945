//! Unpublishing a quest: it is withdrawn from acceptance.

use vstd::prelude::*;
use crate::state::address::Address;
use crate::state::counter::Counter;
use crate::state::quest::{Quest, QuestError};
use crate::state::status::QuestStatus;

verus! {

/// The accounts that unpublishing a quest reads and changes.
#[derive(Clone, Copy, Debug, PartialEq, Eq)]
pub struct UnpublishQuest {
    /// The record to withdraw.
    pub quest: Quest,
    /// The aggregate counter.
    pub counter: Counter,
    /// The party that signed as owner.
    pub owner: Address,
}

/// Why a withdrawal is refused, if it is. In this order: the signer is not
/// the owner of the quest; the quest is not open; no quest is counted as
/// open.
pub open spec fn unpublish_quest_error(ctx: UnpublishQuest) -> Option<QuestError> {
    if ctx.quest.owner != ctx.owner {
        Some(QuestError::MissingOwnerSignature)
    } else if !(ctx.quest.status is Open) {
        Some(QuestError::QuestNotOpen)
    } else if ctx.counter.posts_open == 0 {
        Some(QuestError::CounterUnderflow)
    } else {
        None
    }
}

/// The accounts after a withdrawal: the quest is unpublished and one quest
/// fewer is counted as open.
pub open spec fn unpublished(ctx: UnpublishQuest) -> UnpublishQuest {
    UnpublishQuest {
        quest: Quest { status: QuestStatus::Unpublished, ..ctx.quest },
        counter: Counter { posts_open: (ctx.counter.posts_open - 1) as u64, ..ctx.counter },
        ..ctx
    }
}

/// Withdraws an open quest. No funds move.
pub fn unpublish_quest_handler(ctx: &mut UnpublishQuest) -> (r: Result<(), QuestError>)
    ensures
        match unpublish_quest_error(*old(ctx)) {
            Some(e) => r == Err::<(), QuestError>(e) && *final(ctx) == *old(ctx),
            None => r == Ok::<(), QuestError>(()) && *final(ctx) == unpublished(*old(ctx)),
        },
        old(ctx).quest.wf() ==> final(ctx).quest.wf(),
{
    if ctx.quest.owner != ctx.owner {
        return Err(QuestError::MissingOwnerSignature);
    }
    match ctx.quest.status {
        QuestStatus::Open => {},
        _ => {
            return Err(QuestError::QuestNotOpen);
        },
    }
    if ctx.counter.posts_open == 0 {
        return Err(QuestError::CounterUnderflow);
    }
    ctx.quest.status = QuestStatus::Unpublished;
    ctx.counter.posts_open = ctx.counter.posts_open - 1;
    Ok(())
}

} // verus!
