//! Completing a quest: both parties sign off, both stakes go back, and the
//! record ends.

use vstd::prelude::*;
use crate::escrow::{Release, TokenAccount};
use crate::state::address::Address;
use crate::state::config::Config;
use crate::state::counter::Counter;
use crate::state::quest::{Quest, QuestError};
use crate::state::status::{QuestStatus, Side};

verus! {

/// The accounts that completing a quest reads and changes.
#[derive(Clone, Copy, Debug, PartialEq, Eq)]
pub struct CompleteQuest {
    /// The record to complete.
    pub quest: Quest,
    /// The escrow of the record.
    pub escrow_token_account: TokenAccount,
    /// The registry.
    pub config: Config,
    /// The aggregate counter.
    pub counter: Counter,
    /// The party that signed as owner.
    pub owner: Address,
    /// The party that signed as offeree.
    pub offeree: Address,
}

/// Why a completion is refused, if it is. In this order: the signer is not
/// the owner of the quest; the quest is not taken, or carries no
/// counterparty; the second signer is not its offeree; the escrow does not
/// hold exactly the two stakes; the registry has no valid decay period; a
/// count would leave its range.
pub open spec fn complete_quest_error(ctx: CompleteQuest) -> Option<QuestError> {
    if ctx.quest.owner != ctx.owner {
        Some(QuestError::MissingOwnerSignature)
    } else if !(ctx.quest.status is Taken) || ctx.quest.offeree is None
        || ctx.quest.offeree_staked is None {
        Some(QuestError::CompleteNotAllowed)
    } else if ctx.quest.offeree != Some(ctx.offeree) {
        Some(QuestError::MissingOffereeSignature)
    } else if ctx.escrow_token_account.amount != ctx.quest.escrowed() {
        Some(QuestError::EscrowBalanceMismatch)
    } else if ctx.config.decay_period == 0 {
        Some(QuestError::InvalidDecayPeriod)
    } else if ctx.counter.posts_taken == 0 {
        Some(QuestError::CounterUnderflow)
    } else if ctx.counter.posts_completed == u64::MAX {
        Some(QuestError::CounterOverflow)
    } else {
        None
    }
}

/// The accounts after a completion: the quest is complete and signed by both
/// sides, one quest fewer is taken and one more is completed.
pub open spec fn completed(ctx: CompleteQuest) -> CompleteQuest {
    CompleteQuest {
        quest: Quest { status: QuestStatus::Complete(Side::Both), ..ctx.quest },
        counter: Counter {
            posts_taken: (ctx.counter.posts_taken - 1) as u64,
            posts_completed: (ctx.counter.posts_completed + 1) as u64,
            ..ctx.counter
        },
        ..ctx
    }
}

/// What a completion at time `slot` releases: each party gets its own stake
/// back in full, and the placement payment is divided between the treasury
/// and the owner by the time the quest lingered.
pub open spec fn completion_release(ctx: CompleteQuest, slot: u64) -> Release
    recommends
        ctx.quest.offeree_staked is Some,
{
    let split = ctx.quest.placement_split_spec(ctx.config, slot);
    Release {
        owner_collateral: ctx.quest.staked,
        offeree_collateral: ctx.quest.offeree_staked->0,
        decay_fee: split.decay_owed,
        placement_refund: split.refund,
    }
}

/// Completes a taken quest at time `slot`. Returns what has to leave the
/// custody of the record before it is destroyed.
///
/// The escrow must hold exactly the owner's stake plus the offeree's, or
/// nothing is released. What is released empties it.
pub fn complete_quest_handler(ctx: &mut CompleteQuest, slot: u64) -> (r: Result<
    Release,
    QuestError,
>)
    ensures
        match complete_quest_error(*old(ctx)) {
            Some(e) => r == Err::<Release, QuestError>(e) && *final(ctx) == *old(ctx),
            None => r == Ok::<Release, QuestError>(completion_release(*old(ctx), slot))
                && *final(ctx) == completed(*old(ctx)),
        },
        r matches Ok(release) ==> {
            &&& release.owner_collateral == old(ctx).quest.staked
            &&& Some(release.offeree_collateral) == old(ctx).quest.offeree_staked
            &&& release.owner_collateral + release.offeree_collateral == old(
                ctx,
            ).escrow_token_account.amount
            &&& release.decay_fee + release.placement_refund == old(ctx).quest.placement_paid
        },
        old(ctx).quest.wf() ==> final(ctx).quest.wf(),
{
    if ctx.quest.owner != ctx.owner {
        return Err(QuestError::MissingOwnerSignature);
    }
    match ctx.quest.status {
        QuestStatus::Taken => {},
        _ => {
            return Err(QuestError::CompleteNotAllowed);
        },
    }
    let (offeree, offeree_staked): (Address, u64) = match (ctx.quest.offeree, ctx.quest.offeree_staked) {
        (Some(offeree), Some(stake)) => (offeree, stake),
        _ => {
            return Err(QuestError::CompleteNotAllowed);
        },
    };
    if offeree != ctx.offeree {
        return Err(QuestError::MissingOffereeSignature);
    }
    if ctx.escrow_token_account.amount as u128 != ctx.quest.staked as u128 + offeree_staked as u128 {
        return Err(QuestError::EscrowBalanceMismatch);
    }
    let split = match ctx.quest.close_account(&ctx.config, slot) {
        Err(e) => {
            return Err(e);
        },
        Ok(split) => split,
    };
    if ctx.counter.posts_taken == 0 {
        return Err(QuestError::CounterUnderflow);
    }
    if ctx.counter.posts_completed == u64::MAX {
        return Err(QuestError::CounterOverflow);
    }
    let release = Release {
        owner_collateral: ctx.quest.staked,
        offeree_collateral: offeree_staked,
        decay_fee: split.decay_owed,
        placement_refund: split.refund,
    };
    ctx.quest.status = QuestStatus::Complete(Side::Both);
    ctx.counter.posts_taken = ctx.counter.posts_taken - 1;
    ctx.counter.posts_completed = ctx.counter.posts_completed + 1;
    Ok(release)
}

} // verus!
