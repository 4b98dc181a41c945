//! Closing a quest that nobody accepted: the owner takes back the collateral
//! and what is left of the placement payment.

use vstd::prelude::*;
use crate::escrow::{Release, TokenAccount};
use crate::state::address::Address;
use crate::state::config::Config;
use crate::state::quest::{Quest, QuestError};
use crate::state::status::QuestStatus;

verus! {

/// The accounts that closing a quest reads.
#[derive(Clone, Copy, Debug, PartialEq, Eq)]
pub struct CloseQuest {
    /// The record to close.
    pub quest: Quest,
    /// The escrow of the record.
    pub escrow_token_account: TokenAccount,
    /// The registry.
    pub config: Config,
    /// The party that signed as owner.
    pub owner: Address,
}

/// Why a close is refused, if it is: the signer is not the owner of the
/// quest; or the quest is not unpublished; or the registry has no valid decay
/// period.
///
/// A complete quest is refused like every other published one. Completion
/// has already released both stakes and the placement payment and ended the
/// record; a close after it would divide the same placement payment a second
/// time.
pub open spec fn close_quest_error(ctx: CloseQuest) -> Option<QuestError> {
    if ctx.quest.owner != ctx.owner {
        Some(QuestError::MissingOwnerSignature)
    } else if !(ctx.quest.status is Unpublished) {
        Some(QuestError::CloseNotAllowed)
    } else if ctx.config.decay_period == 0 {
        Some(QuestError::InvalidDecayPeriod)
    } else {
        None
    }
}

/// What a close at time `slot` releases: everything that the escrow holds
/// goes to the owner, nothing to a counterparty, and the placement payment is
/// divided between the treasury and the owner by the time the quest lingered.
pub open spec fn close_release(ctx: CloseQuest, slot: u64) -> Release {
    let split = ctx.quest.placement_split_spec(ctx.config, slot);
    Release {
        owner_collateral: ctx.escrow_token_account.amount,
        offeree_collateral: 0,
        decay_fee: split.decay_owed,
        placement_refund: split.refund,
    }
}

/// Closes an unpublished quest at time `slot`. Returns what has to leave the
/// custody of the record before it is destroyed. No counter changes: an
/// unpublished quest is counted nowhere.
pub fn close_quest_handler(ctx: &CloseQuest, slot: u64) -> (r: Result<Release, QuestError>)
    ensures
        match close_quest_error(*ctx) {
            Some(e) => r == Err::<Release, QuestError>(e),
            None => r == Ok::<Release, QuestError>(close_release(*ctx, slot)),
        },
        r matches Ok(release) ==> {
            &&& release.owner_collateral == ctx.escrow_token_account.amount
            &&& release.offeree_collateral == 0
            &&& release.decay_fee + release.placement_refund == ctx.quest.placement_paid
        },
{
    if ctx.quest.owner != ctx.owner {
        return Err(QuestError::MissingOwnerSignature);
    }
    match ctx.quest.status {
        QuestStatus::Unpublished => {},
        _ => {
            return Err(QuestError::CloseNotAllowed);
        },
    }
    match ctx.quest.close_account(&ctx.config, slot) {
        Err(e) => Err(e),
        Ok(split) => Ok(
            Release {
                owner_collateral: ctx.escrow_token_account.amount,
                offeree_collateral: 0,
                decay_fee: split.decay_owed,
                placement_refund: split.refund,
            },
        ),
    }
}

} // verus!
