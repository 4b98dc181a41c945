//! The quest record and the failures of its transitions.

use vstd::prelude::*;
use crate::fees::{placement_split, PlacementSplit};
use crate::state::address::Address;
use crate::state::config::{Config, ADDRESS_LEN, DISCRIMINATOR_LEN, WORD_LEN};
use crate::state::status::QuestStatus;

verus! {

/// Why a transition was refused. A refused transition changes nothing and
/// asks for no movement of funds.
#[derive(Clone, Copy, Debug, PartialEq, Eq, Structural)]
pub enum QuestError {
    /// The minimum stake required exceeds the staked amount.
    MinStakeRequiredExceedsStaked,
    /// The party does not hold enough collateral tokens.
    NotEnoughTokenBalance,
    /// The quest is already published.
    QuestAlreadyPublished,
    /// A quest can be updated only while it is unpublished.
    UpdateNotAllowed,
    /// The quest is not open.
    QuestNotOpen,
    /// The quest cannot be closed in its present state.
    CloseNotAllowed,
    /// The offered stake is below the minimum that the quest requires.
    StakeAmountTooLow,
    /// The offered stake is above what the owner staked.
    StakeAmountTooHigh,
    /// The quest cannot be completed in its present state.
    CompleteNotAllowed,
    /// The owner of a quest cannot accept it.
    OwnerCannotAcceptOwnQuest,
    /// The registry exists already.
    AlreadyInitialized,
    /// Only the upgrade authority of the deployment may initialize it.
    NotUpgradeAuthority,
    /// A decay period of zero was given.
    InvalidDecayPeriod,
    /// The signing owner is not the owner of the quest.
    MissingOwnerSignature,
    /// The signing counterparty is not the offeree of the quest.
    MissingOffereeSignature,
    /// The escrow does not hold exactly the two stakes.
    EscrowBalanceMismatch,
    /// An aggregate count would pass its largest value.
    CounterOverflow,
    /// An aggregate count would fall below zero.
    CounterUnderflow,
}

/// One posted quest.
#[derive(Clone, Copy, Debug, PartialEq, Eq)]
pub struct Quest {
    /// Nonce of the derived address at which the record is stored.
    pub bump: u8,
    /// Where the quest stands in its lifecycle.
    pub status: QuestStatus,
    /// The party that created and funded the quest.
    pub owner: Address,
    /// When the quest was created.
    pub timestamp: u64,
    /// Collateral that the owner put into escrow.
    pub staked: u64,
    /// The least collateral a counterparty has to match.
    pub min_stake_required: u64,
    /// Native currency that the owner paid in advance for placement.
    pub placement_paid: u64,
    /// Digest of the title and description, which are kept elsewhere.
    pub details_hash: [u8; 32],
    /// The unique key of the quest, chosen by its creator.
    pub id: Address,
    /// When the quest was accepted.
    pub accepted_timestamp: Option<u64>,
    /// The counterparty that accepted the quest.
    pub offeree: Option<Address>,
    /// Collateral that the offeree put into escrow.
    pub offeree_staked: Option<u64>,
    /// Digest of the proposal made by the offeree.
    pub offeree_proposal_hash: Option<[u8; 32]>,
    /// Dispute votes for the owner.
    pub owner_votes: Option<u64>,
    /// Dispute votes for the offeree.
    pub offeree_votes: Option<u64>,
    /// Dispute votes for neither.
    pub abstained_votes: Option<u64>,
}

impl Quest {
    /// The record carries nothing of a counterparty.
    pub open spec fn unaccepted(&self) -> bool {
        &&& self.accepted_timestamp is None
        &&& self.offeree is None
        &&& self.offeree_staked is None
        &&& self.offeree_proposal_hash is None
    }

    /// The record carries a counterparty other than the owner, whose stake
    /// lies between the required minimum and the owner's stake.
    pub open spec fn accepted(&self) -> bool {
        &&& self.accepted_timestamp is Some
        &&& self.offeree_proposal_hash is Some
        &&& self.offeree matches Some(offeree)
        &&& offeree != self.owner
        &&& self.offeree_staked matches Some(stake)
        &&& self.min_stake_required <= stake <= self.staked
    }

    /// The invariant of a quest record: the required minimum never exceeds
    /// the owner's stake; the counterparty fields are unset before acceptance
    /// and set from acceptance on; no votes are recorded outside a dispute.
    pub open spec fn wf(&self) -> bool {
        &&& self.min_stake_required <= self.staked
        &&& if self.status.before_acceptance() {
            self.unaccepted()
        } else {
            self.accepted()
        }
        &&& !(self.status is Dispute || self.status is Resolved) ==> {
            &&& self.owner_votes is None
            &&& self.offeree_votes is None
            &&& self.abstained_votes is None
        }
    }

    /// The collateral that the escrow of this quest has to hold: the owner's
    /// stake and, once there is one, the offeree's.
    pub open spec fn escrowed(&self) -> int {
        self.staked + match self.offeree_staked {
            Some(stake) => stake as int,
            None => 0,
        }
    }

    /// Bytes that this record takes when stored: the discriminator, the
    /// nonce, the status code, three addresses or digests, four words, and
    /// for each of the seven optional fields one tag byte and, where the
    /// field is set, its value.
    pub open spec fn stored_len(&self) -> nat {
        (DISCRIMINATOR_LEN + 1 + 1 + 3 * ADDRESS_LEN + 4 * WORD_LEN + 7 + (if self.accepted_timestamp
            is Some {
            WORD_LEN
        } else {
            0
        }) + (if self.offeree is Some {
            ADDRESS_LEN
        } else {
            0
        }) + (if self.offeree_staked is Some {
            WORD_LEN
        } else {
            0
        }) + (if self.offeree_proposal_hash is Some {
            ADDRESS_LEN
        } else {
            0
        }) + (if self.owner_votes is Some {
            WORD_LEN
        } else {
            0
        }) + (if self.offeree_votes is Some {
            WORD_LEN
        } else {
            0
        }) + (if self.abstained_votes is Some {
            WORD_LEN
        } else {
            0
        })) as nat
    }

    /// Bytes set aside for a stored quest: room for a record that carries a
    /// counterparty and no votes, which is the largest that the transitions
    /// of this crate write.
    pub open spec fn len_spec() -> nat {
        (DISCRIMINATOR_LEN + 1 + 1 + 3 * ADDRESS_LEN + 4 * WORD_LEN + 2 * (1 + ADDRESS_LEN) + 2 * (1
            + WORD_LEN) + 3) as nat
    }

    /// Bytes set aside for a stored quest.
    pub fn len() -> (n: usize)
        ensures
            n == Self::len_spec(),
            n == 225,
    {
        DISCRIMINATOR_LEN + 1 + 1 + 3 * ADDRESS_LEN + 4 * WORD_LEN + 2 * (1 + ADDRESS_LEN) + 2 * (1
            + WORD_LEN) + 3
    }

    /// How the placement payment of this quest is divided when the record is
    /// closed at time `now`: the decay fee that has accrued goes to the
    /// treasury, the rest back to the owner. Refused where the registry has a
    /// decay period of zero.
    pub fn close_account(&self, config: &Config, now: u64) -> (r: Result<PlacementSplit, QuestError>)
        ensures
            config.decay_period == 0 ==> r == Err::<PlacementSplit, QuestError>(
                QuestError::InvalidDecayPeriod,
            ),
            config.decay_period > 0 ==> r == Ok::<PlacementSplit, QuestError>(
                self.placement_split_spec(*config, now),
            ),
    {
        if config.decay_period == 0 {
            return Err(QuestError::InvalidDecayPeriod);
        }
        Ok(
            placement_split(
                config.decay_fee,
                config.decay_start,
                config.decay_period,
                self.timestamp,
                now,
                self.placement_paid,
            ),
        )
    }

    /// The division of the placement payment at time `now`.
    pub open spec fn placement_split_spec(&self, config: Config, now: u64) -> PlacementSplit {
        crate::fees::split_placement(
            config.decay_fee as int,
            config.decay_start as int,
            config.decay_period as int,
            self.timestamp as int,
            now as int,
            self.placement_paid as int,
        )
    }
}

/// A valid record outside a dispute fits into the bytes set aside for it,
/// and one that carries a counterparty fills them exactly.
pub proof fn lemma_record_fits(quest: Quest)
    requires
        quest.wf(),
        !(quest.status is Dispute || quest.status is Resolved),
    ensures
        quest.stored_len() <= Quest::len_spec(),
        !quest.status.before_acceptance() ==> quest.stored_len() == Quest::len_spec(),
{
}

} // verus!
