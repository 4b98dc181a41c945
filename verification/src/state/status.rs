//! The lifecycle state of a quest and its stored four-bit code.

use vstd::prelude::*;

verus! {

/// Which of the two parties stands behind a completion or a dispute.
#[derive(Clone, Copy, Debug, PartialEq, Eq, Structural)]
pub enum Side {
    Owner,
    Offeree,
    Both,
}

/// How a dispute ended.
#[derive(Clone, Copy, Debug, PartialEq, Eq, Structural)]
pub enum Ruling {
    OwnerWon,
    OffereeWon,
    Draw,
}

/// The lifecycle state of a quest.
///
/// Only `Unpublished`, `Open`, `Taken` and `Complete(Both)` are reached by the
/// transitions of this crate. The dispute states are part of the stored
/// encoding and of the aggregate counters, but no transition enters or leaves
/// them: dispute resolution is not implemented.
#[derive(Clone, Copy, Debug, PartialEq, Eq, Structural)]
pub enum QuestStatus {
    /// Created, not yet visible.
    Unpublished,
    /// Published, waiting for a counterparty.
    Open,
    /// Accepted by a counterparty, work in progress.
    Taken,
    /// Completion acknowledged by the named side.
    Complete(Side),
    /// A dispute raised by the named side.
    Dispute(Side),
    /// A dispute that was adjudicated.
    Resolved(Ruling),
}

/// The six categories by which quests are counted. A status belongs to
/// exactly one of them.
#[derive(Clone, Copy, Debug, PartialEq, Eq, Structural)]
pub enum Phase {
    Unpublished,
    Open,
    Taken,
    Complete,
    Dispute,
    Resolved,
}

impl Side {
    /// The two low bits that stand for the side: 1, 2 or 3.
    pub open spec fn bits(self) -> int {
        match self {
            Side::Owner => 1,
            Side::Offeree => 2,
            Side::Both => 3,
        }
    }
}

impl Ruling {
    /// The two low bits that stand for the ruling: 1, 2 or 3.
    pub open spec fn bits(self) -> int {
        match self {
            Ruling::OwnerWon => 1,
            Ruling::OffereeWon => 2,
            Ruling::Draw => 3,
        }
    }
}

impl QuestStatus {
    /// The stored code of the status. Bit 2 marks a completion, bit 3 a
    /// dispute, both together a resolved dispute; the two low bits name the
    /// side or the ruling.
    pub open spec fn code_spec(self) -> int {
        match self {
            QuestStatus::Unpublished => 0,
            QuestStatus::Open => 1,
            QuestStatus::Taken => 3,
            QuestStatus::Complete(side) => 4 + side.bits(),
            QuestStatus::Dispute(side) => 8 + side.bits(),
            QuestStatus::Resolved(ruling) => 12 + ruling.bits(),
        }
    }

    /// The quest has no counterparty yet.
    pub open spec fn before_acceptance(self) -> bool {
        self is Unpublished || self is Open
    }

    /// The category that the status is counted under.
    pub open spec fn phase(self) -> Phase {
        match self {
            QuestStatus::Unpublished => Phase::Unpublished,
            QuestStatus::Open => Phase::Open,
            QuestStatus::Taken => Phase::Taken,
            QuestStatus::Complete(_) => Phase::Complete,
            QuestStatus::Dispute(_) => Phase::Dispute,
            QuestStatus::Resolved(_) => Phase::Resolved,
        }
    }

    /// The quest is published and not yet finished: open, taken or in
    /// dispute.
    pub open spec fn is_active(self) -> bool {
        self is Open || self is Taken || self is Dispute
    }

    /// The stored code of the status.
    pub fn code(&self) -> (c: u8)
        ensures
            c == self.code_spec(),
            c < 16,
    {
        match self {
            QuestStatus::Unpublished => 0,
            QuestStatus::Open => 1,
            QuestStatus::Taken => 3,
            QuestStatus::Complete(Side::Owner) => 5,
            QuestStatus::Complete(Side::Offeree) => 6,
            QuestStatus::Complete(Side::Both) => 7,
            QuestStatus::Dispute(Side::Owner) => 9,
            QuestStatus::Dispute(Side::Offeree) => 10,
            QuestStatus::Dispute(Side::Both) => 11,
            QuestStatus::Resolved(Ruling::OwnerWon) => 13,
            QuestStatus::Resolved(Ruling::OffereeWon) => 14,
            QuestStatus::Resolved(Ruling::Draw) => 15,
        }
    }

    /// The status that a stored code stands for, if it stands for one.
    /// The codes 2, 4, 8, 12 and everything above 15 stand for none.
    pub fn from_code(code: u8) -> (r: Option<QuestStatus>)
        ensures
            match r {
                Some(status) => status.code_spec() == code,
                None => forall|status: QuestStatus| status.code_spec() != code,
            },
    {
        match code {
            0 => Some(QuestStatus::Unpublished),
            1 => Some(QuestStatus::Open),
            3 => Some(QuestStatus::Taken),
            5 => Some(QuestStatus::Complete(Side::Owner)),
            6 => Some(QuestStatus::Complete(Side::Offeree)),
            7 => Some(QuestStatus::Complete(Side::Both)),
            9 => Some(QuestStatus::Dispute(Side::Owner)),
            10 => Some(QuestStatus::Dispute(Side::Offeree)),
            11 => Some(QuestStatus::Dispute(Side::Both)),
            13 => Some(QuestStatus::Resolved(Ruling::OwnerWon)),
            14 => Some(QuestStatus::Resolved(Ruling::OffereeWon)),
            15 => Some(QuestStatus::Resolved(Ruling::Draw)),
            _ => None,
        }
    }
}

/// Two statuses with the same code are the same status: a code decodes
/// uniquely.
pub proof fn lemma_code_is_injective(a: QuestStatus, b: QuestStatus)
    requires
        a.code_spec() == b.code_spec(),
    ensures
        a == b,
{
}

} // verus!
