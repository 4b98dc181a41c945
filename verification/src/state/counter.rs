//! The aggregate counter: how many quests stand in each phase.

use vstd::prelude::*;
use crate::state::config::{DISCRIMINATOR_LEN, RESERVED_LEN, WORD_LEN};

verus! {

/// Global counts of quests by phase. One instance exists per deployment.
#[derive(Clone, Copy, Debug, PartialEq, Eq)]
pub struct Counter {
    /// Nonce of the derived address at which the counter is stored.
    pub bump: u8,
    /// Source of quest identifiers where they are derived and not supplied.
    pub post_counter: u64,
    /// Quests that are open.
    pub posts_open: u64,
    /// Quests that are taken.
    pub posts_taken: u64,
    /// Quests that were completed. Resolved disputes do not count.
    pub posts_completed: u64,
    /// Quests in dispute.
    pub posts_in_dispute: u64,
    /// Quests whose dispute was resolved.
    pub posts_resolved: u64,
}

impl Counter {
    /// The counter of a fresh deployment: every count is zero.
    pub open spec fn zeroed(bump: u8) -> Counter {
        Counter {
            bump,
            post_counter: 0,
            posts_open: 0,
            posts_taken: 0,
            posts_completed: 0,
            posts_in_dispute: 0,
            posts_resolved: 0,
        }
    }

    /// Bytes that a stored counter takes: the discriminator, the nonce, six
    /// words and the reserve.
    pub open spec fn len_spec() -> nat {
        (DISCRIMINATOR_LEN + 1 + 6 * WORD_LEN + RESERVED_LEN) as nat
    }

    /// Bytes that a stored counter takes.
    pub fn len() -> (n: usize)
        ensures
            n == Self::len_spec(),
            n == 185,
    {
        DISCRIMINATOR_LEN + 1 + 6 * WORD_LEN + RESERVED_LEN
    }
}

} // verus!
