//! The configuration registry: protocol-wide parameters and privileged
//! addresses. One instance exists per deployment.

use vstd::prelude::*;
use crate::state::address::Address;

verus! {

/// Bytes that precede every stored record and tell its kind.
pub const DISCRIMINATOR_LEN: usize = 8;

/// Bytes of a stored address or digest.
pub const ADDRESS_LEN: usize = 32;

/// Bytes of a stored amount, time or count.
pub const WORD_LEN: usize = 8;

/// Bytes kept free at the end of a singleton record for later additions.
pub const RESERVED_LEN: usize = 128;

/// Protocol-wide parameters. Written once, when the registry is initialized.
#[derive(Clone, Copy, Debug, PartialEq, Eq)]
pub struct Config {
    /// Nonce of the derived address at which the registry is stored.
    pub bump: u8,
    /// The identity that may administer the registry.
    pub authority: Address,
    /// Where collected fees go.
    pub treasury: Address,
    /// The token that is accepted as collateral.
    pub token_mint: Address,
    /// Fee paid to the treasury when a quest is created.
    pub base_fee: u64,
    /// Fee that accrues per decay period once a quest has lingered.
    pub decay_fee: u64,
    /// Time after creation before the decay fee begins to accrue.
    pub decay_start: u64,
    /// Length of one decay period. Never zero in a valid registry.
    pub decay_period: u64,
    /// Vote threshold of the dispute extension.
    pub vote_threshold: u64,
    /// How long a dispute may stay open.
    pub dispute_duration: u64,
    /// Time before staked vote power counts.
    pub staked_vote_power_start: u64,
    /// Interval at which unstaked votes unlock.
    pub unstaked_vote_unlock_interval: u64,
}

impl Config {
    /// A registry is valid when its decay period is not zero, so that the
    /// number of elapsed periods is defined.
    pub open spec fn wf(&self) -> bool {
        self.decay_period > 0
    }

    /// Bytes set aside for the stored registry: the discriminator, the nonce,
    /// three addresses, twelve words and the reserve. Eight of the words hold
    /// the parameters; four are kept free next to the reserve.
    pub open spec fn len_spec() -> nat {
        (DISCRIMINATOR_LEN + 1 + 3 * ADDRESS_LEN + 12 * WORD_LEN + RESERVED_LEN) as nat
    }

    /// Bytes that the registry holds when stored, the reserve included.
    pub open spec fn stored_len() -> nat {
        (DISCRIMINATOR_LEN + 1 + 3 * ADDRESS_LEN + 8 * WORD_LEN + RESERVED_LEN) as nat
    }

    /// Bytes set aside for the stored registry. The registry fits.
    pub fn len() -> (n: usize)
        ensures
            n == Self::len_spec(),
            n == 329,
            Self::stored_len() <= n,
    {
        DISCRIMINATOR_LEN + 1 + 3 * ADDRESS_LEN + 12 * WORD_LEN + RESERVED_LEN
    }
}

} // verus!
