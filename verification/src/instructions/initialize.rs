//! Initializing the deployment: the registry and the counter are created,
//! once, by the upgrade authority.

use vstd::prelude::*;
use crate::state::address::Address;
use crate::state::config::Config;
use crate::state::counter::Counter;
use crate::state::quest::QuestError;

verus! {

/// The parameters of a deployment.
#[derive(Clone, Copy, Debug, PartialEq, Eq)]
pub struct InitializeParams {
    pub treasury: Address,
    pub token: Address,
    pub base_fee: u64,
    pub decay_fee: u64,
    pub decay_start: u64,
    pub decay_period: u64,
    pub vote_threshold: u64,
    pub dispute_duration: u64,
    pub staked_vote_power_start: u64,
    pub unstaked_vote_unlock_interval: u64,
}

/// What initialization reads of the deployment's program data.
#[derive(Clone, Copy, Debug, PartialEq, Eq)]
pub struct ProgramData {
    /// The identity that may upgrade the deployment, if there is one.
    pub upgrade_authority_address: Option<Address>,
}

/// Nonces of the addresses that are derived for the two singletons.
#[derive(Clone, Copy, Debug, PartialEq, Eq, Structural)]
pub struct InitializeBumps {
    pub config: u8,
    pub counter: u8,
}

/// The accounts that initialization reads and changes.
#[derive(Clone, Copy, Debug, PartialEq, Eq)]
pub struct Initialize {
    /// The registry, `None` while the deployment is not initialized.
    pub config: Option<Config>,
    /// The counter, `None` while the deployment is not initialized.
    pub counter: Option<Counter>,
    /// The party that signed.
    pub authority: Address,
    /// The deployment's program data.
    pub program_data: ProgramData,
    /// Nonces of the derived addresses.
    pub bumps: InitializeBumps,
}

/// Why an initialization is refused, if it is. In this order: a registry or
/// a counter exists already; the signer is not the upgrade authority; the
/// decay period is zero.
pub open spec fn initialize_error(ctx: Initialize, params: InitializeParams) -> Option<QuestError> {
    if ctx.config is Some || ctx.counter is Some {
        Some(QuestError::AlreadyInitialized)
    } else if ctx.program_data.upgrade_authority_address != Some(ctx.authority) {
        Some(QuestError::NotUpgradeAuthority)
    } else if params.decay_period == 0 {
        Some(QuestError::InvalidDecayPeriod)
    } else {
        None
    }
}

/// The registry that an initialization writes: the signer as authority and
/// the parameters as given.
pub open spec fn initial_config(ctx: Initialize, params: InitializeParams) -> Config {
    Config {
        bump: ctx.bumps.config,
        authority: ctx.authority,
        treasury: params.treasury,
        token_mint: params.token,
        base_fee: params.base_fee,
        decay_fee: params.decay_fee,
        decay_start: params.decay_start,
        decay_period: params.decay_period,
        vote_threshold: params.vote_threshold,
        dispute_duration: params.dispute_duration,
        staked_vote_power_start: params.staked_vote_power_start,
        unstaked_vote_unlock_interval: params.unstaked_vote_unlock_interval,
    }
}

/// Initializes the deployment. Afterwards the registry holds the parameters
/// and every count is zero. A second initialization is refused.
pub fn initialize_handler(ctx: &mut Initialize, params: InitializeParams) -> (r: Result<
    (),
    QuestError,
>)
    ensures
        match initialize_error(*old(ctx), params) {
            Some(e) => r == Err::<(), QuestError>(e) && *final(ctx) == *old(ctx),
            None => {
                &&& r == Ok::<(), QuestError>(())
                &&& final(ctx).config == Some(initial_config(*old(ctx), params))
                &&& final(ctx).counter == Some(Counter::zeroed(old(ctx).bumps.counter))
                &&& final(ctx).authority == old(ctx).authority
                &&& final(ctx).program_data == old(ctx).program_data
                &&& final(ctx).bumps == old(ctx).bumps
            },
        },
        r is Ok ==> final(ctx).config->0.wf(),
{
    if ctx.config.is_some() || ctx.counter.is_some() {
        return Err(QuestError::AlreadyInitialized);
    }
    match ctx.program_data.upgrade_authority_address {
        Some(upgrade_authority) => {
            if upgrade_authority != ctx.authority {
                return Err(QuestError::NotUpgradeAuthority);
            }
        },
        None => {
            return Err(QuestError::NotUpgradeAuthority);
        },
    }
    if params.decay_period == 0 {
        return Err(QuestError::InvalidDecayPeriod);
    }
    ctx.config = Some(
        Config {
            bump: ctx.bumps.config,
            authority: ctx.authority,
            treasury: params.treasury,
            token_mint: params.token,
            base_fee: params.base_fee,
            decay_fee: params.decay_fee,
            decay_start: params.decay_start,
            decay_period: params.decay_period,
            vote_threshold: params.vote_threshold,
            dispute_duration: params.dispute_duration,
            staked_vote_power_start: params.staked_vote_power_start,
            unstaked_vote_unlock_interval: params.unstaked_vote_unlock_interval,
        },
    );
    ctx.counter = Some(
        Counter {
            bump: ctx.bumps.counter,
            post_counter: 0,
            posts_open: 0,
            posts_taken: 0,
            posts_completed: 0,
            posts_in_dispute: 0,
            posts_resolved: 0,
        },
    );
    Ok(())
}

} // verus!
