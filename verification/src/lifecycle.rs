//! Laws of the lifecycle: what holds across several transitions of one
//! quest.

use vstd::prelude::*;
use crate::escrow::{Balances, Deposit, TokenAccount};
use crate::fees::{lemma_decay_after_whole_periods, lemma_no_decay_within_window};
use crate::instructions::accept_quest::{accept_quest_error, accepted, AcceptQuest, AcceptQuestParams};
use crate::instructions::close_quest::{close_quest_error, close_release, CloseQuest};
use crate::instructions::complete_quest::{
    complete_quest_error,
    completed,
    completion_release,
    CompleteQuest,
};
use crate::instructions::create_quest::{
    create_quest_error,
    created_quest,
    creation_funding,
    CreateQuest,
    CreateQuestParams,
};
use crate::instructions::publish_quest::{publish_quest_error, published, PublishQuest};
use crate::instructions::unpublish_quest::{unpublish_quest_error, unpublished, UnpublishQuest};
use crate::instructions::update_quest::{update_quest_error, updated, UpdateQuest, UpdateQuestParams};
use crate::instructions::update_quest_hash::UpdateQuestHashParams;
use crate::state::address::Address;
use crate::state::counter::Counter;
use crate::state::quest::{Quest, QuestError};
use crate::state::status::{QuestStatus, Side};

verus! {

/// The record's custody holds exactly what the record says: the escrow holds
/// the owner's stake and, once there is one, the offeree's; the record holds
/// the placement payment.
pub open spec fn in_custody(quest: Quest, balances: Balances) -> bool {
    &&& balances.escrow_tokens == quest.escrowed()
    &&& balances.record_native == quest.placement_paid
}

/// Creation fills an empty custody with exactly the owner's stake and the
/// placement payment.
pub proof fn lemma_create_takes_custody(
    ctx: CreateQuest,
    params: CreateQuestParams,
    slot: u64,
    balances: Balances,
)
    requires
        balances.custody_is_empty(),
        create_quest_error(ctx, params) is None,
    ensures
        in_custody(created_quest(ctx, params, slot), balances.fund(creation_funding(ctx, params))),
{
}

/// Publishing, withdrawing, updating and replacing the digest move no funds
/// and leave what the record says of its custody as it was.
pub proof fn lemma_custody_is_kept_without_movement(
    quest: Quest,
    counter: Counter,
    owner: Address,
    params: UpdateQuestParams,
    hash: UpdateQuestHashParams,
    balances: Balances,
)
    requires
        in_custody(quest, balances),
    ensures
        in_custody(published(PublishQuest { quest, counter, owner }).quest, balances),
        in_custody(unpublished(UnpublishQuest { quest, counter, owner }).quest, balances),
        in_custody(updated(UpdateQuest { quest, owner }, params).quest, balances),
        in_custody(Quest { details_hash: hash.details_hash, ..quest }, balances),
{
}

/// Acceptance adds exactly the offeree's stake to the custody.
pub proof fn lemma_accept_keeps_custody(
    ctx: AcceptQuest,
    params: AcceptQuestParams,
    slot: u64,
    balances: Balances,
)
    requires
        ctx.quest.wf(),
        in_custody(ctx.quest, balances),
        accept_quest_error(ctx, params) is None,
    ensures
        in_custody(
            accepted(ctx, params, slot).quest,
            balances.deposit(Deposit { collateral: params.stake_amount }),
        ),
{
}

/// Completion empties the custody and makes both parties whole. Where the
/// custody holds what the record says and the escrow account shows the
/// balance of the ledger, a completion is never refused for a mismatch;
/// it gives each party exactly its own stake back, leaves no token in the
/// escrow and no native currency with the record, and sends what the owner
/// does not get back of the placement payment to the treasury.
pub proof fn lemma_complete_settles_custody(ctx: CompleteQuest, slot: u64, balances: Balances)
    requires
        in_custody(ctx.quest, balances),
        ctx.escrow_token_account.amount == balances.escrow_tokens,
    ensures
        complete_quest_error(ctx) != Some(QuestError::EscrowBalanceMismatch),
        complete_quest_error(ctx) is None ==> ({
            let release = completion_release(ctx, slot);
            let after = balances.release(release);
            &&& after.custody_is_empty()
            &&& after.owner_tokens == balances.owner_tokens + ctx.quest.staked
            &&& after.offeree_tokens == balances.offeree_tokens + ctx.quest.offeree_staked->0
            &&& after.owner_native + after.treasury_native == balances.owner_native
                + balances.treasury_native + ctx.quest.placement_paid
            &&& after.treasury_native == balances.treasury_native + release.decay_fee
        }),
{
}

/// A close empties the custody in favour of the owner. Where the custody
/// holds what the record says and the escrow account shows the balance of
/// the ledger, the owner of an unaccepted quest gets its whole stake back,
/// nothing stays in the escrow or with the record, and what the owner does
/// not get back of the placement payment goes to the treasury.
pub proof fn lemma_close_settles_custody(ctx: CloseQuest, slot: u64, balances: Balances)
    requires
        ctx.quest.wf(),
        in_custody(ctx.quest, balances),
        ctx.escrow_token_account.amount == balances.escrow_tokens,
        close_quest_error(ctx) is None,
    ensures
        ({
            let release = close_release(ctx, slot);
            let after = balances.release(release);
            &&& release.owner_collateral == ctx.quest.staked
            &&& after.custody_is_empty()
            &&& after.owner_tokens == balances.owner_tokens + ctx.quest.staked
            &&& after.offeree_tokens == balances.offeree_tokens
            &&& after.owner_native + after.treasury_native == balances.owner_native
                + balances.treasury_native + ctx.quest.placement_paid
            &&& after.treasury_native == balances.treasury_native + release.decay_fee
        }),
{
}

/// A close before the delay and one whole decay period have passed gives the
/// whole placement payment back.
pub proof fn lemma_close_before_decay_refunds_all(ctx: CloseQuest, slot: u64)
    requires
        ctx.config.decay_period > 0,
        slot - ctx.quest.timestamp - ctx.config.decay_start < ctx.config.decay_period,
    ensures
        close_release(ctx, slot).decay_fee == 0,
        close_release(ctx, slot).placement_refund == ctx.quest.placement_paid,
{
    lemma_no_decay_within_window(
        ctx.config.decay_fee,
        ctx.config.decay_start,
        ctx.config.decay_period,
        ctx.quest.timestamp,
        slot,
        ctx.quest.placement_paid,
    );
}

/// A close after `n` whole decay periods beyond the delay sends `n` times
/// the decay fee to the treasury, or the whole placement payment where that
/// is less, and the rest back to the owner.
pub proof fn lemma_close_after_periods_deducts_decay(ctx: CloseQuest, slot: u64, n: nat)
    requires
        ctx.config.decay_period > 0,
        n * ctx.config.decay_period <= slot - ctx.quest.timestamp - ctx.config.decay_start < (n
            + 1) * ctx.config.decay_period,
    ensures
        ({
            let release = close_release(ctx, slot);
            &&& n * ctx.config.decay_fee <= ctx.quest.placement_paid ==> release.decay_fee == n
                * ctx.config.decay_fee
            &&& n * ctx.config.decay_fee >= ctx.quest.placement_paid ==> release.decay_fee
                == ctx.quest.placement_paid
            &&& release.placement_refund == ctx.quest.placement_paid - release.decay_fee
        }),
{
    lemma_decay_after_whole_periods(
        ctx.config.decay_fee,
        ctx.config.decay_start,
        ctx.config.decay_period,
        ctx.quest.timestamp,
        slot,
        ctx.quest.placement_paid,
        n,
    );
}

/// Of two acceptances of one open quest, whichever comes first wins and the
/// other is refused because the quest is no longer open: the record is never
/// accepted twice, and only one stake is asked for. The owner co-signs both
/// attempts.
pub proof fn lemma_accept_is_exclusive(
    first: AcceptQuest,
    first_params: AcceptQuestParams,
    first_slot: u64,
    second: AcceptQuest,
    second_params: AcceptQuestParams,
)
    requires
        accept_quest_error(first, first_params) is None,
        second.quest == accepted(first, first_params, first_slot).quest,
        second.owner == first.owner,
    ensures
        accept_quest_error(second, second_params) == Some(QuestError::QuestNotOpen),
        second.quest.offeree == Some(first.offeree),
        second.quest.offeree_staked == Some(first_params.stake_amount),
{
}

/// Once a quest has an offeree, no transition changes who it is or what it
/// staked.
pub proof fn lemma_offeree_is_permanent(
    quest: Quest,
    counter: Counter,
    owner: Address,
    offeree: Address,
    token_account: TokenAccount,
    config: crate::state::config::Config,
    update_params: UpdateQuestParams,
    accept_params: AcceptQuestParams,
    slot: u64,
)
    requires
        quest.wf(),
        quest.offeree is Some,
    ensures
        ({
            let publish = PublishQuest { quest, counter, owner };
            publish_quest_error(publish) is None ==> published(publish).quest.offeree
                == quest.offeree
        }),
        ({
            let unpublish = UnpublishQuest { quest, counter, owner };
            unpublish_quest_error(unpublish) is None ==> unpublished(unpublish).quest.offeree
                == quest.offeree
        }),
        ({
            let update = UpdateQuest { quest, owner };
            update_quest_error(update, update_params) is None ==> updated(
                update,
                update_params,
            ).quest.offeree == quest.offeree
        }),
        ({
            let accept = AcceptQuest {
                quest,
                offeree_token_account: token_account,
                counter,
                offeree,
                owner,
            };
            accept_quest_error(accept, accept_params) is Some
        }),
        ({
            let complete = CompleteQuest {
                quest,
                escrow_token_account: token_account,
                config,
                counter,
                owner,
                offeree,
            };
            complete_quest_error(complete) is None ==> completed(complete).quest.offeree
                == quest.offeree && completed(complete).quest.offeree_staked
                == quest.offeree_staked
        }),
{
}

/// Where a quest and the funds around it stand at the end of a run.
pub struct Outcome {
    /// The record as the last transition left it.
    pub quest: Quest,
    /// The aggregate counter.
    pub counter: Counter,
    /// The balances on the ledger.
    pub balances: Balances,
    /// The decay fee that the last transition sent to the treasury.
    pub decay_fee: u64,
}

/// The run create, publish, unpublish, publish, accept, complete of one
/// quest, each transition on what the one before left, each movement
/// performed on the ledger: the outcome if every transition is granted,
/// `None` if one is refused. The escrow account that the completion is shown
/// carries the balance `escrow_seen`.
pub open spec fn round_trip(
    create: CreateQuest,
    params: CreateQuestParams,
    created_at: u64,
    counter: Counter,
    offeree: Address,
    offeree_token_account: TokenAccount,
    accept_params: AcceptQuestParams,
    accepted_at: u64,
    escrow_seen: u64,
    completed_at: u64,
    balances: Balances,
) -> Option<Outcome> {
    let owner = create.owner;
    let funded = balances.fund(creation_funding(create, params));
    let first = PublishQuest { quest: created_quest(create, params, created_at), counter, owner };
    let withdrawn = UnpublishQuest {
        quest: published(first).quest,
        counter: published(first).counter,
        owner,
    };
    let second = PublishQuest {
        quest: unpublished(withdrawn).quest,
        counter: unpublished(withdrawn).counter,
        owner,
    };
    let accept = AcceptQuest {
        quest: published(second).quest,
        offeree_token_account,
        counter: published(second).counter,
        offeree,
        owner,
    };
    let deposited = funded.deposit(Deposit { collateral: accept_params.stake_amount });
    let complete = CompleteQuest {
        quest: accepted(accept, accept_params, accepted_at).quest,
        escrow_token_account: TokenAccount { amount: escrow_seen },
        config: create.config,
        counter: accepted(accept, accept_params, accepted_at).counter,
        owner,
        offeree,
    };
    let release = completion_release(complete, completed_at);
    if create_quest_error(create, params) is None && publish_quest_error(first) is None
        && unpublish_quest_error(withdrawn) is None && publish_quest_error(second) is None
        && accept_quest_error(accept, accept_params) is None && complete_quest_error(complete)
        is None {
        Some(
            Outcome {
                quest: completed(complete).quest,
                counter: completed(complete).counter,
                balances: deposited.release(release),
                decay_fee: release.decay_fee,
            },
        )
    } else {
        None
    }
}

/// A full round trip leaves nobody short of collateral. After create,
/// publish, unpublish, publish, accept and complete, on a custody that was
/// empty before, the owner and the offeree hold exactly the tokens they held
/// before the creation, the escrow holds none, and the record holds no
/// native currency. The owner has paid the base fee and the decay fee that
/// accrued between creation and completion, and nothing else; the treasury
/// has received exactly those two. The quest is complete, signed by both
/// sides; as many quests are open and taken as before, and one more is
/// completed.
pub proof fn lemma_round_trip_makes_whole(
    create: CreateQuest,
    params: CreateQuestParams,
    created_at: u64,
    counter: Counter,
    offeree: Address,
    offeree_token_account: TokenAccount,
    accept_params: AcceptQuestParams,
    accepted_at: u64,
    escrow_seen: u64,
    completed_at: u64,
    balances: Balances,
)
    requires
        balances.custody_is_empty(),
        round_trip(
            create,
            params,
            created_at,
            counter,
            offeree,
            offeree_token_account,
            accept_params,
            accepted_at,
            escrow_seen,
            completed_at,
            balances,
        ) is Some,
    ensures
        ({
            let end = round_trip(
                create,
                params,
                created_at,
                counter,
                offeree,
                offeree_token_account,
                accept_params,
                accepted_at,
                escrow_seen,
                completed_at,
                balances,
            )->0;
            &&& end.balances.owner_tokens == balances.owner_tokens
            &&& end.balances.offeree_tokens == balances.offeree_tokens
            &&& end.balances.custody_is_empty()
            &&& end.balances.owner_native == balances.owner_native - create.config.base_fee
                - end.decay_fee
            &&& end.balances.treasury_native == balances.treasury_native + create.config.base_fee
                + end.decay_fee
            &&& end.decay_fee == created_quest(create, params, created_at).placement_split_spec(
                create.config,
                completed_at,
            ).decay_owed
            &&& end.quest.status == QuestStatus::Complete(Side::Both)
            &&& end.counter.posts_open == counter.posts_open
            &&& end.counter.posts_taken == counter.posts_taken
            &&& end.counter.posts_completed == counter.posts_completed + 1
        }),
{
}

/// A full round trip is granted wherever each of its steps is due: the
/// owner holds the stake and asks for no more than it as minimum; the offeree
/// is another party, holds the minimum, and stakes between the minimum and
/// the owner's stake; the escrow account shows the two stakes at completion;
/// the registry has a decay period; and none of the three counts that the
/// run raises stands at the largest value a count can hold.
pub proof fn lemma_round_trip_is_granted(
    create: CreateQuest,
    params: CreateQuestParams,
    created_at: u64,
    counter: Counter,
    offeree: Address,
    offeree_token_account: TokenAccount,
    accept_params: AcceptQuestParams,
    accepted_at: u64,
    escrow_seen: u64,
    completed_at: u64,
    balances: Balances,
)
    requires
        create.owner_token_account.amount >= params.stake_amount,
        params.min_stake_required <= params.stake_amount,
        offeree != create.owner,
        offeree_token_account.amount >= params.min_stake_required,
        params.min_stake_required <= accept_params.stake_amount <= params.stake_amount,
        escrow_seen == params.stake_amount + accept_params.stake_amount,
        create.config.decay_period > 0,
        counter.posts_open < u64::MAX,
        counter.posts_taken < u64::MAX,
        counter.posts_completed < u64::MAX,
    ensures
        round_trip(
            create,
            params,
            created_at,
            counter,
            offeree,
            offeree_token_account,
            accept_params,
            accepted_at,
            escrow_seen,
            completed_at,
            balances,
        ) is Some,
{
}

} // verus!
