//! The board: every live quest, and the aggregate counter kept over them.
//!
//! The board is a model. The records themselves live in a keyed store that is
//! not part of this crate; a record is on the board from its creation until
//! it is closed or completed. What is proved here is that the counter, which
//! every transition adjusts by looking at one record only, always agrees with
//! a count over all of them.

use vstd::prelude::*;
use vstd::set_lib::lemma_set_disjoint_lens;
use crate::instructions::accept_quest::{
    accept_quest_error,
    accepted,
    stake_is_judged,
    AcceptQuest,
    AcceptQuestParams,
};
use crate::instructions::close_quest::{close_quest_error, CloseQuest};
use crate::instructions::complete_quest::{
    complete_quest_error,
    completed,
    completion_release,
    CompleteQuest,
};
use crate::instructions::create_quest::{
    create_quest_error,
    created_quest,
    CreateQuest,
    CreateQuestParams,
};
use crate::instructions::initialize::{initialize_error, Initialize, InitializeParams};
use crate::instructions::publish_quest::{publish_quest_error, published, PublishQuest};
use crate::instructions::unpublish_quest::{unpublish_quest_error, unpublished, UnpublishQuest};
use crate::instructions::update_quest::{update_quest_error, updated, UpdateQuest, UpdateQuestParams};
use crate::instructions::update_quest_hash::{UpdateQuestHash, UpdateQuestHashParams};
use crate::state::address::Address;
use crate::state::counter::Counter;
use crate::state::quest::{Quest, QuestError};
use crate::state::status::Phase;

verus! {

/// The keys of the quests on the board that stand in `phase`.
pub open spec fn quests_in(quests: Map<Address, Quest>, phase: Phase) -> Set<Address> {
    Set::new(|id: Address| quests.dom().contains(id) && quests[id].status.phase() == phase)
}

/// The keys of the quests on the board that are open, taken or in dispute.
pub open spec fn active_quests(quests: Map<Address, Quest>) -> Set<Address> {
    Set::new(|id: Address| quests.dom().contains(id) && quests[id].status.is_active())
}

/// The counter agrees with the board: it counts as open exactly the open
/// quests, as taken exactly the taken ones, and as in dispute exactly the
/// disputed ones.
pub open spec fn tallied(quests: Map<Address, Quest>, counter: Counter) -> bool {
    &&& quests.dom().finite()
    &&& counter.posts_open == quests_in(quests, Phase::Open).len()
    &&& counter.posts_taken == quests_in(quests, Phase::Taken).len()
    &&& counter.posts_in_dispute == quests_in(quests, Phase::Dispute).len()
}

/// One if the board holds a quest under `id` that stands in `phase`, else
/// zero.
pub open spec fn counted(quests: Map<Address, Quest>, id: Address, phase: Phase) -> int {
    if quests.dom().contains(id) && quests[id].status.phase() == phase {
        1
    } else {
        0
    }
}

proof fn lemma_phase_is_finite(quests: Map<Address, Quest>, phase: Phase)
    requires
        quests.dom().finite(),
    ensures
        quests_in(quests, phase).finite(),
        quests_in(quests, phase).len() <= quests.dom().len(),
{
    assert(quests_in(quests, phase).subset_of(quests.dom()));
    vstd::set_lib::lemma_len_subset(quests_in(quests, phase), quests.dom());
}

/// Putting a record on the board under `id` changes the count of a phase by
/// what the old record under `id` took from it and the new one adds to it.
proof fn lemma_put(quests: Map<Address, Quest>, id: Address, quest: Quest, phase: Phase)
    requires
        quests.dom().finite(),
    ensures
        quests.insert(id, quest).dom().finite(),
        quests_in(quests.insert(id, quest), phase).len() == quests_in(quests, phase).len()
            - counted(quests, id, phase) + (if quest.status.phase() == phase {
            1int
        } else {
            0int
        }),
{
    let before = quests_in(quests, phase);
    let after = quests_in(quests.insert(id, quest), phase);
    lemma_phase_is_finite(quests, phase);
    if quest.status.phase() == phase {
        assert(after =~= before.insert(id));
    } else {
        assert(after =~= before.remove(id));
    }
}

/// Taking the record under `id` off the board lowers the count of the phase
/// it stood in by one and leaves the others.
proof fn lemma_take(quests: Map<Address, Quest>, id: Address, phase: Phase)
    requires
        quests.dom().finite(),
    ensures
        quests.remove(id).dom().finite(),
        quests_in(quests.remove(id), phase).len() == quests_in(quests, phase).len() - counted(
            quests,
            id,
            phase,
        ),
{
    let before = quests_in(quests, phase);
    let after = quests_in(quests.remove(id), phase);
    lemma_phase_is_finite(quests, phase);
    assert(after =~= before.remove(id));
}

/// On a board that the counter agrees with, the three counts add up to the
/// number of quests that are published and not yet finished. That number is
/// the number of all live quests exactly when none of them is unpublished,
/// complete or resolved.
pub proof fn lemma_counts_sum_to_active_quests(quests: Map<Address, Quest>, counter: Counter)
    requires
        tallied(quests, counter),
    ensures
        counter.posts_open + counter.posts_taken + counter.posts_in_dispute == active_quests(
            quests,
        ).len(),
        active_quests(quests).len() <= quests.dom().len(),
        (forall|id: Address| quests.dom().contains(id) ==> quests[id].status.is_active())
            ==> counter.posts_open + counter.posts_taken + counter.posts_in_dispute
            == quests.dom().len(),
{
    let open = quests_in(quests, Phase::Open);
    let taken = quests_in(quests, Phase::Taken);
    let disputed = quests_in(quests, Phase::Dispute);
    lemma_phase_is_finite(quests, Phase::Open);
    lemma_phase_is_finite(quests, Phase::Taken);
    lemma_phase_is_finite(quests, Phase::Dispute);
    assert(open.disjoint(taken));
    lemma_set_disjoint_lens(open, taken);
    assert((open + taken).disjoint(disputed));
    lemma_set_disjoint_lens(open + taken, disputed);
    assert(active_quests(quests) =~= open + taken + disputed);
    assert(active_quests(quests).subset_of(quests.dom()));
    vstd::set_lib::lemma_len_subset(active_quests(quests), quests.dom());
    if forall|id: Address| quests.dom().contains(id) ==> quests[id].status.is_active() {
        assert(active_quests(quests) =~= quests.dom());
    }
}

/// On a board that the counter agrees with, an open quest finds the count of
/// open quests above zero, and a taken quest the count of taken quests: no
/// transition of a quest on the board fails for want of a count.
pub proof fn lemma_counts_cover_the_quest(quests: Map<Address, Quest>, counter: Counter, id: Address)
    requires
        tallied(quests, counter),
        quests.dom().contains(id),
    ensures
        quests[id].status is Open ==> counter.posts_open > 0,
        quests[id].status is Taken ==> counter.posts_taken > 0,
        quests[id].status is Dispute ==> counter.posts_in_dispute > 0,
{
    lemma_phase_is_finite(quests, Phase::Open);
    lemma_phase_is_finite(quests, Phase::Taken);
    lemma_phase_is_finite(quests, Phase::Dispute);
    if quests[id].status is Open {
        assert(quests_in(quests, Phase::Open).contains(id));
    }
    if quests[id].status is Taken {
        assert(quests_in(quests, Phase::Taken).contains(id));
    }
    if quests[id].status is Dispute {
        assert(quests_in(quests, Phase::Dispute).contains(id));
    }
}

/// Creation keeps the counter in agreement: a new unpublished quest is put
/// on the board and no count changes.
pub proof fn lemma_create_keeps_tally(
    quests: Map<Address, Quest>,
    counter: Counter,
    ctx: CreateQuest,
    params: CreateQuestParams,
    slot: u64,
)
    requires
        tallied(quests, counter),
        !quests.dom().contains(ctx.id),
        create_quest_error(ctx, params) is None,
    ensures
        tallied(quests.insert(ctx.id, created_quest(ctx, params, slot)), counter),
{
    let quest = created_quest(ctx, params, slot);
    lemma_put(quests, ctx.id, quest, Phase::Open);
    lemma_put(quests, ctx.id, quest, Phase::Taken);
    lemma_put(quests, ctx.id, quest, Phase::Dispute);
}

/// Publication keeps the counter in agreement.
pub proof fn lemma_publish_keeps_tally(quests: Map<Address, Quest>, ctx: PublishQuest)
    requires
        tallied(quests, ctx.counter),
        quests.dom().contains(ctx.quest.id),
        quests[ctx.quest.id] == ctx.quest,
        publish_quest_error(ctx) is None,
    ensures
        tallied(quests.insert(ctx.quest.id, published(ctx).quest), published(ctx).counter),
{
    let quest = published(ctx).quest;
    lemma_put(quests, ctx.quest.id, quest, Phase::Open);
    lemma_put(quests, ctx.quest.id, quest, Phase::Taken);
    lemma_put(quests, ctx.quest.id, quest, Phase::Dispute);
}

/// Withdrawal keeps the counter in agreement, and on such a board it never
/// fails for want of a count.
pub proof fn lemma_unpublish_keeps_tally(quests: Map<Address, Quest>, ctx: UnpublishQuest)
    requires
        tallied(quests, ctx.counter),
        quests.dom().contains(ctx.quest.id),
        quests[ctx.quest.id] == ctx.quest,
    ensures
        unpublish_quest_error(ctx) != Some(QuestError::CounterUnderflow),
        unpublish_quest_error(ctx) is None ==> tallied(
            quests.insert(ctx.quest.id, unpublished(ctx).quest),
            unpublished(ctx).counter,
        ),
{
    let quest = unpublished(ctx).quest;
    lemma_counts_cover_the_quest(quests, ctx.counter, ctx.quest.id);
    lemma_put(quests, ctx.quest.id, quest, Phase::Open);
    lemma_put(quests, ctx.quest.id, quest, Phase::Taken);
    lemma_put(quests, ctx.quest.id, quest, Phase::Dispute);
}

/// An update keeps the counter in agreement: the status stays and no count
/// changes.
pub proof fn lemma_update_keeps_tally(
    quests: Map<Address, Quest>,
    counter: Counter,
    ctx: UpdateQuest,
    params: UpdateQuestParams,
)
    requires
        tallied(quests, counter),
        quests.dom().contains(ctx.quest.id),
        quests[ctx.quest.id] == ctx.quest,
        update_quest_error(ctx, params) is None,
    ensures
        tallied(quests.insert(ctx.quest.id, updated(ctx, params).quest), counter),
{
    let quest = updated(ctx, params).quest;
    lemma_put(quests, ctx.quest.id, quest, Phase::Open);
    lemma_put(quests, ctx.quest.id, quest, Phase::Taken);
    lemma_put(quests, ctx.quest.id, quest, Phase::Dispute);
}

/// Acceptance keeps the counter in agreement, and on such a board it never
/// fails for want of a count.
pub proof fn lemma_accept_keeps_tally(
    quests: Map<Address, Quest>,
    ctx: AcceptQuest,
    params: AcceptQuestParams,
    slot: u64,
)
    requires
        tallied(quests, ctx.counter),
        quests.dom().contains(ctx.quest.id),
        quests[ctx.quest.id] == ctx.quest,
    ensures
        accept_quest_error(ctx, params) != Some(QuestError::CounterUnderflow),
        accept_quest_error(ctx, params) is None ==> tallied(
            quests.insert(ctx.quest.id, accepted(ctx, params, slot).quest),
            accepted(ctx, params, slot).counter,
        ),
{
    let quest = accepted(ctx, params, slot).quest;
    lemma_counts_cover_the_quest(quests, ctx.counter, ctx.quest.id);
    lemma_put(quests, ctx.quest.id, quest, Phase::Open);
    lemma_put(quests, ctx.quest.id, quest, Phase::Taken);
    lemma_put(quests, ctx.quest.id, quest, Phase::Dispute);
}

/// Completion keeps the counter in agreement: the record leaves the board
/// and one quest fewer is taken. On such a board it never fails for want of
/// a count.
pub proof fn lemma_complete_keeps_tally(quests: Map<Address, Quest>, ctx: CompleteQuest)
    requires
        tallied(quests, ctx.counter),
        quests.dom().contains(ctx.quest.id),
        quests[ctx.quest.id] == ctx.quest,
    ensures
        complete_quest_error(ctx) != Some(QuestError::CounterUnderflow),
        complete_quest_error(ctx) is None ==> tallied(
            quests.remove(ctx.quest.id),
            completed(ctx).counter,
        ),
{
    lemma_counts_cover_the_quest(quests, ctx.counter, ctx.quest.id);
    lemma_take(quests, ctx.quest.id, Phase::Open);
    lemma_take(quests, ctx.quest.id, Phase::Taken);
    lemma_take(quests, ctx.quest.id, Phase::Dispute);
}

/// A close keeps the counter in agreement: an unpublished record leaves the
/// board and no count changes.
pub proof fn lemma_close_keeps_tally(quests: Map<Address, Quest>, counter: Counter, ctx: CloseQuest)
    requires
        tallied(quests, counter),
        quests.dom().contains(ctx.quest.id),
        quests[ctx.quest.id] == ctx.quest,
        close_quest_error(ctx) is None,
    ensures
        tallied(quests.remove(ctx.quest.id), counter),
{
    lemma_take(quests, ctx.quest.id, Phase::Open);
    lemma_take(quests, ctx.quest.id, Phase::Taken);
    lemma_take(quests, ctx.quest.id, Phase::Dispute);
}

/// The board of a fresh deployment, with no quest on it, agrees with the
/// zeroed counter.
pub proof fn lemma_empty_board_is_tallied(bump: u8)
    ensures
        tallied(Map::<Address, Quest>::empty(), Counter::zeroed(bump)),
{
    let quests = Map::<Address, Quest>::empty();
    assert(quests_in(quests, Phase::Open) =~= Set::<Address>::empty());
    assert(quests_in(quests, Phase::Taken) =~= Set::<Address>::empty());
    assert(quests_in(quests, Phase::Dispute) =~= Set::<Address>::empty());
}

/// Replacing the digest keeps the counter in agreement: the status stays
/// and no count changes.
pub proof fn lemma_update_hash_keeps_tally(
    quests: Map<Address, Quest>,
    counter: Counter,
    ctx: UpdateQuestHash,
    params: UpdateQuestHashParams,
)
    requires
        tallied(quests, counter),
        quests.dom().contains(ctx.quest.id),
        quests[ctx.quest.id] == ctx.quest,
    ensures
        tallied(
            quests.insert(ctx.quest.id, Quest { details_hash: params.details_hash, ..ctx.quest }),
            counter,
        ),
{
    let quest = Quest { details_hash: params.details_hash, ..ctx.quest };
    lemma_put(quests, ctx.quest.id, quest, Phase::Open);
    lemma_put(quests, ctx.quest.id, quest, Phase::Taken);
    lemma_put(quests, ctx.quest.id, quest, Phase::Dispute);
}

/// A fresh deployment starts in agreement. Where neither registry nor
/// counter exists, the upgrade authority signs and the decay period is not
/// zero, initialization is granted; it leaves a counter whose every count is
/// zero, which agrees with the board that holds no quest yet.
pub proof fn lemma_fresh_deployment_is_tallied(ctx: Initialize, params: InitializeParams)
    requires
        ctx.config is None,
        ctx.counter is None,
        ctx.program_data.upgrade_authority_address == Some(ctx.authority),
        params.decay_period > 0,
    ensures
        initialize_error(ctx, params) is None,
        ({
            let counter = Counter::zeroed(ctx.bumps.counter);
            &&& counter.post_counter == 0
            &&& counter.posts_open == 0
            &&& counter.posts_taken == 0
            &&& counter.posts_completed == 0
            &&& counter.posts_in_dispute == 0
            &&& counter.posts_resolved == 0
            &&& tallied(Map::<Address, Quest>::empty(), counter)
            &&& counter.posts_open + counter.posts_taken + counter.posts_in_dispute == Map::<
                Address,
                Quest,
            >::empty().dom().len()
        }),
{
    lemma_empty_board_is_tallied(ctx.bumps.counter);
}

/// An acceptance on the board moves exactly one count. Where the counter
/// agrees with the board, the owner co-signed, the quest is open, the
/// offeree is another party that holds the required minimum, and the stake
/// lies between the minimum and the owner's stake, the acceptance is granted
/// unless the count of taken quests stands at the largest value a count can
/// hold. One quest fewer is open, one more is taken, every other count is as
/// before, and the record stays among the active ones: the three counts add
/// up to what they added up to before.
pub proof fn lemma_accept_on_board_moves_one_count(
    quests: Map<Address, Quest>,
    ctx: AcceptQuest,
    params: AcceptQuestParams,
    slot: u64,
)
    requires
        tallied(quests, ctx.counter),
        quests.dom().contains(ctx.quest.id),
        quests[ctx.quest.id] == ctx.quest,
        stake_is_judged(ctx),
        ctx.quest.min_stake_required <= params.stake_amount <= ctx.quest.staked,
        ctx.counter.posts_taken < u64::MAX,
    ensures
        accept_quest_error(ctx, params) is None,
        ({
            let before = ctx.counter;
            let after = accepted(ctx, params, slot).counter;
            let board = quests.insert(ctx.quest.id, accepted(ctx, params, slot).quest);
            &&& after.posts_open == before.posts_open - 1
            &&& after.posts_taken == before.posts_taken + 1
            &&& after.posts_completed == before.posts_completed
            &&& after.posts_in_dispute == before.posts_in_dispute
            &&& after.posts_resolved == before.posts_resolved
            &&& after.post_counter == before.post_counter
            &&& after.posts_open + after.posts_taken + after.posts_in_dispute == before.posts_open
                + before.posts_taken + before.posts_in_dispute
            &&& tallied(board, after)
            &&& active_quests(board).len() == active_quests(quests).len()
        }),
{
    lemma_accept_keeps_tally(quests, ctx, params, slot);
    lemma_counts_cover_the_quest(quests, ctx.counter, ctx.quest.id);
    let board = quests.insert(ctx.quest.id, accepted(ctx, params, slot).quest);
    lemma_counts_sum_to_active_quests(quests, ctx.counter);
    lemma_counts_sum_to_active_quests(board, accepted(ctx, params, slot).counter);
}

/// A completion on the board moves exactly one count and empties the
/// escrow. Where the counter agrees with the board, the record is valid and
/// taken, its owner and its offeree signed, and the escrow holds exactly the
/// two stakes, the completion is granted unless the registry has no decay
/// period or the count of completed quests stands at the largest value a
/// count can hold. One quest fewer is taken, one more is completed, every
/// other count is as before. The owner gets the whole of its stake, the
/// offeree the whole of its own, and together that is all the escrow held.
pub proof fn lemma_complete_on_board_moves_one_count(
    quests: Map<Address, Quest>,
    ctx: CompleteQuest,
    slot: u64,
)
    requires
        tallied(quests, ctx.counter),
        quests.dom().contains(ctx.quest.id),
        quests[ctx.quest.id] == ctx.quest,
        ctx.quest.wf(),
        ctx.quest.status is Taken,
        ctx.quest.owner == ctx.owner,
        ctx.quest.offeree == Some(ctx.offeree),
        ctx.escrow_token_account.amount == ctx.quest.escrowed(),
        ctx.config.decay_period > 0,
        ctx.counter.posts_completed < u64::MAX,
    ensures
        complete_quest_error(ctx) is None,
        ({
            let before = ctx.counter;
            let after = completed(ctx).counter;
            let release = completion_release(ctx, slot);
            &&& after.posts_taken == before.posts_taken - 1
            &&& after.posts_completed == before.posts_completed + 1
            &&& after.posts_open == before.posts_open
            &&& after.posts_in_dispute == before.posts_in_dispute
            &&& after.posts_resolved == before.posts_resolved
            &&& after.post_counter == before.post_counter
            &&& tallied(quests.remove(ctx.quest.id), after)
            &&& release.owner_collateral == ctx.quest.staked
            &&& Some(release.offeree_collateral) == ctx.quest.offeree_staked
            &&& ctx.escrow_token_account.amount - release.owner_collateral
                - release.offeree_collateral == 0
        }),
{
    lemma_complete_keeps_tally(quests, ctx);
    lemma_counts_cover_the_quest(quests, ctx.counter, ctx.quest.id);
}

} // verus!
