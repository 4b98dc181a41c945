use quest_board::escrow::TokenAccount;
use quest_board::instructions::{
    create_quest_handler, publish_quest_handler, unpublish_quest_handler,
    update_quest_handler, update_quest_hash_handler, CreateQuest, CreateQuestBumps,
    CreateQuestParams, PublishQuest, UnpublishQuest, UpdateQuest, UpdateQuestHash,
    UpdateQuestHashParams, UpdateQuestParams,
};
use quest_board::state::{Address, Config, Counter, Quest, QuestError, QuestStatus};

fn key(n: u8) -> Address {
    Address::new([n; 32])
}

fn counter(open: u64) -> Counter {
    Counter {
        bump: 250,
        post_counter: 0,
        posts_open: open,
        posts_taken: 3,
        posts_completed: 4,
        posts_in_dispute: 0,
        posts_resolved: 0,
    }
}

fn quest() -> Quest {
    let ctx = CreateQuest {
        id: key(40),
        owner: key(10),
        owner_token_account: TokenAccount { amount: 1_000 },
        config: Config {
            bump: 255,
            authority: key(1),
            treasury: key(2),
            token_mint: key(3),
            base_fee: 5,
            decay_fee: 2,
            decay_start: 1_000,
            decay_period: 100,
            vote_threshold: 0,
            dispute_duration: 0,
            staked_vote_power_start: 0,
            unstaked_vote_unlock_interval: 0,
        },
        bumps: CreateQuestBumps { quest: 251 },
    };
    let params = CreateQuestParams {
        stake_amount: 100,
        min_stake_required: 50,
        placement_paid: 10,
        details_hash: [1; 32],
    };
    create_quest_handler(&ctx, params, 77).unwrap().0
}

fn open_quest() -> Quest {
    let mut q = quest();
    q.status = QuestStatus::Open;
    q
}

#[test]
fn publish_opens_the_quest_and_counts_it() {
    let mut ctx = PublishQuest { quest: quest(), counter: counter(6), owner: key(10) };
    assert_eq!(publish_quest_handler(&mut ctx), Ok(()));
    assert_eq!(ctx.quest, open_quest());
    let mut expected = counter(6);
    expected.posts_open = 7;
    assert_eq!(ctx.counter, expected);
    assert_eq!(ctx.owner, key(10));
}

#[test]
fn publish_is_refused_when_already_published() {
    let mut ctx = PublishQuest { quest: quest(), counter: counter(0), owner: key(10) };
    assert_eq!(publish_quest_handler(&mut ctx), Ok(()));
    let before = ctx;
    assert_eq!(publish_quest_handler(&mut ctx), Err(QuestError::QuestAlreadyPublished));
    assert_eq!(ctx, before);
}

#[test]
fn publish_is_refused_in_every_later_state() {
    for code in [1u8, 3, 5, 6, 7, 9, 10, 11, 13, 14, 15] {
        let mut q = quest();
        q.status = QuestStatus::from_code(code).unwrap();
        let mut ctx = PublishQuest { quest: q, counter: counter(1), owner: key(10) };
        assert_eq!(publish_quest_handler(&mut ctx), Err(QuestError::QuestAlreadyPublished));
        assert_eq!(ctx.counter, counter(1));
        assert_eq!(ctx.quest, q);
    }
}

#[test]
fn publish_is_refused_to_another_signer() {
    let mut ctx = PublishQuest { quest: quest(), counter: counter(0), owner: key(11) };
    let before = ctx;
    assert_eq!(publish_quest_handler(&mut ctx), Err(QuestError::MissingOwnerSignature));
    assert_eq!(ctx, before);
}

#[test]
fn publish_is_refused_when_the_count_is_full() {
    let mut ctx = PublishQuest { quest: quest(), counter: counter(u64::MAX), owner: key(10) };
    let before = ctx;
    assert_eq!(publish_quest_handler(&mut ctx), Err(QuestError::CounterOverflow));
    assert_eq!(ctx, before);
    let mut ctx = PublishQuest { quest: quest(), counter: counter(u64::MAX - 1), owner: key(10) };
    assert_eq!(publish_quest_handler(&mut ctx), Ok(()));
    assert_eq!(ctx.counter.posts_open, u64::MAX);
}

#[test]
fn unpublish_withdraws_the_quest_and_uncounts_it() {
    let mut ctx = UnpublishQuest { quest: open_quest(), counter: counter(6), owner: key(10) };
    assert_eq!(unpublish_quest_handler(&mut ctx), Ok(()));
    assert_eq!(ctx.quest, quest());
    let mut expected = counter(6);
    expected.posts_open = 5;
    assert_eq!(ctx.counter, expected);
}

#[test]
fn unpublish_is_refused_when_not_open() {
    for code in [0u8, 3, 5, 6, 7, 9, 10, 11, 13, 14, 15] {
        let mut q = quest();
        q.status = QuestStatus::from_code(code).unwrap();
        let mut ctx = UnpublishQuest { quest: q, counter: counter(6), owner: key(10) };
        assert_eq!(unpublish_quest_handler(&mut ctx), Err(QuestError::QuestNotOpen));
        assert_eq!(ctx.counter, counter(6));
        assert_eq!(ctx.quest, q);
    }
}

#[test]
fn unpublish_is_refused_to_another_signer() {
    let mut ctx = UnpublishQuest { quest: open_quest(), counter: counter(6), owner: key(11) };
    assert_eq!(unpublish_quest_handler(&mut ctx), Err(QuestError::MissingOwnerSignature));
    assert_eq!(ctx.quest, open_quest());
}

#[test]
fn unpublish_is_refused_when_nothing_is_counted_open() {
    let mut ctx = UnpublishQuest { quest: open_quest(), counter: counter(0), owner: key(10) };
    let before = ctx;
    assert_eq!(unpublish_quest_handler(&mut ctx), Err(QuestError::CounterUnderflow));
    assert_eq!(ctx, before);
}

#[test]
fn publish_and_unpublish_undo_each_other() {
    let mut publish = PublishQuest { quest: quest(), counter: counter(2), owner: key(10) };
    assert_eq!(publish_quest_handler(&mut publish), Ok(()));
    let mut unpublish =
        UnpublishQuest { quest: publish.quest, counter: publish.counter, owner: key(10) };
    assert_eq!(unpublish_quest_handler(&mut unpublish), Ok(()));
    assert_eq!(unpublish.quest, quest());
    assert_eq!(unpublish.counter, counter(2));
}

#[test]
fn update_replaces_what_is_given() {
    let both = UpdateQuestParams { details_hash: Some([9; 32]), min_stake_required: Some(80) };
    let mut ctx = UpdateQuest { quest: quest(), owner: key(10) };
    assert_eq!(update_quest_handler(&mut ctx, both), Ok(()));
    let mut expected = quest();
    expected.details_hash = [9; 32];
    expected.min_stake_required = 80;
    assert_eq!(ctx.quest, expected);

    let hash_only = UpdateQuestParams { details_hash: Some([8; 32]), min_stake_required: None };
    assert_eq!(update_quest_handler(&mut ctx, hash_only), Ok(()));
    expected.details_hash = [8; 32];
    assert_eq!(ctx.quest, expected);

    let min_only = UpdateQuestParams { details_hash: None, min_stake_required: Some(0) };
    assert_eq!(update_quest_handler(&mut ctx, min_only), Ok(()));
    expected.min_stake_required = 0;
    assert_eq!(ctx.quest, expected);

    let nothing = UpdateQuestParams { details_hash: None, min_stake_required: None };
    assert_eq!(update_quest_handler(&mut ctx, nothing), Ok(()));
    assert_eq!(ctx.quest, expected);
}

#[test]
fn update_is_refused_once_published() {
    let params = UpdateQuestParams { details_hash: Some([9; 32]), min_stake_required: Some(80) };
    for code in [1u8, 3, 7, 9, 13] {
        let mut q = quest();
        q.status = QuestStatus::from_code(code).unwrap();
        let mut ctx = UpdateQuest { quest: q, owner: key(10) };
        assert_eq!(update_quest_handler(&mut ctx, params), Err(QuestError::UpdateNotAllowed));
        assert_eq!(ctx.quest, q);
    }
}

#[test]
fn update_keeps_the_minimum_within_the_stake() {
    let mut ctx = UpdateQuest { quest: quest(), owner: key(10) };
    let at_stake = UpdateQuestParams { details_hash: None, min_stake_required: Some(100) };
    assert_eq!(update_quest_handler(&mut ctx, at_stake), Ok(()));
    assert_eq!(ctx.quest.min_stake_required, 100);
    let before = ctx;
    let above = UpdateQuestParams { details_hash: Some([9; 32]), min_stake_required: Some(101) };
    assert_eq!(
        update_quest_handler(&mut ctx, above),
        Err(QuestError::MinStakeRequiredExceedsStaked)
    );
    assert_eq!(ctx, before);
}

#[test]
fn update_is_refused_to_another_signer() {
    let params = UpdateQuestParams { details_hash: Some([9; 32]), min_stake_required: None };
    let mut ctx = UpdateQuest { quest: quest(), owner: key(12) };
    assert_eq!(update_quest_handler(&mut ctx, params), Err(QuestError::MissingOwnerSignature));
    assert_eq!(ctx.quest, quest());
}

#[test]
fn update_hash_replaces_the_digest_only() {
    let mut ctx = UpdateQuestHash { quest: quest(), owner: key(10) };
    let params = UpdateQuestHashParams { details_hash: [9; 32] };
    assert_eq!(update_quest_hash_handler(&mut ctx, params), Ok(()));
    let mut expected = quest();
    expected.details_hash = [9; 32];
    assert_eq!(ctx.quest, expected);
    assert_eq!(ctx.owner, key(10));
}

#[test]
fn update_hash_is_refused_once_published() {
    let params = UpdateQuestHashParams { details_hash: [9; 32] };
    for code in [1u8, 3, 5, 6, 7, 9, 10, 11, 13, 14, 15] {
        let mut q = quest();
        q.status = QuestStatus::from_code(code).unwrap();
        let mut ctx = UpdateQuestHash { quest: q, owner: key(10) };
        assert_eq!(update_quest_hash_handler(&mut ctx, params), Err(QuestError::UpdateNotAllowed));
        assert_eq!(ctx.quest, q);
    }
}

#[test]
fn update_hash_is_refused_to_another_signer() {
    let params = UpdateQuestHashParams { details_hash: [9; 32] };
    let mut ctx = UpdateQuestHash { quest: open_quest(), owner: key(12) };
    assert_eq!(
        update_quest_hash_handler(&mut ctx, params),
        Err(QuestError::MissingOwnerSignature)
    );
    assert_eq!(ctx.quest, open_quest());
}

#[test]
fn update_hash_does_what_an_update_with_a_digest_alone_does() {
    for code in [0u8, 1, 3, 7] {
        for signer in [key(10), key(12)] {
            let mut q = quest();
            q.status = QuestStatus::from_code(code).unwrap();
            let mut short = UpdateQuestHash { quest: q, owner: signer };
            let mut long = UpdateQuest { quest: q, owner: signer };
            let a = update_quest_hash_handler(
                &mut short,
                UpdateQuestHashParams { details_hash: [9; 32] },
            );
            let b = update_quest_handler(
                &mut long,
                UpdateQuestParams { details_hash: Some([9; 32]), min_stake_required: None },
            );
            assert_eq!(a, b);
            assert_eq!(short.quest, long.quest);
        }
    }
}
