use quest_board::escrow::{Funding, TokenAccount};
use quest_board::instructions::{
    create_quest_handler, CreateQuest, CreateQuestBumps, CreateQuestParams,
};
use quest_board::state::{Address, Config, Quest, QuestError, QuestStatus};

fn key(n: u8) -> Address {
    Address::new([n; 32])
}

fn config() -> Config {
    Config {
        bump: 255,
        authority: key(1),
        treasury: key(2),
        token_mint: key(3),
        base_fee: 5,
        decay_fee: 2,
        decay_start: 1_000,
        decay_period: 100,
        vote_threshold: 0,
        dispute_duration: 0,
        staked_vote_power_start: 0,
        unstaked_vote_unlock_interval: 0,
    }
}

fn ctx(balance: u64) -> CreateQuest {
    CreateQuest {
        id: key(40),
        owner: key(10),
        owner_token_account: TokenAccount { amount: balance },
        config: config(),
        bumps: CreateQuestBumps { quest: 251 },
    }
}

fn params(stake: u64, min: u64, placement: u64) -> CreateQuestParams {
    CreateQuestParams {
        stake_amount: stake,
        min_stake_required: min,
        placement_paid: placement,
        details_hash: [0xAB; 32],
    }
}

#[test]
fn create_writes_an_unpublished_record_and_asks_for_its_funding() {
    let (quest, funding) = create_quest_handler(&ctx(1_000), params(100, 50, 10), 77).unwrap();
    assert_eq!(
        quest,
        Quest {
            bump: 251,
            status: QuestStatus::Unpublished,
            owner: key(10),
            timestamp: 77,
            staked: 100,
            min_stake_required: 50,
            placement_paid: 10,
            details_hash: [0xAB; 32],
            id: key(40),
            accepted_timestamp: None,
            offeree: None,
            offeree_staked: None,
            offeree_proposal_hash: None,
            owner_votes: None,
            offeree_votes: None,
            abstained_votes: None,
        }
    );
    assert_eq!(funding, Funding { base_fee: 5, placement: 10, collateral: 100 });
}

#[test]
fn create_is_refused_when_the_minimum_exceeds_the_stake() {
    assert_eq!(
        create_quest_handler(&ctx(1_000), params(100, 101, 10), 77),
        Err(QuestError::MinStakeRequiredExceedsStaked)
    );
    assert_eq!(
        create_quest_handler(&ctx(u64::MAX), params(0, 1, 0), 0),
        Err(QuestError::MinStakeRequiredExceedsStaked)
    );
    assert_eq!(
        create_quest_handler(&ctx(u64::MAX), params(u64::MAX - 1, u64::MAX, 0), 0),
        Err(QuestError::MinStakeRequiredExceedsStaked)
    );
}

#[test]
fn create_accepts_a_minimum_equal_to_the_stake() {
    let (quest, funding) = create_quest_handler(&ctx(100), params(100, 100, 0), 1).unwrap();
    assert_eq!(quest.staked, 100);
    assert_eq!(quest.min_stake_required, 100);
    assert!(quest.min_stake_required <= quest.staked);
    assert_eq!(funding.collateral, 100);
    let (zero, _) = create_quest_handler(&ctx(0), params(0, 0, 0), 1).unwrap();
    assert_eq!(zero.staked, 0);
}

#[test]
fn create_is_refused_when_the_owner_holds_too_little() {
    assert_eq!(
        create_quest_handler(&ctx(99), params(100, 50, 10), 77),
        Err(QuestError::NotEnoughTokenBalance)
    );
    assert!(create_quest_handler(&ctx(100), params(100, 50, 10), 77).is_ok());
}

#[test]
fn create_names_the_balance_before_the_minimum() {
    assert_eq!(
        create_quest_handler(&ctx(99), params(100, 101, 10), 77),
        Err(QuestError::NotEnoughTokenBalance)
    );
}

#[test]
fn create_keeps_the_minimum_within_the_stake_for_every_small_pair() {
    for stake in 0u64..12 {
        for min in 0u64..12 {
            match create_quest_handler(&ctx(1_000), params(stake, min, 3), 9) {
                Ok((quest, _)) => {
                    assert!(min <= stake);
                    assert!(quest.min_stake_required <= quest.staked);
                }
                Err(e) => {
                    assert!(min > stake);
                    assert_eq!(e, QuestError::MinStakeRequiredExceedsStaked);
                }
            }
        }
    }
}
