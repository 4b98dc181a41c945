use quest_board::escrow::{Deposit, TokenAccount};
use quest_board::instructions::{accept_quest_handler, AcceptQuest, AcceptQuestParams};
use quest_board::state::{Address, Counter, Quest, QuestError, QuestStatus};

fn key(n: u8) -> Address {
    Address::new([n; 32])
}

fn counter(open: u64, taken: u64) -> Counter {
    Counter {
        bump: 250,
        post_counter: 0,
        posts_open: open,
        posts_taken: taken,
        posts_completed: 4,
        posts_in_dispute: 0,
        posts_resolved: 0,
    }
}

fn open_quest(staked: u64, min: u64) -> Quest {
    Quest {
        bump: 251,
        status: QuestStatus::Open,
        owner: key(10),
        timestamp: 77,
        staked,
        min_stake_required: min,
        placement_paid: 10,
        details_hash: [1; 32],
        id: key(40),
        accepted_timestamp: None,
        offeree: None,
        offeree_staked: None,
        offeree_proposal_hash: None,
        owner_votes: None,
        offeree_votes: None,
        abstained_votes: None,
    }
}

fn ctx(quest: Quest, balance: u64) -> AcceptQuest {
    AcceptQuest {
        quest,
        offeree_token_account: TokenAccount { amount: balance },
        counter: counter(2, 3),
        offeree: key(20),
        owner: key(10),
    }
}

fn offer(stake: u64) -> AcceptQuestParams {
    AcceptQuestParams { stake_amount: stake, offeree_proposal_hash: [5; 32] }
}

#[test]
fn accept_records_the_offeree_and_moves_the_count() {
    let mut c = ctx(open_quest(100, 50), 500);
    assert_eq!(accept_quest_handler(&mut c, offer(60), 90), Ok(Deposit { collateral: 60 }));
    let mut expected = open_quest(100, 50);
    expected.status = QuestStatus::Taken;
    expected.offeree = Some(key(20));
    expected.offeree_staked = Some(60);
    expected.offeree_proposal_hash = Some([5; 32]);
    expected.accepted_timestamp = Some(90);
    assert_eq!(c.quest, expected);
    assert_eq!(c.counter, counter(1, 4));
    assert_eq!(c.quest.status.code(), 3);
}

#[test]
fn accept_takes_a_stake_equal_to_the_minimum() {
    let mut c = ctx(open_quest(100, 50), 500);
    assert_eq!(accept_quest_handler(&mut c, offer(50), 90), Ok(Deposit { collateral: 50 }));
    assert_eq!(c.quest.offeree_staked, Some(50));
}

#[test]
fn accept_takes_a_stake_equal_to_the_owners() {
    let mut c = ctx(open_quest(100, 50), 500);
    assert_eq!(accept_quest_handler(&mut c, offer(100), 90), Ok(Deposit { collateral: 100 }));
    assert_eq!(c.quest.offeree_staked, Some(100));
}

#[test]
fn accept_takes_the_one_stake_there_is_when_minimum_and_stake_agree() {
    let mut c = ctx(open_quest(70, 70), 70);
    assert_eq!(accept_quest_handler(&mut c, offer(70), 90), Ok(Deposit { collateral: 70 }));
    let mut low = ctx(open_quest(70, 70), 70);
    assert_eq!(accept_quest_handler(&mut low, offer(69), 90), Err(QuestError::StakeAmountTooLow));
    let mut high = ctx(open_quest(70, 70), 70);
    assert_eq!(
        accept_quest_handler(&mut high, offer(71), 90),
        Err(QuestError::StakeAmountTooHigh)
    );
}

#[test]
fn accept_refuses_a_stake_below_the_minimum() {
    let mut c = ctx(open_quest(100, 50), 500);
    let before = c;
    assert_eq!(accept_quest_handler(&mut c, offer(49), 90), Err(QuestError::StakeAmountTooLow));
    assert_eq!(c, before);
    assert_eq!(accept_quest_handler(&mut c, offer(0), 90), Err(QuestError::StakeAmountTooLow));
    assert_eq!(c, before);
}

#[test]
fn accept_refuses_a_stake_above_the_owners() {
    let mut c = ctx(open_quest(100, 50), 500);
    let before = c;
    assert_eq!(accept_quest_handler(&mut c, offer(101), 90), Err(QuestError::StakeAmountTooHigh));
    assert_eq!(c, before);
    assert_eq!(
        accept_quest_handler(&mut c, offer(u64::MAX), 90),
        Err(QuestError::StakeAmountTooHigh)
    );
    assert_eq!(c, before);
}

#[test]
fn accept_judges_every_stake_around_the_bounds() {
    for stake in 0u64..=30 {
        let mut c = ctx(open_quest(20, 10), 500);
        let r = accept_quest_handler(&mut c, offer(stake), 90);
        if stake < 10 {
            assert_eq!(r, Err(QuestError::StakeAmountTooLow));
        } else if stake > 20 {
            assert_eq!(r, Err(QuestError::StakeAmountTooHigh));
        } else {
            assert_eq!(r, Ok(Deposit { collateral: stake }));
        }
    }
}

#[test]
fn accept_refuses_the_owner() {
    let mut c = ctx(open_quest(100, 50), 500);
    c.offeree = key(10);
    let before = c;
    assert_eq!(
        accept_quest_handler(&mut c, offer(60), 90),
        Err(QuestError::OwnerCannotAcceptOwnQuest)
    );
    assert_eq!(c, before);
}

#[test]
fn accept_refuses_an_offeree_who_holds_less_than_the_minimum() {
    let mut c = ctx(open_quest(100, 50), 49);
    let before = c;
    assert_eq!(
        accept_quest_handler(&mut c, offer(60), 90),
        Err(QuestError::NotEnoughTokenBalance)
    );
    assert_eq!(c, before);
    let mut enough = ctx(open_quest(100, 50), 50);
    assert!(accept_quest_handler(&mut enough, offer(50), 90).is_ok());
}

#[test]
fn accept_refuses_a_quest_that_is_not_open() {
    for code in [0u8, 3, 5, 6, 7, 9, 10, 11, 13, 14, 15] {
        let mut q = open_quest(100, 50);
        q.status = QuestStatus::from_code(code).unwrap();
        let mut c = ctx(q, 500);
        let before = c;
        assert_eq!(accept_quest_handler(&mut c, offer(60), 90), Err(QuestError::QuestNotOpen));
        assert_eq!(c, before);
    }
}

#[test]
fn accept_refuses_without_the_owners_signature() {
    let mut c = ctx(open_quest(100, 50), 500);
    c.owner = key(11);
    let before = c;
    assert_eq!(
        accept_quest_handler(&mut c, offer(60), 90),
        Err(QuestError::MissingOwnerSignature)
    );
    assert_eq!(c, before);
}

#[test]
fn accept_names_the_first_failure() {
    let mut q = open_quest(100, 50);
    q.status = QuestStatus::Unpublished;
    let mut c = ctx(q, 0);
    c.offeree = key(10);
    assert_eq!(accept_quest_handler(&mut c, offer(0), 90), Err(QuestError::QuestNotOpen));
    let mut c = ctx(open_quest(100, 50), 0);
    c.offeree = key(10);
    assert_eq!(
        accept_quest_handler(&mut c, offer(0), 90),
        Err(QuestError::OwnerCannotAcceptOwnQuest)
    );
    let mut c = ctx(open_quest(100, 50), 0);
    assert_eq!(accept_quest_handler(&mut c, offer(0), 90), Err(QuestError::NotEnoughTokenBalance));
}

#[test]
fn accept_refuses_when_a_count_would_leave_its_range() {
    let mut c = ctx(open_quest(100, 50), 500);
    c.counter = counter(0, 3);
    let before = c;
    assert_eq!(accept_quest_handler(&mut c, offer(60), 90), Err(QuestError::CounterUnderflow));
    assert_eq!(c, before);
    c.counter = counter(1, u64::MAX);
    let before = c;
    assert_eq!(accept_quest_handler(&mut c, offer(60), 90), Err(QuestError::CounterOverflow));
    assert_eq!(c, before);
}

#[test]
fn second_accept_finds_the_quest_taken() {
    let first_offeree = key(20);
    let second_offeree = key(21);
    let mut first = ctx(open_quest(100, 50), 500);
    first.offeree = first_offeree;
    assert_eq!(accept_quest_handler(&mut first, offer(60), 90), Ok(Deposit { collateral: 60 }));

    let mut second = AcceptQuest {
        quest: first.quest,
        offeree_token_account: TokenAccount { amount: 500 },
        counter: first.counter,
        offeree: second_offeree,
        owner: key(10),
    };
    let before = second;
    assert_eq!(accept_quest_handler(&mut second, offer(70), 91), Err(QuestError::QuestNotOpen));
    assert_eq!(second, before);
    assert_eq!(second.quest.offeree, Some(first_offeree));
    assert_eq!(second.quest.offeree_staked, Some(60));
    assert_eq!(second.counter, counter(1, 4));
}

#[test]
fn either_order_of_two_accepts_lets_exactly_the_first_through() {
    let attempts = [(key(20), 60u64), (key(21), 70u64)];
    for order in [[0usize, 1], [1, 0]] {
        let mut quest = open_quest(100, 50);
        let mut tally = counter(1, 0);
        let mut escrow: u64 = 100;
        let mut granted = 0;
        for (turn, &who) in order.iter().enumerate() {
            let (offeree, stake) = attempts[who];
            let mut c = AcceptQuest {
                quest,
                offeree_token_account: TokenAccount { amount: 500 },
                counter: tally,
                offeree,
                owner: key(10),
            };
            match accept_quest_handler(&mut c, offer(stake), 90) {
                Ok(deposit) => {
                    assert_eq!(turn, 0);
                    escrow += deposit.collateral;
                    granted += 1;
                }
                Err(e) => {
                    assert_eq!(turn, 1);
                    assert_eq!(e, QuestError::QuestNotOpen);
                }
            }
            quest = c.quest;
            tally = c.counter;
        }
        let (winner, stake) = attempts[order[0]];
        assert_eq!(granted, 1);
        assert_eq!(quest.offeree, Some(winner));
        assert_eq!(quest.offeree_staked, Some(stake));
        assert_eq!(escrow, 100 + stake);
        assert_eq!(tally, counter(0, 1));
    }
}
