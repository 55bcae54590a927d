use anchor_lang::prelude::Pubkey;
use gigclaw::ErrorCode;
use gigclaw::Reputation;

fn key(seed: u8) -> Pubkey {
    Pubkey::new_from_array([seed; 32])
}

fn blank(agent: Pubkey) -> Reputation {
    Reputation {
        agent,
        completed_tasks: 0,
        failed_tasks: 0,
        total_earned: 0,
        success_rate: 0,
        rating_sum: 0,
        rating_count: 0,
    }
}

#[test]
fn init_resets_every_counter() {
    let mut record = Reputation {
        agent: key(9),
        completed_tasks: 4,
        failed_tasks: 2,
        total_earned: 77,
        success_rate: 66,
        rating_sum: 12,
        rating_count: 3,
    };
    assert_eq!(record.init(key(2)), Ok(()));
    assert_eq!(record, blank(key(2)));
    assert_eq!(Reputation::fresh(key(2)), blank(key(2)));
    assert_eq!(Reputation::MAX_SIZE, 68);
}

#[test]
fn completion_counts_the_task_and_the_payment() {
    let mut record = blank(key(2));
    assert_eq!(record.record_completion(1_500_000), Ok(()));
    assert_eq!(record.completed_tasks, 1);
    assert_eq!(record.total_earned, 1_500_000);
    assert_eq!(record.success_rate, 100);
    assert_eq!(record.failed_tasks, 0);
    assert_eq!(record.record_completion(500_000), Ok(()));
    assert_eq!(record.completed_tasks, 2);
    assert_eq!(record.total_earned, 2_000_000);
    assert_eq!(record.success_rate, 100);
    assert_eq!(record.rating_sum, 0);
    assert_eq!(record.rating_count, 0);
    assert_eq!(record.agent, key(2));
}

#[test]
fn success_rate_is_the_rounded_down_share_of_completed_tasks() {
    let mut record = blank(key(2));
    record.failed_tasks = 2;
    record.record_completion(1).unwrap();
    assert_eq!(record.success_rate, 33);
    record.record_completion(1).unwrap();
    assert_eq!(record.success_rate, 50);
    record.record_completion(1).unwrap();
    assert_eq!(record.success_rate, 60);
    record.failed_tasks = 1000;
    record.record_completion(1).unwrap();
    assert_eq!(record.success_rate, 0);
    assert_eq!(record.completed_tasks, 4);
}

#[test]
fn success_rate_stays_within_zero_and_hundred() {
    let mut record = blank(key(2));
    record.failed_tasks = 3;
    let mut earned: u64 = 0;
    let mut completed: u32 = 0;
    for round in 0..50u64 {
        record.record_completion(round).unwrap();
        assert!(record.success_rate <= 100);
        assert!(record.completed_tasks > completed);
        assert!(record.total_earned >= earned);
        completed = record.completed_tasks;
        earned = record.total_earned;
    }
    record.failed_tasks = 0;
    record.completed_tasks = u32::MAX - 1;
    record.record_completion(0).unwrap();
    assert_eq!(record.success_rate, 100);
}

#[test]
fn completion_overflow_changes_nothing() {
    let mut record = blank(key(2));
    record.completed_tasks = u32::MAX;
    let before = record.clone();
    assert_eq!(record.record_completion(1), Err(ErrorCode::ArithmeticOverflow));
    assert_eq!(record, before);

    let mut record = blank(key(2));
    record.total_earned = u64::MAX;
    let before = record.clone();
    assert_eq!(record.record_completion(1), Err(ErrorCode::ArithmeticOverflow));
    assert_eq!(record, before);
    assert_eq!(record.record_completion(0), Ok(()));
    assert_eq!(record.total_earned, u64::MAX);

    let mut record = blank(key(2));
    record.completed_tasks = u32::MAX - 5;
    record.failed_tasks = 5;
    let before = record.clone();
    assert_eq!(record.record_completion(1), Err(ErrorCode::ArithmeticOverflow));
    assert_eq!(record, before);
}

#[test]
fn rating_adds_to_sum_and_count() {
    let mut record = blank(key(2));
    assert_eq!(record.add_rating(4), Ok(()));
    assert_eq!(record.add_rating(5), Ok(()));
    assert_eq!(record.rating_sum, 9);
    assert_eq!(record.rating_count, 2);
    assert_eq!(record.completed_tasks, 0);
    assert_eq!(record.total_earned, 0);
    assert_eq!(record.success_rate, 0);
}

#[test]
fn rating_overflow_changes_nothing() {
    let mut record = blank(key(2));
    record.rating_sum = u64::MAX - 2;
    let before = record.clone();
    assert_eq!(record.add_rating(3), Err(ErrorCode::ArithmeticOverflow));
    assert_eq!(record, before);
    assert_eq!(record.add_rating(2), Ok(()));
    assert_eq!(record.rating_sum, u64::MAX);

    let mut record = blank(key(2));
    record.rating_count = u32::MAX;
    let before = record.clone();
    assert_eq!(record.add_rating(1), Err(ErrorCode::ArithmeticOverflow));
    assert_eq!(record, before);
}

#[test]
fn completed_tasks_and_earnings_never_go_down() {
    let mut record = blank(key(2));
    let mut completed: u32 = 0;
    let mut earned: u64 = 0;
    let amounts: [u64; 6] = [5, 0, u64::MAX, 7, u64::MAX - 12, 1];
    for (round, amount) in amounts.iter().enumerate() {
        let _ = record.record_completion(*amount);
        assert!(record.completed_tasks >= completed);
        assert!(record.total_earned >= earned);
        completed = record.completed_tasks;
        earned = record.total_earned;
        let _ = record.add_rating((round % 5 + 1) as u8);
        assert_eq!(record.completed_tasks, completed);
        assert_eq!(record.total_earned, earned);
    }
    assert_eq!(record.completed_tasks, 4);
    assert_eq!(record.total_earned, u64::MAX);
    assert_eq!(record.rating_count, 6);
    assert_eq!(record.success_rate, 100);
}
