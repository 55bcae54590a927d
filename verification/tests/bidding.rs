use anchor_lang::prelude::Pubkey;
use gigclaw::accept_bid_at;
use gigclaw::bid_on_task_at;
use gigclaw::clears_stake;
use gigclaw::create_task_at;
use gigclaw::initialize_escrow;
use gigclaw::stake_threshold;
use gigclaw::Bid;
use gigclaw::ErrorCode;
use gigclaw::ErrorKind;
use gigclaw::EscrowVault;
use gigclaw::Failure;
use gigclaw::Reputation;
use gigclaw::Task;
use gigclaw::TaskStatus;
use gigclaw::MAX_TASK_DURATION;
use gigclaw::REPUTATION_STAKE_RATIO;

const NOW: i64 = 1_700_000_000;
const DEADLINE: i64 = NOW + 3600;

fn key(seed: u8) -> Pubkey {
    Pubkey::new_from_array([seed; 32])
}

fn record(agent: Pubkey, completed_tasks: u32, total_earned: u64) -> Reputation {
    Reputation {
        agent,
        completed_tasks,
        failed_tasks: 0,
        total_earned,
        success_rate: if completed_tasks > 0 { 100 } else { 0 },
        rating_sum: 0,
        rating_count: 0,
    }
}

fn open_task(funded: bool) -> Task {
    let mut slot: Option<Task> = None;
    create_task_at(
        &mut slot,
        key(1),
        String::from("t1"),
        String::from("Write docs"),
        String::new(),
        2_000_000,
        DEADLINE,
        Vec::new(),
        NOW,
    )
    .unwrap();
    let mut task = slot.unwrap();
    if funded {
        let mut vault = EscrowVault::open(&task);
        initialize_escrow(&mut task, &mut vault, key(1), key(4), 7).unwrap();
    }
    task
}

fn try_bid(
    task: &Task,
    bidder: Pubkey,
    reputation: &Reputation,
    amount: u64,
    duration: i64,
    now: i64,
) -> Result<Bid, Failure> {
    let mut slot: Option<Bid> = None;
    bid_on_task_at(&mut slot, task, key(3), bidder, reputation, amount, duration, now)?;
    Ok(slot.unwrap())
}

#[test]
fn stake_threshold_is_a_tenth_rounded_down() {
    assert_eq!(REPUTATION_STAKE_RATIO, 10);
    assert_eq!(stake_threshold(1_000_000), 100_000);
    assert_eq!(stake_threshold(1_000_009), 100_000);
    assert_eq!(stake_threshold(9), 0);
    assert_eq!(stake_threshold(u64::MAX), 1_844_674_407_370_955_161);
}

#[test]
fn stake_is_cleared_by_a_finished_task_or_by_earnings() {
    assert!(clears_stake(&record(key(2), 1, 0), 1_000_000));
    assert!(clears_stake(&record(key(2), 0, 100_000), 1_000_000));
    assert!(!clears_stake(&record(key(2), 0, 99_999), 1_000_000));
    assert!(clears_stake(&record(key(2), 0, 0), 9));
    assert!(!clears_stake(&record(key(2), 0, 0), 10));
}

#[test]
fn earnings_stand_in_for_a_track_record() {
    let task = open_task(true);
    let bid = try_bid(&task, key(2), &record(key(2), 0, 100_000), 1_000_000, 3600, NOW).unwrap();
    assert_eq!(bid.amount, 1_000_000);
    assert_eq!(bid.bidder, key(2));
    assert_eq!(bid.task, key(3));
    assert!(!bid.accepted);
    assert_eq!(
        try_bid(&task, key(2), &record(key(2), 0, 99_999), 1_000_000, 3600, NOW),
        Err(Failure::Rule(ErrorCode::InsufficientReputation))
    );
}

#[test]
fn bid_needs_an_open_task() {
    let mut task = open_task(true);
    task.status = TaskStatus::InProgress;
    assert_eq!(
        try_bid(&task, key(2), &record(key(2), 1, 0), 1_000_000, 3600, NOW),
        Err(Failure::Rule(ErrorCode::TaskNotOpen))
    );
}

#[test]
fn bid_needs_funded_escrow() {
    let task = open_task(false);
    assert_eq!(
        try_bid(&task, key(2), &record(key(2), 1, 0), 1_000_000, 3600, NOW),
        Err(Failure::Rule(ErrorCode::EscrowNotInitialized))
    );
    assert_eq!(ErrorCode::EscrowNotInitialized.kind(), ErrorKind::State);
}

#[test]
fn bid_at_the_deadline_is_too_late() {
    let task = open_task(true);
    let reputation = record(key(2), 1, 0);
    assert_eq!(
        try_bid(&task, key(2), &reputation, 1_000_000, 3600, DEADLINE),
        Err(Failure::Rule(ErrorCode::TaskExpired))
    );
    assert_eq!(
        try_bid(&task, key(2), &reputation, 1_000_000, 3600, DEADLINE + 1),
        Err(Failure::Rule(ErrorCode::TaskExpired))
    );
    assert!(try_bid(&task, key(2), &reputation, 1_000_000, 3600, DEADLINE - 1).is_ok());
    assert_eq!(ErrorCode::TaskExpired.kind(), ErrorKind::State);
}

#[test]
fn bid_amount_must_be_positive_and_within_budget() {
    let task = open_task(true);
    let reputation = record(key(2), 1, 0);
    assert_eq!(
        try_bid(&task, key(2), &reputation, 0, 3600, NOW),
        Err(Failure::Rule(ErrorCode::InvalidBidAmount))
    );
    assert_eq!(
        try_bid(&task, key(2), &reputation, 2_000_001, 3600, NOW),
        Err(Failure::Rule(ErrorCode::InvalidBidAmount))
    );
    assert!(try_bid(&task, key(2), &reputation, 2_000_000, 3600, NOW).is_ok());
    assert!(try_bid(&task, key(2), &reputation, 1, 3600, NOW).is_ok());
    assert_eq!(ErrorCode::InvalidBidAmount.kind(), ErrorKind::Validation);
}

#[test]
fn poster_cannot_bid_on_own_task() {
    let task = open_task(true);
    assert_eq!(
        try_bid(&task, key(1), &record(key(1), 1, 0), 1_000_000, 3600, NOW),
        Err(Failure::Rule(ErrorCode::PosterCannotBid))
    );
    assert_eq!(ErrorCode::PosterCannotBid.kind(), ErrorKind::Authorization);
}

#[test]
fn duration_must_be_positive_and_at_most_ninety_days() {
    let task = open_task(true);
    let reputation = record(key(2), 1, 0);
    assert_eq!(
        try_bid(&task, key(2), &reputation, 1_000_000, 0, NOW),
        Err(Failure::Rule(ErrorCode::InvalidDuration))
    );
    assert_eq!(
        try_bid(&task, key(2), &reputation, 1_000_000, -5, NOW),
        Err(Failure::Rule(ErrorCode::InvalidDuration))
    );
    assert_eq!(
        try_bid(&task, key(2), &reputation, 1_000_000, MAX_TASK_DURATION + 1, NOW),
        Err(Failure::Rule(ErrorCode::InvalidDuration))
    );
    assert!(try_bid(&task, key(2), &reputation, 1_000_000, MAX_TASK_DURATION, NOW).is_ok());
    assert!(try_bid(&task, key(2), &reputation, 1_000_000, 1, NOW).is_ok());
}

#[test]
fn bid_needs_the_bidders_own_record() {
    let task = open_task(true);
    assert_eq!(
        try_bid(&task, key(2), &record(key(8), 5, 9_000_000), 1_000_000, 3600, NOW),
        Err(Failure::RecordMismatch)
    );
}

#[test]
fn second_bid_of_the_same_bidder_is_refused() {
    let task = open_task(true);
    let reputation = record(key(2), 1, 0);
    let mut slot: Option<Bid> = None;
    bid_on_task_at(&mut slot, &task, key(3), key(2), &reputation, 1_000_000, 3600, NOW).unwrap();
    let first = slot.clone();
    let again = bid_on_task_at(&mut slot, &task, key(3), key(2), &reputation, 900_000, 60, NOW + 1);
    assert_eq!(again, Err(Failure::RecordExists));
    assert_eq!(slot, first);
}

#[test]
fn bid_faults_come_in_a_fixed_order() {
    let mut task = open_task(false);
    let stranger = record(key(8), 0, 0);
    task.status = TaskStatus::Cancelled;
    assert_eq!(
        try_bid(&task, key(1), &stranger, 0, 0, DEADLINE),
        Err(Failure::Rule(ErrorCode::TaskNotOpen))
    );
    task.status = TaskStatus::Posted;
    assert_eq!(
        try_bid(&task, key(1), &stranger, 0, 0, DEADLINE),
        Err(Failure::Rule(ErrorCode::EscrowNotInitialized))
    );
    task.escrow_initialized = true;
    assert_eq!(
        try_bid(&task, key(1), &stranger, 0, 0, DEADLINE),
        Err(Failure::Rule(ErrorCode::TaskExpired))
    );
    assert_eq!(
        try_bid(&task, key(1), &stranger, 0, 0, NOW),
        Err(Failure::Rule(ErrorCode::InvalidBidAmount))
    );
    assert_eq!(
        try_bid(&task, key(1), &stranger, 1_000_000, 0, NOW),
        Err(Failure::Rule(ErrorCode::PosterCannotBid))
    );
    assert_eq!(
        try_bid(&task, key(2), &stranger, 1_000_000, 0, NOW),
        Err(Failure::Rule(ErrorCode::InvalidDuration))
    );
    assert_eq!(
        try_bid(&task, key(2), &stranger, 1_000_000, 60, NOW),
        Err(Failure::RecordMismatch)
    );
    assert_eq!(
        try_bid(&task, key(2), &record(key(2), 0, 0), 1_000_000, 60, NOW),
        Err(Failure::Rule(ErrorCode::InsufficientReputation))
    );
}

#[test]
fn accept_needs_poster_open_task_time_and_matching_bid() {
    let mut task = open_task(true);
    let bid = try_bid(&task, key(2), &record(key(2), 1, 0), 1_500_000, 3600, NOW).unwrap();
    let untouched = task.clone();

    assert_eq!(
        accept_bid_at(&mut task, key(3), &bid, key(1), DEADLINE),
        Err(Failure::Rule(ErrorCode::TaskExpired))
    );
    assert_eq!(
        accept_bid_at(&mut task, key(3), &bid, key(2), NOW),
        Err(Failure::Rule(ErrorCode::UnauthorizedPoster))
    );
    assert_eq!(
        accept_bid_at(&mut task, key(6), &bid, key(1), NOW),
        Err(Failure::Rule(ErrorCode::InvalidBid))
    );
    assert_eq!(task, untouched);
    assert_eq!(ErrorCode::UnauthorizedPoster.kind(), ErrorKind::Authorization);
    assert_eq!(ErrorCode::InvalidBid.kind(), ErrorKind::Validation);

    assert!(accept_bid_at(&mut task, key(3), &bid, key(1), DEADLINE - 1).is_ok());
    assert_eq!(task.status, TaskStatus::InProgress);
    assert_eq!(task.assigned_agent, Some(key(2)));
    assert_eq!(task.final_budget, 1_500_000);
    assert_eq!(task.budget, untouched.budget);
    assert_eq!(task.title, untouched.title);
}

#[test]
fn accept_reports_the_state_before_the_time_and_the_caller() {
    let mut task = open_task(true);
    let bid = try_bid(&task, key(2), &record(key(2), 1, 0), 1_500_000, 3600, NOW).unwrap();
    task.status = TaskStatus::Completed;
    assert_eq!(
        accept_bid_at(&mut task, key(6), &bid, key(9), DEADLINE + 5),
        Err(Failure::Rule(ErrorCode::TaskNotOpen))
    );
    task.status = TaskStatus::Posted;
    assert_eq!(
        accept_bid_at(&mut task, key(6), &bid, key(9), DEADLINE + 5),
        Err(Failure::Rule(ErrorCode::TaskExpired))
    );
    assert_eq!(
        accept_bid_at(&mut task, key(6), &bid, key(9), NOW),
        Err(Failure::Rule(ErrorCode::UnauthorizedPoster))
    );
}

#[test]
fn bid_record_has_its_stored_size() {
    assert_eq!(Bid::MAX_SIZE, 89);
    let mut bid = Bid {
        task: key(0),
        bidder: key(0),
        amount: 5,
        estimated_duration: 5,
        created_at: 5,
        accepted: true,
    };
    assert_eq!(bid.init(key(3), key(2), 1_000, 60, NOW), Ok(()));
    assert_eq!(
        bid,
        Bid {
            task: key(3),
            bidder: key(2),
            amount: 1_000,
            estimated_duration: 60,
            created_at: NOW,
            accepted: false,
        }
    );
}
