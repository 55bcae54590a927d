use anchor_lang::prelude::Pubkey;
use gigclaw::accept_bid_at;
use gigclaw::bid_on_task_at;
use gigclaw::cancel_task;
use gigclaw::complete_task_at;
use gigclaw::create_task_at;
use gigclaw::initialize_escrow;
use gigclaw::initialize_reputation;
use gigclaw::rate_agent;
use gigclaw::verify_and_pay;
use gigclaw::Bid;
use gigclaw::BidAccepted;
use gigclaw::BidPlaced;
use gigclaw::ErrorCode;
use gigclaw::ErrorKind;
use gigclaw::EscrowInitialized;
use gigclaw::EscrowVault;
use gigclaw::Failure;
use gigclaw::PaymentReleased;
use gigclaw::Reputation;
use gigclaw::ReputationInitialized;
use gigclaw::Task;
use gigclaw::TaskCancelled;
use gigclaw::TaskCompleted;
use gigclaw::TaskCreated;
use gigclaw::TaskStatus;

const NOW: i64 = 1_700_000_000;

fn key(seed: u8) -> Pubkey {
    Pubkey::new_from_array([seed; 32])
}

fn poster() -> Pubkey {
    key(1)
}

fn agent() -> Pubkey {
    key(2)
}

fn task_key() -> Pubkey {
    key(3)
}

fn vault_key() -> Pubkey {
    key(4)
}

fn seasoned(agent: Pubkey) -> Reputation {
    Reputation {
        agent,
        completed_tasks: 1,
        failed_tasks: 0,
        total_earned: 0,
        success_rate: 100,
        rating_sum: 0,
        rating_count: 0,
    }
}

fn post(budget: u64) -> Task {
    let mut slot: Option<Task> = None;
    create_task_at(
        &mut slot,
        poster(),
        String::from("t1"),
        String::from("Write docs"),
        String::new(),
        budget,
        NOW + 3600,
        Vec::new(),
        NOW,
    )
    .unwrap();
    slot.unwrap()
}

fn funded(budget: u64) -> (Task, EscrowVault) {
    let mut task = post(budget);
    let mut vault = EscrowVault::open(&task);
    initialize_escrow(&mut task, &mut vault, poster(), vault_key(), 254).unwrap();
    (task, vault)
}

fn place(task: &Task, amount: u64) -> Bid {
    let mut slot: Option<Bid> = None;
    bid_on_task_at(&mut slot, task, task_key(), agent(), &seasoned(agent()), amount, 3600, NOW + 10)
        .unwrap();
    slot.unwrap()
}

#[test]
fn full_lifecycle_pays_the_agent() {
    let mut slot: Option<Task> = None;
    let created = create_task_at(
        &mut slot,
        poster(),
        String::from("t1"),
        String::from("Write docs"),
        String::new(),
        2_000_000,
        NOW + 3600,
        Vec::new(),
        NOW,
    );
    assert_eq!(
        created,
        Ok(TaskCreated {
            task_id: String::from("t1"),
            poster: poster(),
            budget: 2_000_000,
            deadline: NOW + 3600,
        })
    );
    let mut task = slot.unwrap();
    assert_eq!(task.status, TaskStatus::Posted);
    assert_eq!(task.budget, 2_000_000);
    assert_eq!(task.final_budget, 0);
    assert_eq!(task.created_at, NOW);
    assert_eq!(task.assigned_agent, None);
    assert!(!task.escrow_initialized);

    let mut vault = EscrowVault::open(&task);
    assert_eq!(vault.task_id(), "t1");
    assert_eq!(vault.balance(), 0);
    let funding = initialize_escrow(&mut task, &mut vault, poster(), vault_key(), 254);
    assert_eq!(
        funding,
        Ok(EscrowInitialized {
            task_id: String::from("t1"),
            escrow: vault_key(),
            amount: 2_000_000,
        })
    );
    assert_eq!(vault.balance(), 2_000_000);
    assert!(task.escrow_initialized);
    assert_eq!(task.escrow_bump, 254);

    let mut reputation = seasoned(agent());
    let mut bid_slot: Option<Bid> = None;
    let placed = bid_on_task_at(
        &mut bid_slot,
        &task,
        task_key(),
        agent(),
        &reputation,
        1_500_000,
        3600,
        NOW + 10,
    );
    assert_eq!(
        placed,
        Ok(BidPlaced { task_id: String::from("t1"), bidder: agent(), amount: 1_500_000 })
    );
    let bid = bid_slot.unwrap();
    assert_eq!(
        bid,
        Bid {
            task: task_key(),
            bidder: agent(),
            amount: 1_500_000,
            estimated_duration: 3600,
            created_at: NOW + 10,
            accepted: false,
        }
    );
    assert_eq!(vault.balance(), 2_000_000);

    let accepted = accept_bid_at(&mut task, task_key(), &bid, poster(), NOW + 20);
    assert_eq!(
        accepted,
        Ok(BidAccepted { task_id: String::from("t1"), agent: agent(), amount: 1_500_000 })
    );
    assert_eq!(task.status, TaskStatus::InProgress);
    assert_eq!(task.final_budget, 1_500_000);
    assert_eq!(task.assigned_agent, Some(agent()));

    let completed = complete_task_at(&mut task, agent(), String::from("https://x/y"), NOW + 30);
    assert_eq!(completed, Ok(TaskCompleted { task_id: String::from("t1"), agent: agent() }));
    assert_eq!(task.status, TaskStatus::Completed);
    assert_eq!(task.delivery_url, Some(String::from("https://x/y")));
    assert_eq!(task.completed_at, Some(NOW + 30));

    let paid = verify_and_pay(&mut task, &mut vault, &mut reputation, poster());
    assert_eq!(
        paid,
        Ok(PaymentReleased { task_id: String::from("t1"), agent: agent(), amount: 1_500_000 })
    );
    assert_eq!(task.status, TaskStatus::Verified);
    assert_eq!(vault.released(), 1_500_000);
    assert_eq!(vault.balance(), 2_000_000 - 1_500_000);
    assert_eq!(reputation.total_earned, 1_500_000);
    assert_eq!(reputation.completed_tasks, 2);
    assert_eq!(reputation.success_rate, 100);
}

#[test]
fn whole_budget_bid_empties_the_vault() {
    let (mut task, mut vault) = funded(2_000_000);
    let bid = place(&task, 2_000_000);
    accept_bid_at(&mut task, task_key(), &bid, poster(), NOW + 20).unwrap();
    complete_task_at(&mut task, agent(), String::from("https://x/y"), NOW + 30).unwrap();
    let mut reputation = seasoned(agent());
    verify_and_pay(&mut task, &mut vault, &mut reputation, poster()).unwrap();
    assert_eq!(task.status, TaskStatus::Verified);
    assert_eq!(vault.balance(), 0);
    assert_eq!(vault.released(), 2_000_000);
    assert_eq!(reputation.total_earned, 2_000_000);
}

#[test]
fn newcomer_without_earnings_cannot_bid() {
    let (task, _vault) = funded(2_000_000);
    let mut reputation_slot: Option<Reputation> = None;
    initialize_reputation(&mut reputation_slot, agent()).unwrap();
    let reputation = reputation_slot.unwrap();
    assert_eq!(reputation.completed_tasks, 0);
    assert_eq!(reputation.total_earned, 0);
    let mut slot: Option<Bid> = None;
    let placed =
        bid_on_task_at(&mut slot, &task, task_key(), agent(), &reputation, 1_000_000, 3600, NOW);
    assert_eq!(placed, Err(Failure::Rule(ErrorCode::InsufficientReputation)));
    assert_eq!(ErrorCode::InsufficientReputation.kind(), ErrorKind::InsufficientReputation);
    assert_eq!(slot, None);
}

#[test]
fn cancel_after_accept_is_refused_without_refund() {
    let (mut task, mut vault) = funded(2_000_000);
    let bid = place(&task, 1_500_000);
    accept_bid_at(&mut task, task_key(), &bid, poster(), NOW + 20).unwrap();
    assert_eq!(task.status, TaskStatus::InProgress);
    let before = task.clone();
    let cancelled = cancel_task(&mut task, &mut vault, poster());
    assert_eq!(cancelled, Err(Failure::Rule(ErrorCode::TaskNotCancellable)));
    assert_eq!(ErrorCode::TaskNotCancellable.kind(), ErrorKind::State);
    assert_eq!(task, before);
    assert_eq!(vault.balance(), 2_000_000);
    assert_eq!(vault.released(), 0);
}

#[test]
fn budget_below_minimum_creates_nothing() {
    let mut slot: Option<Task> = None;
    let created = create_task_at(
        &mut slot,
        poster(),
        String::from("t1"),
        String::from("Write docs"),
        String::new(),
        500_000,
        NOW + 3600,
        Vec::new(),
        NOW,
    );
    assert_eq!(created, Err(Failure::Rule(ErrorCode::BudgetTooLow)));
    assert_eq!(ErrorCode::BudgetTooLow.kind(), ErrorKind::Validation);
    assert_eq!(slot, None);
}

#[test]
fn second_reputation_bootstrap_fails_and_keeps_counters() {
    let mut slot: Option<Reputation> = None;
    let opened = initialize_reputation(&mut slot, agent());
    assert_eq!(opened, Ok(ReputationInitialized { agent: agent() }));
    let mut record = slot.unwrap();
    assert_eq!(
        record,
        Reputation {
            agent: agent(),
            completed_tasks: 0,
            failed_tasks: 0,
            total_earned: 0,
            success_rate: 0,
            rating_sum: 0,
            rating_count: 0,
        }
    );
    record.record_completion(700).unwrap();
    record.add_rating(4).unwrap();
    let mut slot = Some(record.clone());
    let again = initialize_reputation(&mut slot, agent());
    assert_eq!(again, Err(Failure::RecordExists));
    assert_eq!(slot, Some(record));
}

#[test]
fn cancel_open_funded_task_refunds_the_budget() {
    let (mut task, mut vault) = funded(2_000_000);
    let cancelled = cancel_task(&mut task, &mut vault, poster());
    assert_eq!(
        cancelled,
        Ok(TaskCancelled {
            task_id: String::from("t1"),
            poster: poster(),
            refund_amount: 2_000_000,
        })
    );
    assert_eq!(task.status, TaskStatus::Cancelled);
    assert_eq!(vault.balance(), 0);
    assert_eq!(vault.released(), 2_000_000);
}

#[test]
fn cancel_open_unfunded_task_moves_nothing() {
    let mut task = post(2_000_000);
    let mut vault = EscrowVault::open(&task);
    let cancelled = cancel_task(&mut task, &mut vault, poster());
    assert_eq!(
        cancelled,
        Ok(TaskCancelled { task_id: String::from("t1"), poster: poster(), refund_amount: 0 })
    );
    assert_eq!(task.status, TaskStatus::Cancelled);
    assert_eq!(vault.balance(), 0);
    assert_eq!(vault.released(), 0);
}

#[test]
fn only_one_bid_is_ever_accepted() {
    let (mut task, mut vault) = funded(2_000_000);
    let first = place(&task, 1_500_000);
    let mut other_slot: Option<Bid> = None;
    bid_on_task_at(
        &mut other_slot,
        &task,
        task_key(),
        key(9),
        &seasoned(key(9)),
        1_200_000,
        7200,
        NOW + 11,
    )
    .unwrap();
    let second = other_slot.unwrap();
    accept_bid_at(&mut task, task_key(), &first, poster(), NOW + 20).unwrap();
    let assigned = task.clone();

    let again = accept_bid_at(&mut task, task_key(), &second, poster(), NOW + 21);
    assert_eq!(again, Err(Failure::Rule(ErrorCode::TaskNotOpen)));
    assert_eq!(ErrorCode::TaskNotOpen.kind(), ErrorKind::State);
    assert_eq!(task, assigned);

    complete_task_at(&mut task, agent(), String::from("https://x/y"), NOW + 30).unwrap();
    assert_eq!(
        accept_bid_at(&mut task, task_key(), &second, poster(), NOW + 31),
        Err(Failure::Rule(ErrorCode::TaskNotOpen))
    );
    assert_eq!(
        cancel_task(&mut task, &mut vault, poster()),
        Err(Failure::Rule(ErrorCode::TaskNotCancellable))
    );
    let mut reputation = seasoned(agent());
    verify_and_pay(&mut task, &mut vault, &mut reputation, poster()).unwrap();
    assert_eq!(
        accept_bid_at(&mut task, task_key(), &second, poster(), NOW + 40),
        Err(Failure::Rule(ErrorCode::TaskNotOpen))
    );
    assert_eq!(
        cancel_task(&mut task, &mut vault, poster()),
        Err(Failure::Rule(ErrorCode::TaskNotCancellable))
    );
    assert_eq!(task.assigned_agent, Some(agent()));
    assert_eq!(task.final_budget, 1_500_000);
}

#[test]
fn accept_after_cancel_is_refused() {
    let (mut task, mut vault) = funded(2_000_000);
    let bid = place(&task, 1_500_000);
    cancel_task(&mut task, &mut vault, poster()).unwrap();
    assert_eq!(
        accept_bid_at(&mut task, task_key(), &bid, poster(), NOW + 20),
        Err(Failure::Rule(ErrorCode::TaskNotOpen))
    );
    assert_eq!(
        cancel_task(&mut task, &mut vault, poster()),
        Err(Failure::Rule(ErrorCode::TaskNotCancellable))
    );
    assert_eq!(vault.released(), 2_000_000);
    assert_eq!(task.assigned_agent, None);
}

#[test]
fn released_never_exceeds_funded_along_the_lifecycle() {
    let mut task = post(3_000_000);
    let mut vault = EscrowVault::open(&task);
    assert_eq!(vault.balance() + vault.released(), 0);
    initialize_escrow(&mut task, &mut vault, poster(), vault_key(), 1).unwrap();
    assert_eq!(vault.balance() + vault.released(), 3_000_000);
    assert_eq!(vault.released(), 0);
    let bid = place(&task, 1_000_000);
    accept_bid_at(&mut task, task_key(), &bid, poster(), NOW + 20).unwrap();
    assert_eq!(vault.released(), 0);
    complete_task_at(&mut task, agent(), String::from("u"), NOW + 30).unwrap();
    assert_eq!(vault.released(), 0);
    let mut reputation = seasoned(agent());
    verify_and_pay(&mut task, &mut vault, &mut reputation, poster()).unwrap();
    assert_eq!(vault.released(), 1_000_000);
    assert_eq!(vault.balance() + vault.released(), 3_000_000);
    assert!(vault.released() <= vault.balance() + vault.released());
    let again = verify_and_pay(&mut task, &mut vault, &mut reputation, poster());
    assert_eq!(again, Err(Failure::Rule(ErrorCode::TaskNotCompleted)));
    assert_eq!(vault.released(), 1_000_000);
}

#[test]
fn rating_after_verification_updates_the_record() {
    let (mut task, mut vault) = funded(2_000_000);
    let bid = place(&task, 1_500_000);
    accept_bid_at(&mut task, task_key(), &bid, poster(), NOW + 20).unwrap();
    complete_task_at(&mut task, agent(), String::from("https://x/y"), NOW + 30).unwrap();
    let mut reputation = seasoned(agent());
    verify_and_pay(&mut task, &mut vault, &mut reputation, poster()).unwrap();
    let rated = rate_agent(&task, &mut reputation, poster(), 5);
    assert_eq!(
        rated,
        Ok(gigclaw::AgentRated { task_id: String::from("t1"), agent: agent(), rating: 5 })
    );
    assert_eq!(reputation.rating_sum, 5);
    assert_eq!(reputation.rating_count, 1);
    rate_agent(&task, &mut reputation, poster(), 2).unwrap();
    assert_eq!(reputation.rating_sum, 7);
    assert_eq!(reputation.rating_count, 2);
    assert_eq!(reputation.completed_tasks, 2);
    assert_eq!(reputation.total_earned, 1_500_000);
}
