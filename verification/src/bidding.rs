//! Placing a bid on an open task, and accepting one.

use crate::bid::clears_stake;
use crate::bid::stake_cleared;
use crate::bid::Bid;
use crate::bid::BidView;
use crate::error::ErrorCode;
use crate::error::Failure;
use crate::events::BidAccepted;
use crate::events::BidPlaced;
use crate::lifecycle::task_step;
use crate::limits::MAX_TASK_DURATION;
use crate::platform::same_key;
use crate::platform::unix_time;
use crate::reputation::Reputation;
use crate::reputation::ReputationView;
use crate::status::TaskStatus;
use crate::task::Task;
use crate::task::TaskView;
use anchor_lang::prelude::Pubkey;
use vstd::prelude::*;

verus! {

/// The first rule that a bid breaks at the time `now`, if any.
///
/// The task is open, its escrow is funded and its deadline lies after
/// `now`. The amount is positive and within the budget. The bidder is
/// not the poster. The duration is positive and at most 90 days. The
/// reputation record is the bidder's own, and it clears the stake.
pub open spec fn bid_fault(
    task: TaskView,
    bidder: Pubkey,
    reputation: ReputationView,
    bid_amount: nat,
    estimated_duration: int,
    now: int,
) -> Option<Failure> {
    if task.status != TaskStatus::Posted {
        Some(Failure::Rule(ErrorCode::TaskNotOpen))
    } else if !task.escrow_initialized {
        Some(Failure::Rule(ErrorCode::EscrowNotInitialized))
    } else if now >= task.deadline {
        Some(Failure::Rule(ErrorCode::TaskExpired))
    } else if bid_amount == 0 || bid_amount > task.budget {
        Some(Failure::Rule(ErrorCode::InvalidBidAmount))
    } else if bidder == task.poster {
        Some(Failure::Rule(ErrorCode::PosterCannotBid))
    } else if estimated_duration <= 0 || estimated_duration > MAX_TASK_DURATION {
        Some(Failure::Rule(ErrorCode::InvalidDuration))
    } else if reputation.agent != bidder {
        Some(Failure::RecordMismatch)
    } else if !stake_cleared(reputation, bid_amount) {
        Some(Failure::Rule(ErrorCode::InsufficientReputation))
    } else {
        None
    }
}

/// Why a bid cannot be placed at the time `now`, if it cannot: the
/// bidder has bid on the task already, or the bid breaks a rule.
pub open spec fn bid_on_task_fault(
    taken: bool,
    task: TaskView,
    bidder: Pubkey,
    reputation: ReputationView,
    bid_amount: nat,
    estimated_duration: int,
    now: int,
) -> Option<Failure> {
    if taken {
        Some(Failure::RecordExists)
    } else {
        bid_fault(task, bidder, reputation, bid_amount, estimated_duration, now)
    }
}

/// Checks a bid against the rules at the time `now`.
fn check_bid(
    task: &Task,
    bidder: Pubkey,
    reputation: &Reputation,
    bid_amount: u64,
    estimated_duration: i64,
    now: i64,
) -> (checked: Result<(), Failure>)
    ensures
        match checked {
            Ok(_) => bid_fault(
                task@,
                bidder,
                reputation@,
                bid_amount as nat,
                estimated_duration as int,
                now as int,
            ) is None,
            Err(failure) => bid_fault(
                task@,
                bidder,
                reputation@,
                bid_amount as nat,
                estimated_duration as int,
                now as int,
            ) == Some(failure),
        },
{
    if task.status != TaskStatus::Posted {
        return Err(Failure::Rule(ErrorCode::TaskNotOpen));
    }
    if !task.escrow_initialized {
        return Err(Failure::Rule(ErrorCode::EscrowNotInitialized));
    }
    if now >= task.deadline {
        return Err(Failure::Rule(ErrorCode::TaskExpired));
    }
    if bid_amount == 0 || bid_amount > task.budget {
        return Err(Failure::Rule(ErrorCode::InvalidBidAmount));
    }
    if same_key(&bidder, &task.poster) {
        return Err(Failure::Rule(ErrorCode::PosterCannotBid));
    }
    if estimated_duration <= 0 || estimated_duration > MAX_TASK_DURATION {
        return Err(Failure::Rule(ErrorCode::InvalidDuration));
    }
    if !same_key(&reputation.agent, &bidder) {
        return Err(Failure::RecordMismatch);
    }
    if !clears_stake(reputation, bid_amount) {
        return Err(Failure::Rule(ErrorCode::InsufficientReputation));
    }
    Ok(())
}

/// Writes the placed bid into the empty slot and reports it.
fn record_bid(
    slot: &mut Option<Bid>,
    task: &Task,
    task_key: Pubkey,
    bidder: Pubkey,
    bid_amount: u64,
    estimated_duration: i64,
    now: i64,
) -> (event: BidPlaced)
    ensures
        (*final(slot)) matches Some(bid) && bid@ == BidView::placed(
            task_key,
            bidder,
            bid_amount as nat,
            estimated_duration as int,
            now as int,
        ),
        event == (BidPlaced { task_id: task.task_id, bidder, amount: bid_amount }),
{
    *slot = Some(Bid::placed(task_key, bidder, bid_amount, estimated_duration, now));
    BidPlaced { task_id: task.task_id.clone(), bidder, amount: bid_amount }
}

/// Places a bid at the time `now`.
///
/// `slot` is the place that the pair of task and bidder leads to,
/// `task_key` the key of the task's record, and `reputation` the
/// bidder's record. If the slot is taken or the bid breaks a rule,
/// nothing is written. Otherwise the slot holds the new bid, placed at
/// `now` and not accepted. No funds move.
pub fn bid_on_task_at(
    slot: &mut Option<Bid>,
    task: &Task,
    task_key: Pubkey,
    bidder: Pubkey,
    reputation: &Reputation,
    bid_amount: u64,
    estimated_duration: i64,
    now: i64,
) -> (placed: Result<BidPlaced, Failure>)
    ensures
        match placed {
            Ok(event) => {
                &&& bid_on_task_fault(
                    (*old(slot)) is Some,
                    task@,
                    bidder,
                    reputation@,
                    bid_amount as nat,
                    estimated_duration as int,
                    now as int,
                ) is None
                &&& (*final(slot)) matches Some(bid) && bid@ == BidView::placed(
                    task_key,
                    bidder,
                    bid_amount as nat,
                    estimated_duration as int,
                    now as int,
                ) && bid@.fits(task@)
                &&& event == (BidPlaced { task_id: task.task_id, bidder, amount: bid_amount })
            },
            Err(failure) => {
                &&& bid_on_task_fault(
                    (*old(slot)) is Some,
                    task@,
                    bidder,
                    reputation@,
                    bid_amount as nat,
                    estimated_duration as int,
                    now as int,
                ) == Some(failure)
                &&& *final(slot) == *old(slot)
            },
        },
{
    if slot.is_some() {
        return Err(Failure::RecordExists);
    }
    match check_bid(task, bidder, reputation, bid_amount, estimated_duration, now) {
        Ok(_) => {},
        Err(failure) => { return Err(failure); },
    }
    Ok(record_bid(slot, task, task_key, bidder, bid_amount, estimated_duration, now))
}

/// Places a bid at the time that the clock gives.
///
/// A taken slot is reported before the clock is read. After that the
/// clock decides: its refusal is handed on, and otherwise the bid is
/// placed, or refused, as `bid_on_task_at` does at the time it gave.
/// On every failure nothing is written.
pub fn bid_on_task(
    slot: &mut Option<Bid>,
    task: &Task,
    task_key: Pubkey,
    bidder: Pubkey,
    reputation: &Reputation,
    bid_amount: u64,
    estimated_duration: i64,
) -> (placed: Result<BidPlaced, Failure>)
    ensures
        (*old(slot)) is Some ==> placed == Err::<BidPlaced, Failure>(Failure::RecordExists),
        match placed {
            Ok(event) => {
                &&& exists|now: i64|
                    {
                        &&& #[trigger] bid_on_task_fault(
                            (*old(slot)) is Some,
                            task@,
                            bidder,
                            reputation@,
                            bid_amount as nat,
                            estimated_duration as int,
                            now as int,
                        ) is None
                        &&& (*final(slot)) matches Some(bid) && bid@ == BidView::placed(
                            task_key,
                            bidder,
                            bid_amount as nat,
                            estimated_duration as int,
                            now as int,
                        )
                    }
                &&& (*final(slot)) matches Some(bid) && bid@.fits(task@)
                &&& event == (BidPlaced { task_id: task.task_id, bidder, amount: bid_amount })
            },
            Err(Failure::Clock(_)) => (*old(slot)) is None && *final(slot) == *old(slot),
            Err(failure) => {
                &&& exists|now: i64|
                    #[trigger] bid_on_task_fault(
                        (*old(slot)) is Some,
                        task@,
                        bidder,
                        reputation@,
                        bid_amount as nat,
                        estimated_duration as int,
                        now as int,
                    ) == Some(failure)
                &&& *final(slot) == *old(slot)
            },
        },
{
    if slot.is_some() {
        assert(bid_on_task_fault(
            (*old(slot)) is Some,
            task@,
            bidder,
            reputation@,
            bid_amount as nat,
            estimated_duration as int,
            0i64 as int,
        ) == Some(Failure::RecordExists));
        return Err(Failure::RecordExists);
    }
    let now: i64 = match unix_time() {
        Ok(time) => time,
        Err(refusal) => { return Err(Failure::Clock(refusal)); },
    };
    bid_on_task_at(slot, task, task_key, bidder, reputation, bid_amount, estimated_duration, now)
}

/// The first rule that accepting `bid` breaks at the time `now`, if
/// any: the task is open, its deadline lies after `now`, the caller is
/// the poster, and the bid was placed on the task.
pub open spec fn accept_bid_fault(
    task: TaskView,
    task_key: Pubkey,
    bid: BidView,
    caller: Pubkey,
    now: int,
) -> Option<ErrorCode> {
    if task.status != TaskStatus::Posted {
        Some(ErrorCode::TaskNotOpen)
    } else if now >= task.deadline {
        Some(ErrorCode::TaskExpired)
    } else if task.poster != caller {
        Some(ErrorCode::UnauthorizedPoster)
    } else if bid.task != task_key {
        Some(ErrorCode::InvalidBid)
    } else {
        None
    }
}

/// The task once `bid` is accepted: in progress, assigned to the
/// bidder, its final budget the bid's amount.
pub open spec fn assigned_task(task: TaskView, bid: BidView) -> TaskView {
    TaskView {
        assigned_agent: Some(bid.bidder),
        status: TaskStatus::InProgress,
        final_budget: bid.amount,
        ..task
    }
}

/// Accepts `bid` at the time `now`. `task_key` is the key of the
/// task's record. On failure the task is unchanged.
pub fn accept_bid_at(
    task: &mut Task,
    task_key: Pubkey,
    bid: &Bid,
    caller: Pubkey,
    now: i64,
) -> (accepted: Result<BidAccepted, Failure>)
    ensures
        match accepted {
            Ok(event) => {
                &&& accept_bid_fault(old(task)@, task_key, bid@, caller, now as int) is None
                &&& final(task)@ == assigned_task(old(task)@, bid@)
                &&& event == (BidAccepted {
                    task_id: old(task).task_id,
                    agent: bid.bidder,
                    amount: bid.amount,
                })
            },
            Err(failure) => {
                &&& failure is Rule
                &&& accept_bid_fault(old(task)@, task_key, bid@, caller, now as int)
                    == failure.spec_rule()
                &&& *final(task) == *old(task)
            },
        },
        task_step(old(task)@, final(task)@),
        final(task)@.escrow_funded() == old(task)@.escrow_funded(),
        final(task)@.escrow_released() == old(task)@.escrow_released(),
{
    if task.status != TaskStatus::Posted {
        return Err(Failure::Rule(ErrorCode::TaskNotOpen));
    }
    if now >= task.deadline {
        return Err(Failure::Rule(ErrorCode::TaskExpired));
    }
    if !same_key(&task.poster, &caller) {
        return Err(Failure::Rule(ErrorCode::UnauthorizedPoster));
    }
    if !same_key(&bid.task, &task_key) {
        return Err(Failure::Rule(ErrorCode::InvalidBid));
    }
    task.assigned_agent = Some(bid.bidder);
    task.status = TaskStatus::InProgress;
    task.final_budget = bid.amount;
    Ok(BidAccepted { task_id: task.task_id.clone(), agent: bid.bidder, amount: bid.amount })
}

/// Accepts `bid` at the time that the clock gives: the clock's refusal
/// is handed on, and otherwise the bid is accepted, or refused, as
/// `accept_bid_at` does at the time it gave. On every failure the
/// task is unchanged.
pub fn accept_bid(task: &mut Task, task_key: Pubkey, bid: &Bid, caller: Pubkey) -> (accepted:
    Result<BidAccepted, Failure>)
    ensures
        match accepted {
            Ok(event) => {
                &&& exists|now: i64|
                    #[trigger] accept_bid_fault(old(task)@, task_key, bid@, caller, now as int)
                        is None
                &&& final(task)@ == assigned_task(old(task)@, bid@)
                &&& event == (BidAccepted {
                    task_id: old(task).task_id,
                    agent: bid.bidder,
                    amount: bid.amount,
                })
            },
            Err(Failure::Clock(_)) => *final(task) == *old(task),
            Err(failure) => {
                &&& failure is Rule
                &&& exists|now: i64|
                    #[trigger] accept_bid_fault(old(task)@, task_key, bid@, caller, now as int)
                        == failure.spec_rule()
                &&& *final(task) == *old(task)
            },
        },
        task_step(old(task)@, final(task)@),
        final(task)@.escrow_funded() == old(task)@.escrow_funded(),
        final(task)@.escrow_released() == old(task)@.escrow_released(),
{
    let now: i64 = match unix_time() {
        Ok(time) => time,
        Err(refusal) => { return Err(Failure::Clock(refusal)); },
    };
    match accept_bid_at(task, task_key, bid, caller, now) {
        Ok(event) => {
            assert(accept_bid_fault(old(task)@, task_key, bid@, caller, now as int) is None);
            Ok(event)
        },
        Err(failure) => {
            assert(accept_bid_fault(old(task)@, task_key, bid@, caller, now as int)
                == failure.spec_rule());
            Err(failure)
        },
    }
}

} // verus!
