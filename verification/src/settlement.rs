//! Handing in a delivery, and verifying it: the payment leaves the
//! vault and the agent's reputation grows in the same step.

use crate::error::ErrorCode;
use crate::error::Failure;
use crate::escrow::EscrowVault;
use crate::escrow::VaultView;
use crate::events::PaymentReleased;
use crate::events::TaskCompleted;
use crate::lifecycle::custody_step;
use crate::lifecycle::reputation_step;
use crate::lifecycle::task_step;
use crate::limits::MAX_DELIVERY_URL_LENGTH;
use crate::platform::same_key;
use crate::platform::unix_time;
use crate::reputation::Reputation;
use crate::reputation::ReputationView;
use crate::status::TaskStatus;
use crate::task::Task;
use crate::task::TaskView;
use anchor_lang::prelude::Pubkey;
use vstd::prelude::*;

verus! {

/// The first rule that a delivery breaks, if any: the task is in
/// progress, the caller is its assigned agent, and the link has 1 to
/// 200 characters.
pub open spec fn complete_task_fault(task: TaskView, caller: Pubkey, delivery_url: Seq<char>)
    -> Option<ErrorCode> {
    if task.status != TaskStatus::InProgress {
        Some(ErrorCode::TaskNotInProgress)
    } else if task.assigned_agent != Some(caller) {
        Some(ErrorCode::UnauthorizedAgent)
    } else if delivery_url.len() == 0 || delivery_url.len() > MAX_DELIVERY_URL_LENGTH {
        Some(ErrorCode::InvalidDeliveryUrl)
    } else {
        None
    }
}

/// The task once the delivery is handed in at the time `now`.
pub open spec fn completed_task(task: TaskView, delivery_url: Seq<char>, now: int) -> TaskView {
    TaskView {
        status: TaskStatus::Completed,
        delivery_url: Some(delivery_url),
        completed_at: Some(now),
        ..task
    }
}

/// Whether `agent` is the one the task is assigned to.
fn is_assigned_to(task: &Task, agent: Pubkey) -> (assigned: bool)
    ensures
        assigned == (task@.assigned_agent == Some(agent)),
{
    match task.assigned_agent {
        Some(assigned) => same_key(&assigned, &agent),
        None => false,
    }
}

/// Hands in the delivery at the time `now`. On failure the task is
/// unchanged.
pub fn complete_task_at(
    task: &mut Task,
    caller: Pubkey,
    delivery_url: String,
    now: i64,
) -> (completed: Result<TaskCompleted, Failure>)
    ensures
        match completed {
            Ok(event) => {
                &&& complete_task_fault(old(task)@, caller, delivery_url@) is None
                &&& final(task)@ == completed_task(old(task)@, delivery_url@, now as int)
                &&& event == (TaskCompleted { task_id: old(task).task_id, agent: caller })
            },
            Err(failure) => {
                &&& failure is Rule
                &&& complete_task_fault(old(task)@, caller, delivery_url@) == failure.spec_rule()
                &&& *final(task) == *old(task)
            },
        },
        task_step(old(task)@, final(task)@),
        final(task)@.escrow_funded() == old(task)@.escrow_funded(),
        final(task)@.escrow_released() == old(task)@.escrow_released(),
{
    if task.status != TaskStatus::InProgress {
        return Err(Failure::Rule(ErrorCode::TaskNotInProgress));
    }
    if !is_assigned_to(task, caller) {
        return Err(Failure::Rule(ErrorCode::UnauthorizedAgent));
    }
    let length: usize = delivery_url.as_str().unicode_len();
    if length == 0 || length > MAX_DELIVERY_URL_LENGTH {
        return Err(Failure::Rule(ErrorCode::InvalidDeliveryUrl));
    }
    task.status = TaskStatus::Completed;
    task.delivery_url = Some(delivery_url);
    task.completed_at = Some(now);
    Ok(TaskCompleted { task_id: task.task_id.clone(), agent: caller })
}

/// Hands in the delivery at the time that the clock gives. The clock
/// is read first and its refusal handed on; otherwise the outcome is
/// that of `complete_task_at`, which depends on the time only in the
/// moment of completion that the task records. On every failure the
/// task is unchanged.
pub fn complete_task(task: &mut Task, caller: Pubkey, delivery_url: String) -> (completed: Result<
    TaskCompleted,
    Failure,
>)
    ensures
        match completed {
            Ok(event) => {
                &&& complete_task_fault(old(task)@, caller, delivery_url@) is None
                &&& exists|now: i64|
                    final(task)@ == #[trigger] completed_task(
                        old(task)@,
                        delivery_url@,
                        now as int,
                    )
                &&& event == (TaskCompleted { task_id: old(task).task_id, agent: caller })
            },
            Err(Failure::Clock(_)) => *final(task) == *old(task),
            Err(failure) => {
                &&& failure is Rule
                &&& complete_task_fault(old(task)@, caller, delivery_url@) == failure.spec_rule()
                &&& *final(task) == *old(task)
            },
        },
        task_step(old(task)@, final(task)@),
        final(task)@.escrow_funded() == old(task)@.escrow_funded(),
        final(task)@.escrow_released() == old(task)@.escrow_released(),
{
    let now: i64 = match unix_time() {
        Ok(time) => time,
        Err(refusal) => { return Err(Failure::Clock(refusal)); },
    };
    let ghost link = delivery_url@;
    match complete_task_at(task, caller, delivery_url, now) {
        Ok(event) => {
            assert(task@ == completed_task(old(task)@, link, now as int));
            Ok(event)
        },
        Err(failure) => Err(failure),
    }
}

/// Why a delivery cannot be verified and paid, if it cannot.
///
/// The task is completed and the caller is its poster. The reputation
/// record is that of the assigned agent, and the vault is the task's
/// own. The vault holds the final budget and can give it, and the
/// record has room for it.
pub open spec fn verify_and_pay_fault(
    task: TaskView,
    vault: VaultView,
    reputation: ReputationView,
    caller: Pubkey,
) -> Option<Failure> {
    if task.status != TaskStatus::Completed {
        Some(Failure::Rule(ErrorCode::TaskNotCompleted))
    } else if task.poster != caller {
        Some(Failure::Rule(ErrorCode::UnauthorizedPoster))
    } else if task.assigned_agent != Some(reputation.agent) {
        Some(Failure::RecordMismatch)
    } else if !vault.belongs_to(task) {
        Some(Failure::RecordMismatch)
    } else {
        match vault.release_fault(task.final_budget) {
            Some(failure) => Some(failure),
            None => if !reputation.completion_fits(task.final_budget) {
                Some(Failure::Rule(ErrorCode::ArithmeticOverflow))
            } else {
                None
            },
        }
    }
}

/// The task once it is verified.
pub open spec fn verified_task(task: TaskView) -> TaskView {
    TaskView { status: TaskStatus::Verified, ..task }
}

/// Verifies the delivery and pays the agent: the final budget leaves
/// the vault, the agent's record counts one more completed task paid
/// that amount, and the task is verified. On failure nothing changes:
/// neither the task nor the vault nor the record.
pub fn verify_and_pay(
    task: &mut Task,
    vault: &mut EscrowVault,
    reputation: &mut Reputation,
    caller: Pubkey,
) -> (paid: Result<PaymentReleased, Failure>)
    ensures
        match paid {
            Ok(event) => {
                &&& verify_and_pay_fault(old(task)@, old(vault)@, old(reputation)@, caller) is None
                &&& final(task)@ == verified_task(old(task)@)
                &&& final(vault)@ == old(vault)@.after_release(old(task)@.final_budget)
                &&& final(reputation)@ == old(reputation)@.after_completion(
                    old(task)@.final_budget,
                )
                &&& event == (PaymentReleased {
                    task_id: old(task).task_id,
                    agent: old(reputation).agent,
                    amount: old(task).final_budget,
                })
            },
            Err(failure) => {
                &&& verify_and_pay_fault(old(task)@, old(vault)@, old(reputation)@, caller) == Some(
                    failure,
                )
                &&& *final(task) == *old(task)
                &&& *final(vault) == *old(vault)
                &&& *final(reputation) == *old(reputation)
            },
        },
        paid is Ok && old(reputation).failed_tasks == 0 ==> final(reputation).success_rate == 100,
        custody_step(old(task)@, old(vault)@, final(task)@, final(vault)@),
        reputation_step(old(reputation)@, final(reputation)@),
{
    if task.status != TaskStatus::Completed {
        return Err(Failure::Rule(ErrorCode::TaskNotCompleted));
    }
    if !same_key(&task.poster, &caller) {
        return Err(Failure::Rule(ErrorCode::UnauthorizedPoster));
    }
    let agent: Pubkey = reputation.agent;
    if !is_assigned_to(task, agent) {
        return Err(Failure::RecordMismatch);
    }
    if !vault.belongs_to(task) {
        return Err(Failure::RecordMismatch);
    }
    match vault.release_refusal(task.final_budget) {
        Some(failure) => { return Err(failure); },
        None => {},
    }
    match reputation.record_completion(task.final_budget) {
        Ok(_) => {},
        Err(code) => { return Err(Failure::Rule(code)); },
    }
    match vault.release(task.final_budget) {
        Ok(_) => {},
        Err(failure) => { return Err(failure); },
    }
    task.status = TaskStatus::Verified;
    Ok(PaymentReleased { task_id: task.task_id.clone(), agent, amount: task.final_budget })
}

} // verus!
