//! Posting a task, funding its escrow, and cancelling it.

use crate::error::ErrorCode;
use crate::error::Failure;
use crate::escrow::EscrowVault;
use crate::escrow::VaultView;
use crate::events::EscrowInitialized;
use crate::events::TaskCancelled;
use crate::events::TaskCreated;
use crate::lifecycle::custody_step;
use crate::platform::same_key;
use crate::platform::unix_time;
use crate::status::TaskStatus;
use crate::task::Task;
use crate::task::TaskView;
use crate::validation::input_fault;
use crate::validation::text_fault;
use crate::validation::validate_task_inputs_at;
use crate::validation::validate_task_text;
use anchor_lang::prelude::Pubkey;
use vstd::prelude::*;

verus! {

/// Why a task cannot be posted at the time `now`, if it cannot: its
/// key is taken already, or its fields break a rule.
pub open spec fn create_task_fault(
    taken: bool,
    task_id: Seq<char>,
    title: Seq<char>,
    description: Seq<char>,
    budget: nat,
    deadline: int,
    required_skills: Seq<Seq<char>>,
    now: int,
) -> Option<Failure> {
    if taken {
        Some(Failure::RecordExists)
    } else {
        match input_fault(task_id, title, description, budget, deadline, required_skills, now) {
            Some(code) => Some(Failure::Rule(code)),
            None => None,
        }
    }
}

/// Writes the posted task into the empty slot and reports it.
fn record_task(
    slot: &mut Option<Task>,
    poster: Pubkey,
    task_id: String,
    title: String,
    description: String,
    budget: u64,
    deadline: i64,
    required_skills: Vec<String>,
    now: i64,
) -> (event: TaskCreated)
    ensures
        (*final(slot)) matches Some(task) && task@ == TaskView::posted(
            task_id@,
            poster,
            title@,
            description@,
            budget as nat,
            deadline as int,
            required_skills.deep_view(),
            now as int,
        ),
        event == (TaskCreated { task_id, poster, budget, deadline }),
{
    let event = TaskCreated { task_id: task_id.clone(), poster, budget, deadline };
    *slot = Some(
        Task::posted(task_id, poster, title, description, budget, deadline, required_skills, now),
    );
    event
}

/// Posts a task at the time `now`.
///
/// `slot` is the place that the task's key leads to. If it is taken,
/// or a field breaks a rule, nothing is written. Otherwise the slot
/// holds the new task: open, unfunded, created at `now`.
pub fn create_task_at(
    slot: &mut Option<Task>,
    poster: Pubkey,
    task_id: String,
    title: String,
    description: String,
    budget: u64,
    deadline: i64,
    required_skills: Vec<String>,
    now: i64,
) -> (posted: Result<TaskCreated, Failure>)
    ensures
        match posted {
            Ok(event) => {
                &&& create_task_fault(
                    (*old(slot)) is Some,
                    task_id@,
                    title@,
                    description@,
                    budget as nat,
                    deadline as int,
                    required_skills.deep_view(),
                    now as int,
                ) is None
                &&& (*final(slot)) matches Some(task) && task@ == TaskView::posted(
                    task_id@,
                    poster,
                    title@,
                    description@,
                    budget as nat,
                    deadline as int,
                    required_skills.deep_view(),
                    now as int,
                )
                &&& event == (TaskCreated { task_id, poster, budget, deadline })
            },
            Err(failure) => {
                &&& create_task_fault(
                    (*old(slot)) is Some,
                    task_id@,
                    title@,
                    description@,
                    budget as nat,
                    deadline as int,
                    required_skills.deep_view(),
                    now as int,
                ) == Some(failure)
                &&& *final(slot) == *old(slot)
            },
        },
{
    if slot.is_some() {
        return Err(Failure::RecordExists);
    }
    let skills: &[String] = required_skills.as_slice();
    assert(skills.deep_view() =~= required_skills.deep_view());
    match validate_task_inputs_at(
        task_id.as_str(),
        title.as_str(),
        description.as_str(),
        budget,
        deadline,
        skills,
        now,
    ) {
        Ok(_) => {},
        Err(code) => { return Err(Failure::Rule(code)); },
    }
    let event = record_task(
        slot,
        poster,
        task_id,
        title,
        description,
        budget,
        deadline,
        required_skills,
        now,
    );
    Ok(event)
}

/// Posts a task at the time that the clock gives.
///
/// A taken slot and a fault in the texts or the budget are reported
/// before the clock is read, whatever it would say. After that the
/// clock decides: its refusal is handed on, and otherwise the task is
/// posted, or refused, as `create_task_at` does at the time it gave.
/// On every failure nothing is written.
pub fn create_task(
    slot: &mut Option<Task>,
    poster: Pubkey,
    task_id: String,
    title: String,
    description: String,
    budget: u64,
    deadline: i64,
    required_skills: Vec<String>,
) -> (posted: Result<TaskCreated, Failure>)
    ensures
        (*old(slot)) is Some ==> posted == Err::<TaskCreated, Failure>(Failure::RecordExists),
        (*old(slot)) is None ==> (text_fault(task_id@, title@, description@, budget as nat)
            matches Some(code) ==> posted == Err::<TaskCreated, Failure>(Failure::Rule(code))),
        match posted {
            Ok(event) => {
                &&& exists|now: i64|
                    {
                        &&& #[trigger] create_task_fault(
                            (*old(slot)) is Some,
                            task_id@,
                            title@,
                            description@,
                            budget as nat,
                            deadline as int,
                            required_skills.deep_view(),
                            now as int,
                        ) is None
                        &&& (*final(slot)) matches Some(task) && task@ == TaskView::posted(
                            task_id@,
                            poster,
                            title@,
                            description@,
                            budget as nat,
                            deadline as int,
                            required_skills.deep_view(),
                            now as int,
                        )
                    }
                &&& event == (TaskCreated { task_id, poster, budget, deadline })
            },
            Err(Failure::Clock(_)) => {
                &&& (*old(slot)) is None
                &&& text_fault(task_id@, title@, description@, budget as nat) is None
                &&& *final(slot) == *old(slot)
            },
            Err(failure) => {
                &&& exists|now: i64|
                    #[trigger] create_task_fault(
                        (*old(slot)) is Some,
                        task_id@,
                        title@,
                        description@,
                        budget as nat,
                        deadline as int,
                        required_skills.deep_view(),
                        now as int,
                    ) == Some(failure)
                &&& *final(slot) == *old(slot)
            },
        },
{
    if slot.is_some() {
        assert(create_task_fault(
            (*old(slot)) is Some,
            task_id@,
            title@,
            description@,
            budget as nat,
            deadline as int,
            required_skills.deep_view(),
            0i64 as int,
        ) == Some(Failure::RecordExists));
        return Err(Failure::RecordExists);
    }
    match validate_task_text(task_id.as_str(), title.as_str(), description.as_str(), budget) {
        Ok(_) => {},
        Err(code) => {
            assert(create_task_fault(
                (*old(slot)) is Some,
                task_id@,
                title@,
                description@,
                budget as nat,
                deadline as int,
                required_skills.deep_view(),
                0i64 as int,
            ) == Some(Failure::Rule(code)));
            return Err(Failure::Rule(code));
        },
    }
    let now: i64 = match unix_time() {
        Ok(time) => time,
        Err(refusal) => { return Err(Failure::Clock(refusal)); },
    };
    create_task_at(
        slot,
        poster,
        task_id,
        title,
        description,
        budget,
        deadline,
        required_skills,
        now,
    )
}

/// Why a task's escrow cannot be funded, if it cannot: the caller is
/// the poster, the escrow is not funded yet, the task is open, the
/// vault is the task's own, and it can take the budget.
pub open spec fn initialize_escrow_fault(task: TaskView, vault: VaultView, caller: Pubkey)
    -> Option<Failure> {
    if task.poster != caller {
        Some(Failure::Rule(ErrorCode::UnauthorizedPoster))
    } else if task.escrow_initialized {
        Some(Failure::Rule(ErrorCode::EscrowAlreadyInitialized))
    } else if task.status != TaskStatus::Posted {
        Some(Failure::Rule(ErrorCode::TaskNotOpen))
    } else if !vault.belongs_to(task) {
        Some(Failure::RecordMismatch)
    } else if !vault.can_take(task.budget) {
        Some(Failure::Rule(ErrorCode::ArithmeticOverflow))
    } else {
        None
    }
}

/// The task once its escrow is funded.
pub open spec fn escrow_funded_task(task: TaskView, bump: u8) -> TaskView {
    TaskView { escrow_initialized: true, escrow_bump: bump, ..task }
}

/// Moves the task's budget into its vault. Only the poster can do
/// this, once, and while the task is open. `escrow` is the vault's
/// key and `bump` its bump seed; the task keeps the seed. On failure
/// neither the task nor the vault changes.
pub fn initialize_escrow(
    task: &mut Task,
    vault: &mut EscrowVault,
    caller: Pubkey,
    escrow: Pubkey,
    bump: u8,
) -> (funded: Result<EscrowInitialized, Failure>)
    ensures
        match funded {
            Ok(event) => {
                &&& initialize_escrow_fault(old(task)@, old(vault)@, caller) is None
                &&& final(task)@ == escrow_funded_task(old(task)@, bump)
                &&& final(vault)@ == old(vault)@.after_funding(old(task)@.budget)
                &&& event == (EscrowInitialized {
                    task_id: old(task).task_id,
                    escrow,
                    amount: old(task).budget,
                })
            },
            Err(failure) => {
                &&& initialize_escrow_fault(old(task)@, old(vault)@, caller) == Some(failure)
                &&& *final(task) == *old(task)
                &&& *final(vault) == *old(vault)
            },
        },
        custody_step(old(task)@, old(vault)@, final(task)@, final(vault)@),
{
    if !same_key(&task.poster, &caller) {
        return Err(Failure::Rule(ErrorCode::UnauthorizedPoster));
    }
    if task.escrow_initialized {
        return Err(Failure::Rule(ErrorCode::EscrowAlreadyInitialized));
    }
    if task.status != TaskStatus::Posted {
        return Err(Failure::Rule(ErrorCode::TaskNotOpen));
    }
    if !vault.belongs_to(task) {
        return Err(Failure::RecordMismatch);
    }
    match vault.fund(task.budget) {
        Ok(_) => {},
        Err(code) => { return Err(Failure::Rule(code)); },
    }
    task.escrow_initialized = true;
    task.escrow_bump = bump;
    Ok(EscrowInitialized { task_id: task.task_id.clone(), escrow, amount: task.budget })
}

/// Why a task cannot be cancelled, if it cannot.
///
/// The state comes first: a task that has left the open state cannot
/// be cancelled, whoever asks. Then the caller is the poster. And
/// where the budget is in escrow, the vault is the task's own and can
/// give the budget.
pub open spec fn cancel_task_fault(task: TaskView, vault: VaultView, caller: Pubkey) -> Option<
    Failure,
> {
    if task.status != TaskStatus::Posted {
        Some(Failure::Rule(ErrorCode::TaskNotCancellable))
    } else if task.poster != caller {
        Some(Failure::Rule(ErrorCode::UnauthorizedPoster))
    } else if task.escrow_initialized && !vault.belongs_to(task) {
        Some(Failure::RecordMismatch)
    } else if task.escrow_initialized {
        vault.release_fault(task.budget)
    } else {
        None
    }
}

/// The task once it is cancelled.
pub open spec fn cancelled_task(task: TaskView) -> TaskView {
    TaskView { status: TaskStatus::Cancelled, ..task }
}

/// Cancels an open task. Only the poster can do this. If the budget
/// is in escrow, it leaves the vault for the poster. A task that has
/// left the open state answers `TaskNotCancellable` to every caller.
/// On failure neither the task nor the vault changes.
pub fn cancel_task(task: &mut Task, vault: &mut EscrowVault, caller: Pubkey) -> (cancelled: Result<
    TaskCancelled,
    Failure,
>)
    ensures
        match cancelled {
            Ok(event) => {
                &&& cancel_task_fault(old(task)@, old(vault)@, caller) is None
                &&& final(task)@ == cancelled_task(old(task)@)
                &&& final(vault)@ == old(vault)@.after_release(old(task)@.escrow_funded())
                &&& event == (TaskCancelled {
                    task_id: old(task).task_id,
                    poster: old(task).poster,
                    refund_amount: if old(task).escrow_initialized {
                        old(task).budget
                    } else {
                        0
                    },
                })
            },
            Err(failure) => {
                &&& cancel_task_fault(old(task)@, old(vault)@, caller) == Some(failure)
                &&& *final(task) == *old(task)
                &&& *final(vault) == *old(vault)
            },
        },
        custody_step(old(task)@, old(vault)@, final(task)@, final(vault)@),
{
    if task.status != TaskStatus::Posted {
        return Err(Failure::Rule(ErrorCode::TaskNotCancellable));
    }
    if !same_key(&task.poster, &caller) {
        return Err(Failure::Rule(ErrorCode::UnauthorizedPoster));
    }
    let mut refund_amount: u64 = 0;
    if task.escrow_initialized {
        if !vault.belongs_to(task) {
            return Err(Failure::RecordMismatch);
        }
        match vault.release(task.budget) {
            Ok(_) => {},
            Err(failure) => { return Err(failure); },
        }
        refund_amount = task.budget;
    }
    task.status = TaskStatus::Cancelled;
    Ok(TaskCancelled { task_id: task.task_id.clone(), poster: task.poster, refund_amount })
}

} // verus!
