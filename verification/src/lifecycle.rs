//! The marketplace seen as a state machine: what one operation can make
//! of a task, of its vault and of a reputation record, and what
//! therefore holds after any number of operations.
//!
//! Every operation of this library states that it takes a step in the
//! sense given here. A history is a sequence of states in which each
//! follows from the one before by one step.

use crate::bid::BidView;
use crate::bidding::accept_bid_fault;
use crate::bidding::assigned_task;
use crate::error::ErrorCode;
use crate::error::ErrorKind;
use crate::error::Failure;
use crate::escrow::VaultView;
use crate::posting::cancel_task_fault;
use crate::reputation::lemma_success_rate_bounded;
use crate::reputation::ReputationView;
use crate::status::TaskStatus;
use crate::task::TaskView;
use anchor_lang::prelude::Pubkey;
use vstd::prelude::*;

verus! {

/// What one operation can make of a task: nothing; a funded escrow and
/// a bump seed, on an open and unfunded task; a cancelled task, from
/// an open one; a task in progress with an agent and a final budget,
/// from an open one; a completed task with a delivery, from one in
/// progress; a verified task, from a completed one. Nothing else ever
/// changes.
pub open spec fn task_step(before: TaskView, after: TaskView) -> bool {
    ||| after == before
    ||| {
        &&& before.status == TaskStatus::Posted
        &&& !before.escrow_initialized
        &&& after == (TaskView {
            escrow_initialized: true,
            escrow_bump: after.escrow_bump,
            ..before
        })
    }
    ||| {
        &&& before.status == TaskStatus::Posted
        &&& after == (TaskView { status: TaskStatus::Cancelled, ..before })
    }
    ||| {
        &&& before.status == TaskStatus::Posted
        &&& after.assigned_agent is Some
        &&& after == (TaskView {
            status: TaskStatus::InProgress,
            assigned_agent: after.assigned_agent,
            final_budget: after.final_budget,
            ..before
        })
    }
    ||| {
        &&& before.status == TaskStatus::InProgress
        &&& after.delivery_url is Some
        &&& after.completed_at is Some
        &&& after == (TaskView {
            status: TaskStatus::Completed,
            delivery_url: after.delivery_url,
            completed_at: after.completed_at,
            ..before
        })
    }
    ||| {
        &&& before.status == TaskStatus::Completed
        &&& after == (TaskView { status: TaskStatus::Verified, ..before })
    }
}

/// A task and its vault move in lock-step: the task takes a step, the
/// vault stays the same task's, and what enters and leaves it is
/// exactly what the task's record says was funded and released on its
/// behalf.
pub open spec fn custody_step(
    before: TaskView,
    vault_before: VaultView,
    after: TaskView,
    vault_after: VaultView,
) -> bool {
    &&& task_step(before, after)
    &&& vault_after.task_id == vault_before.task_id
    &&& vault_after.funded() - vault_before.funded() == after.escrow_funded()
        - before.escrow_funded()
    &&& vault_after.released - vault_before.released == after.escrow_released()
        - before.escrow_released()
}

/// What one operation can make of a reputation record: nothing, one
/// more completed task, or one more rating.
pub open spec fn reputation_step(before: ReputationView, after: ReputationView) -> bool {
    ||| after == before
    ||| exists|amount: nat|
        before.completion_fits(amount) && after == #[trigger] before.after_completion(amount)
    ||| exists|rating: nat|
        before.rating_fits(rating) && after == #[trigger] before.after_rating(rating)
}

/// The vault is the task's own, and its books agree with the task's:
/// what entered the vault is what the task had funded, and what left
/// it is what the task had released.
pub open spec fn vault_backs(vault: VaultView, task: TaskView) -> bool {
    &&& vault.belongs_to(task)
    &&& vault.funded() == task.escrow_funded()
    &&& vault.released == task.escrow_released()
}

/// Each task of the sequence follows from the one before by one step.
pub open spec fn is_task_history(history: Seq<TaskView>) -> bool {
    forall|i: int|
        #![trigger history[i]]
        0 <= i < history.len() - 1 ==> task_step(history[i], history[i + 1])
}

/// Each pair of task and vault follows from the one before in
/// lock-step.
pub open spec fn is_custody_history(history: Seq<(TaskView, VaultView)>) -> bool {
    forall|i: int|
        #![trigger history[i]]
        0 <= i < history.len() - 1 ==> custody_step(
            history[i].0,
            history[i].1,
            history[i + 1].0,
            history[i + 1].1,
        )
}

/// Each record of the sequence follows from the one before by one
/// step.
pub open spec fn is_reputation_history(history: Seq<ReputationView>) -> bool {
    forall|i: int|
        #![trigger history[i]]
        0 <= i < history.len() - 1 ==> reputation_step(history[i], history[i + 1])
}

/// A newly posted task is well-formed, and an empty vault of its own
/// backs it: nothing was funded and nothing released on its behalf.
pub proof fn law_new_task_starts_clean(
    task_id: Seq<char>,
    poster: Pubkey,
    title: Seq<char>,
    description: Seq<char>,
    budget: nat,
    deadline: int,
    required_skills: Seq<Seq<char>>,
    created_at: int,
)
    ensures
        TaskView::posted(
            task_id,
            poster,
            title,
            description,
            budget,
            deadline,
            required_skills,
            created_at,
        ).wf(),
        vault_backs(
            VaultView { task_id, balance: 0, released: 0 },
            TaskView::posted(
                task_id,
                poster,
                title,
                description,
                budget,
                deadline,
                required_skills,
                created_at,
            ),
        ),
{
}

/// A step keeps a task well-formed. In particular no step leads to
/// `Disputed`.
pub proof fn law_step_keeps_task_well_formed(before: TaskView, after: TaskView)
    requires
        before.wf(),
        task_step(before, after),
    ensures
        after.wf(),
        after.status != TaskStatus::Disputed,
{
}

/// A step moves a task along the lifecycle or leaves its state alone,
/// and never touches what was fixed at posting.
pub proof fn law_step_follows_lifecycle(before: TaskView, after: TaskView)
    requires
        task_step(before, after),
    ensures
        after.status == before.status || before.status.spec_leads_to(after.status),
        after.task_id == before.task_id,
        after.poster == before.poster,
        after.title == before.title,
        after.description == before.description,
        after.budget == before.budget,
        after.deadline == before.deadline,
        after.required_skills == before.required_skills,
        after.created_at == before.created_at,
{
}

/// Single assignment, one step at a time: a task that has left the
/// open state stays out of it, and its agent and its final budget stay
/// what they are.
pub proof fn law_step_keeps_assignment(before: TaskView, after: TaskView)
    requires
        task_step(before, after),
        before.status != TaskStatus::Posted,
    ensures
        after.status != TaskStatus::Posted,
        after.assigned_agent == before.assigned_agent,
        after.final_budget == before.final_budget,
        after.escrow_initialized == before.escrow_initialized,
{
}

/// Single assignment over a whole history: once a task has left the
/// open state, it is never open again, whatever is done to it, and its
/// agent and final budget never change again.
pub proof fn law_assignment_is_final(history: Seq<TaskView>, left: int, later: int)
    requires
        is_task_history(history),
        0 <= left <= later < history.len(),
        history[left].status != TaskStatus::Posted,
    ensures
        history[later].status != TaskStatus::Posted,
        history[later].assigned_agent == history[left].assigned_agent,
        history[later].final_budget == history[left].final_budget,
        history[later].poster == history[left].poster,
    decreases later - left,
{
    if left < later {
        law_assignment_is_final(history, left, later - 1);
        let before = history[later - 1];
        assert(task_step(before, history[later - 1 + 1]));
        law_step_keeps_assignment(before, history[later]);
    }
}

/// Single assignment, counted: a history holds at most one step in
/// which a bid is accepted, that is, in which the task goes from open
/// to in progress.
pub proof fn law_at_most_one_acceptance(history: Seq<TaskView>, first: int, second: int)
    requires
        is_task_history(history),
        0 <= first < second < history.len() - 1,
        history[first].status == TaskStatus::Posted,
        history[first + 1].status == TaskStatus::InProgress,
    ensures
        history[second].status != TaskStatus::Posted,
{
    law_assignment_is_final(history, first + 1, second);
}

/// Single assignment, as the callers see it: on a task that has left
/// the open state, every attempt to accept a bid fails with
/// `TaskNotOpen`, and every attempt to cancel fails with
/// `TaskNotCancellable`, whoever makes it. Both are state errors. So
/// at most one bid is ever accepted.
pub proof fn law_single_assignment(
    history: Seq<TaskView>,
    left: int,
    later: int,
    task_key: Pubkey,
    bid: BidView,
    vault: VaultView,
    caller: Pubkey,
    now: int,
)
    requires
        is_task_history(history),
        0 <= left <= later < history.len(),
        history[left].status != TaskStatus::Posted,
    ensures
        accept_bid_fault(history[later], task_key, bid, caller, now) == Some(
            ErrorCode::TaskNotOpen,
        ),
        ErrorCode::TaskNotOpen.spec_kind() == ErrorKind::State,
        cancel_task_fault(history[later], vault, caller) == Some(
            Failure::Rule(ErrorCode::TaskNotCancellable),
        ),
        ErrorCode::TaskNotCancellable.spec_kind() == ErrorKind::State,
{
    law_assignment_is_final(history, left, later);
}

/// An accepted bid that kept within the task's limits leaves the task
/// with a final budget that is positive and within the budget.
pub proof fn law_fitting_bid_is_covered(task: TaskView, bid: BidView)
    requires
        bid.fits(task),
    ensures
        0 < assigned_task(task, bid).final_budget <= assigned_task(task, bid).budget,
{
}

/// Escrow conservation, one step at a time: a step in lock-step keeps
/// the vault's books in agreement with the task's.
pub proof fn law_step_keeps_books(
    before: TaskView,
    vault_before: VaultView,
    after: TaskView,
    vault_after: VaultView,
)
    requires
        vault_backs(vault_before, before),
        custody_step(before, vault_before, after, vault_after),
    ensures
        vault_backs(vault_after, after),
{
}

/// Escrow conservation over a whole history: if the vault's books
/// agree with the task's at the start, as they do for a new task and
/// an empty vault, they agree ever after.
pub proof fn law_books_always_agree(history: Seq<(TaskView, VaultView)>, at: int)
    requires
        is_custody_history(history),
        0 <= at < history.len(),
        vault_backs(history[0].1, history[0].0),
    ensures
        vault_backs(history[at].1, history[at].0),
    decreases at,
{
    if 0 < at {
        law_books_always_agree(history, at - 1);
        let before = history[at - 1];
        assert(custody_step(before.0, before.1, history[at - 1 + 1].0, history[at - 1 + 1].1));
        law_step_keeps_books(before.0, before.1, history[at].0, history[at].1);
    }
}

/// Escrow conservation, what it comes to. Of a vault whose books agree
/// with its task's:
/// what left it never exceeds what entered it, nor the budget;
/// nothing has left it before the task is verified or cancelled;
/// once a funded task is cancelled, all that entered has left;
/// once a task is verified, the final budget has left, which is all
/// that entered where the accepted bid asked for the whole budget.
pub proof fn law_escrow_conservation(vault: VaultView, task: TaskView)
    requires
        vault_backs(vault, task),
    ensures
        vault.released <= vault.funded() <= task.budget,
        !task.status.spec_is_terminal() ==> vault.released == 0,
        task.status == TaskStatus::Cancelled ==> vault.released == vault.funded(),
        task.status == TaskStatus::Verified ==> vault.released == task.final_budget,
        task.status == TaskStatus::Verified && task.escrow_initialized && task.final_budget
            == task.budget ==> vault.released == vault.funded(),
{
}

/// The escrow covers the payout: while a funded task is in progress
/// or completed, and its final budget is within its budget, as it is
/// for every bid that was placed on it, a vault whose books agree
/// holds the whole budget and can give the final budget.
pub proof fn law_escrow_covers_payout(vault: VaultView, task: TaskView)
    requires
        vault_backs(vault, task),
        task.escrow_initialized,
        task.status == TaskStatus::InProgress || task.status == TaskStatus::Completed,
        task.final_budget <= task.budget <= u64::MAX,
    ensures
        vault.balance == task.budget,
        vault.can_give(task.final_budget),
{
}

/// Monotonic reputation, one step at a time: no step lowers the
/// number of completed tasks or the earnings.
pub proof fn law_step_never_lowers_reputation(before: ReputationView, after: ReputationView)
    requires
        reputation_step(before, after),
    ensures
        after.completed_tasks >= before.completed_tasks,
        after.total_earned >= before.total_earned,
        after.agent == before.agent,
        after.failed_tasks == before.failed_tasks,
{
}

/// Monotonic reputation over a whole history: the number of completed
/// tasks and the earnings of an agent never go down.
pub proof fn law_reputation_is_monotonic(history: Seq<ReputationView>, earlier: int, later: int)
    requires
        is_reputation_history(history),
        0 <= earlier <= later < history.len(),
    ensures
        history[later].completed_tasks >= history[earlier].completed_tasks,
        history[later].total_earned >= history[earlier].total_earned,
        history[later].agent == history[earlier].agent,
    decreases later - earlier,
{
    if earlier < later {
        law_reputation_is_monotonic(history, earlier, later - 1);
        let before = history[later - 1];
        assert(reputation_step(before, history[later - 1 + 1]));
        law_step_never_lowers_reputation(before, history[later]);
    }
}

/// Rate bound, one step at a time: a step keeps the stored success
/// rate equal to what the counters give.
pub proof fn law_step_keeps_rate(before: ReputationView, after: ReputationView)
    requires
        before.wf(),
        reputation_step(before, after),
    ensures
        after.wf(),
{
}

/// Rate bound: the success rate of a well-formed record lies between
/// 0 and 100.
pub proof fn law_rate_bound(reputation: ReputationView)
    requires
        reputation.wf(),
    ensures
        0 <= reputation.success_rate <= 100,
{
    lemma_success_rate_bounded(reputation.completed_tasks, reputation.failed_tasks);
}

/// Rate bound over a whole history: from a new record on, the success
/// rate always lies between 0 and 100.
pub proof fn law_rate_always_bounded(history: Seq<ReputationView>, at: int)
    requires
        is_reputation_history(history),
        0 <= at < history.len(),
        history[0].wf(),
    ensures
        history[at].wf(),
        0 <= history[at].success_rate <= 100,
    decreases at,
{
    if 0 < at {
        law_rate_always_bounded(history, at - 1);
        let before = history[at - 1];
        assert(reputation_step(before, history[at - 1 + 1]));
        law_step_keeps_rate(before, history[at]);
    }
    law_rate_bound(history[at]);
}

} // verus!
