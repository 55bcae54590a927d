//! The states a task passes through.

use vstd::prelude::*;

verus! {

/// Where a task stands in its life. A task starts `Posted`. From there
/// it is either cancelled or moves on to `InProgress`, `Completed` and
/// `Verified`, in this order. `Verified` and `Cancelled` are final.
/// `Disputed` is kept for a workflow that does not exist yet: no
/// operation leads to it or away from it.
#[derive(Clone, Copy, Debug, PartialEq, Eq, Structural)]
pub enum TaskStatus {
    /// Open for bids.
    Posted,
    /// A bid was accepted; the agent is at work.
    InProgress,
    /// The agent has delivered.
    Completed,
    /// The poster has verified the delivery and paid.
    Verified,
    /// Reserved.
    Disputed,
    /// The poster withdrew the task while it was open.
    Cancelled,
}

impl TaskStatus {
    /// Whether nothing can follow this state.
    pub open spec fn spec_is_terminal(self) -> bool {
        self == TaskStatus::Verified || self == TaskStatus::Cancelled
    }

    /// Whether nothing can follow this state.
    #[verifier::when_used_as_spec(spec_is_terminal)]
    pub fn is_terminal(self) -> (terminal: bool)
        ensures
            terminal == self.spec_is_terminal(),
    {
        match self {
            TaskStatus::Verified | TaskStatus::Cancelled => true,
            _ => false,
        }
    }

    /// Whether one operation can take a task from `self` to `next`.
    pub open spec fn spec_leads_to(self, next: TaskStatus) -> bool {
        match (self, next) {
            (TaskStatus::Posted, TaskStatus::InProgress) => true,
            (TaskStatus::Posted, TaskStatus::Cancelled) => true,
            (TaskStatus::InProgress, TaskStatus::Completed) => true,
            (TaskStatus::Completed, TaskStatus::Verified) => true,
            _ => false,
        }
    }

    /// Whether one operation can take a task from `self` to `next`.
    #[verifier::when_used_as_spec(spec_leads_to)]
    pub fn leads_to(self, next: TaskStatus) -> (possible: bool)
        ensures
            possible == self.spec_leads_to(next),
    {
        match (self, next) {
            (TaskStatus::Posted, TaskStatus::InProgress) => true,
            (TaskStatus::Posted, TaskStatus::Cancelled) => true,
            (TaskStatus::InProgress, TaskStatus::Completed) => true,
            (TaskStatus::Completed, TaskStatus::Verified) => true,
            _ => false,
        }
    }
}

} // verus!
