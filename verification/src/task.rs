//! The task record.

use crate::error::ErrorCode;
use crate::limits::MAX_DESCRIPTION_LENGTH;
use crate::limits::MAX_SKILLS;
use crate::limits::MAX_SKILL_LENGTH;
use crate::limits::MAX_TASK_ID_LENGTH;
use crate::limits::MAX_TITLE_LENGTH;
use crate::status::TaskStatus;
use anchor_lang::prelude::Pubkey;
use vstd::prelude::*;

verus! {

/// One task, from posting to its final state.
#[derive(Clone, Debug, PartialEq, Eq)]
pub struct Task {
    /// The key that names the task: 1 to 32 characters.
    pub task_id: String,
    /// Who posted the task and pays for it.
    pub poster: Pubkey,
    /// 1 to 100 characters.
    pub title: String,
    /// Up to 2000 characters.
    pub description: String,
    /// What the poster puts into escrow, in micro-units.
    pub budget: u64,
    /// Zero until a bid is accepted, then that bid's amount for good.
    pub final_budget: u64,
    /// The time after which nobody can bid and no bid can be accepted.
    pub deadline: i64,
    /// Up to 10 tags of 1 to 50 characters each.
    pub required_skills: Vec<String>,
    /// Where the task stands.
    pub status: TaskStatus,
    /// The agent whose bid was accepted, once one was.
    pub assigned_agent: Option<Pubkey>,
    /// When the task was posted.
    pub created_at: i64,
    /// When the agent delivered, once they did.
    pub completed_at: Option<i64>,
    /// Where the delivery is found, once there is one.
    pub delivery_url: Option<String>,
    /// Whether the budget has been moved into the vault.
    pub escrow_initialized: bool,
    /// The vault's bump seed, set when the vault is funded.
    pub escrow_bump: u8,
    /// Reserved for disputes; no operation sets it.
    pub dispute_reason: Option<String>,
    /// Reserved for disputes; no operation sets it.
    pub dispute_initiator: Option<Pubkey>,
    /// Reserved for disputes; no operation sets it.
    pub dispute_created_at: Option<i64>,
}

/// A task as plain values: texts as sequences of characters, amounts
/// and times as numbers.
pub struct TaskView {
    pub task_id: Seq<char>,
    pub poster: Pubkey,
    pub title: Seq<char>,
    pub description: Seq<char>,
    pub budget: nat,
    pub final_budget: nat,
    pub deadline: int,
    pub required_skills: Seq<Seq<char>>,
    pub status: TaskStatus,
    pub assigned_agent: Option<Pubkey>,
    pub created_at: int,
    pub completed_at: Option<int>,
    pub delivery_url: Option<Seq<char>>,
    pub escrow_initialized: bool,
    pub escrow_bump: u8,
    pub dispute_reason: Option<Seq<char>>,
    pub dispute_initiator: Option<Pubkey>,
    pub dispute_created_at: Option<int>,
}

/// A time that may be missing, as a number.
pub open spec fn time_of(time: Option<i64>) -> Option<int> {
    match time {
        Some(seconds) => Some(seconds as int),
        None => None,
    }
}

impl View for Task {
    type V = TaskView;

    open spec fn view(&self) -> TaskView {
        TaskView {
            task_id: self.task_id@,
            poster: self.poster,
            title: self.title@,
            description: self.description@,
            budget: self.budget as nat,
            final_budget: self.final_budget as nat,
            deadline: self.deadline as int,
            required_skills: self.required_skills.deep_view(),
            status: self.status,
            assigned_agent: self.assigned_agent,
            created_at: self.created_at as int,
            completed_at: time_of(self.completed_at),
            delivery_url: self.delivery_url.deep_view(),
            escrow_initialized: self.escrow_initialized,
            escrow_bump: self.escrow_bump,
            dispute_reason: self.dispute_reason.deep_view(),
            dispute_initiator: self.dispute_initiator,
            dispute_created_at: time_of(self.dispute_created_at),
        }
    }
}

impl TaskView {
    /// A task as it stands right after posting: open, unfunded, with no
    /// agent, no delivery and no dispute.
    pub open spec fn posted(
        task_id: Seq<char>,
        poster: Pubkey,
        title: Seq<char>,
        description: Seq<char>,
        budget: nat,
        deadline: int,
        required_skills: Seq<Seq<char>>,
        created_at: int,
    ) -> TaskView {
        TaskView {
            task_id,
            poster,
            title,
            description,
            budget,
            final_budget: 0,
            deadline,
            required_skills,
            status: TaskStatus::Posted,
            assigned_agent: None,
            created_at,
            completed_at: None,
            delivery_url: None,
            escrow_initialized: false,
            escrow_bump: 0,
            dispute_reason: None,
            dispute_initiator: None,
            dispute_created_at: None,
        }
    }

    /// What holds of every task that the operations of this library
    /// made: the agent, the final budget and the delivery are there
    /// exactly from the state on in which they are set, the task is
    /// never `Disputed`, and the dispute fields are empty.
    pub open spec fn wf(self) -> bool {
        &&& self.dispute_reason is None
        &&& self.dispute_initiator is None
        &&& self.dispute_created_at is None
        &&& match self.status {
            TaskStatus::Posted | TaskStatus::Cancelled => {
                &&& self.final_budget == 0
                &&& self.assigned_agent is None
                &&& self.completed_at is None
                &&& self.delivery_url is None
            },
            TaskStatus::InProgress => {
                &&& self.assigned_agent is Some
                &&& self.completed_at is None
                &&& self.delivery_url is None
            },
            TaskStatus::Completed | TaskStatus::Verified => {
                &&& self.assigned_agent is Some
                &&& self.completed_at is Some
                &&& self.delivery_url is Some
            },
            TaskStatus::Disputed => false,
        }
    }

    /// What the vault was funded with on behalf of the task: the budget
    /// once escrow is initialized, nothing before.
    pub open spec fn escrow_funded(self) -> nat {
        if self.escrow_initialized {
            self.budget
        } else {
            0
        }
    }

    /// What has left the vault on behalf of the task: the final budget
    /// once the task is verified, the budget once a funded task is
    /// cancelled, and nothing in every other state.
    pub open spec fn escrow_released(self) -> nat {
        match self.status {
            TaskStatus::Verified => self.final_budget,
            TaskStatus::Cancelled => self.escrow_funded(),
            _ => 0,
        }
    }
}

impl Task {
    /// Bytes set aside for one stored record: each text with its
    /// longest length at one byte for a character.
    ///
    /// This bounds a record only where its texts are plain ASCII. The
    /// length rules count characters, and a character takes up to four
    /// bytes when stored. So a task that passes the rules can need more
    /// bytes than this, and its identifier more than the 32 bytes that a
    /// key derivation takes for one seed. Whoever stores records finds
    /// such a task too long for its place and has to refuse it there.
    pub const MAX_SIZE: usize = 4 + MAX_TASK_ID_LENGTH + 32 + 4 + MAX_TITLE_LENGTH + 4
        + MAX_DESCRIPTION_LENGTH + 8 + 8 + 8 + 4 + (MAX_SKILLS * (4 + MAX_SKILL_LENGTH)) + 1 + 1
        + 32 + 8 + 1 + 8 + 1 + 4 + 200 + 1 + 1 + 1 + 4 + 500 + 1 + 32 + 1 + 8;

    /// A task as it stands right after posting.
    pub fn posted(
        task_id: String,
        poster: Pubkey,
        title: String,
        description: String,
        budget: u64,
        deadline: i64,
        required_skills: Vec<String>,
        created_at: i64,
    ) -> (task: Task)
        ensures
            task@ == TaskView::posted(
                task_id@,
                poster,
                title@,
                description@,
                budget as nat,
                deadline as int,
                required_skills.deep_view(),
                created_at as int,
            ),
            task@.wf(),
    {
        Task {
            task_id,
            poster,
            title,
            description,
            budget,
            final_budget: 0,
            deadline,
            required_skills,
            status: TaskStatus::Posted,
            assigned_agent: None,
            created_at,
            completed_at: None,
            delivery_url: None,
            escrow_initialized: false,
            escrow_bump: 0,
            dispute_reason: None,
            dispute_initiator: None,
            dispute_created_at: None,
        }
    }

    /// Makes this record a newly posted task, whatever it held before.
    /// Never fails.
    pub fn init(
        &mut self,
        task_id: String,
        poster: Pubkey,
        title: String,
        description: String,
        budget: u64,
        deadline: i64,
        required_skills: Vec<String>,
        created_at: i64,
    ) -> (done: Result<(), ErrorCode>)
        ensures
            done is Ok,
            final(self)@ == TaskView::posted(
                task_id@,
                poster,
                title@,
                description@,
                budget as nat,
                deadline as int,
                required_skills.deep_view(),
                created_at as int,
            ),
            final(self)@.wf(),
    {
        *self = Task::posted(
            task_id,
            poster,
            title,
            description,
            budget,
            deadline,
            required_skills,
            created_at,
        );
        Ok(())
    }
}

} // verus!
