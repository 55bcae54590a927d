//! What each operation reports when it succeeds. The library only
//! builds these values; making them known is the caller's part.

use anchor_lang::prelude::Pubkey;
use vstd::prelude::*;

verus! {

/// A task was posted.
#[derive(Clone, Debug, PartialEq, Eq)]
pub struct TaskCreated {
    pub task_id: String,
    pub poster: Pubkey,
    pub budget: u64,
    pub deadline: i64,
}

/// A task's budget was moved into its vault.
#[derive(Clone, Debug, PartialEq, Eq)]
pub struct EscrowInitialized {
    pub task_id: String,
    pub escrow: Pubkey,
    pub amount: u64,
}

/// A bid was placed.
#[derive(Clone, Debug, PartialEq, Eq)]
pub struct BidPlaced {
    pub task_id: String,
    pub bidder: Pubkey,
    pub amount: u64,
}

/// A bid was accepted and its bidder assigned.
#[derive(Clone, Debug, PartialEq, Eq)]
pub struct BidAccepted {
    pub task_id: String,
    pub agent: Pubkey,
    pub amount: u64,
}

/// A task was cancelled; `refund_amount` went back to the poster.
#[derive(Clone, Debug, PartialEq, Eq)]
pub struct TaskCancelled {
    pub task_id: String,
    pub poster: Pubkey,
    pub refund_amount: u64,
}

/// The agent delivered.
#[derive(Clone, Debug, PartialEq, Eq)]
pub struct TaskCompleted {
    pub task_id: String,
    pub agent: Pubkey,
}

/// The delivery was verified; `amount` went to the agent.
#[derive(Clone, Debug, PartialEq, Eq)]
pub struct PaymentReleased {
    pub task_id: String,
    pub agent: Pubkey,
    pub amount: u64,
}

/// The poster rated the agent.
#[derive(Clone, Debug, PartialEq, Eq)]
pub struct AgentRated {
    pub task_id: String,
    pub agent: Pubkey,
    pub rating: u8,
}

/// An agent's reputation record was created.
#[derive(Clone, Debug, PartialEq, Eq)]
pub struct ReputationInitialized {
    pub agent: Pubkey,
}

} // verus!
