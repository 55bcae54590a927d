//! The bid book: what a bid records, and the reputation gate that a
//! bidder has to clear.

use crate::error::ErrorCode;
use crate::limits::MAX_TASK_DURATION;
use crate::limits::REPUTATION_STAKE_RATIO;
use crate::reputation::Reputation;
use crate::reputation::ReputationView;
use crate::task::TaskView;
use anchor_lang::prelude::Pubkey;
use vstd::prelude::*;

verus! {

/// One agent's offer to do one task. No funds are held against a bid.
#[derive(Clone, Debug, PartialEq, Eq)]
pub struct Bid {
    /// The key of the task's record.
    pub task: Pubkey,
    /// Who bids.
    pub bidder: Pubkey,
    /// What the bidder asks for, in micro-units.
    pub amount: u64,
    /// How long the bidder expects to need, in seconds.
    pub estimated_duration: i64,
    /// When the bid was placed.
    pub created_at: i64,
    /// Kept in the record, never set: which bid was accepted is told by
    /// the task's assigned agent.
    pub accepted: bool,
}

/// A bid as plain values.
pub struct BidView {
    pub task: Pubkey,
    pub bidder: Pubkey,
    pub amount: nat,
    pub estimated_duration: int,
    pub created_at: int,
    pub accepted: bool,
}

impl View for Bid {
    type V = BidView;

    open spec fn view(&self) -> BidView {
        BidView {
            task: self.task,
            bidder: self.bidder,
            amount: self.amount as nat,
            estimated_duration: self.estimated_duration as int,
            created_at: self.created_at as int,
            accepted: self.accepted,
        }
    }
}

impl BidView {
    /// A bid as it stands right after it was placed.
    pub open spec fn placed(
        task: Pubkey,
        bidder: Pubkey,
        amount: nat,
        estimated_duration: int,
        created_at: int,
    ) -> BidView {
        BidView { task, bidder, amount, estimated_duration, created_at, accepted: false }
    }

    /// Whether the bid keeps within what `task` allows: a positive
    /// amount up to the budget, and a positive duration up to 90 days.
    pub open spec fn fits(self, task: TaskView) -> bool {
        &&& 0 < self.amount <= task.budget
        &&& 0 < self.estimated_duration <= MAX_TASK_DURATION
    }
}

/// The prior earnings that stand in for a track record when bidding
/// `bid_amount`: a tenth of the bid, rounded down.
pub open spec fn stake_threshold_of(bid_amount: nat) -> nat {
    bid_amount / (REPUTATION_STAKE_RATIO as nat)
}

/// Whether an agent with this record may bid `bid_amount`: they have
/// completed a task, or have earned at least the stake threshold.
pub open spec fn stake_cleared(reputation: ReputationView, bid_amount: nat) -> bool {
    reputation.completed_tasks >= 1 || reputation.total_earned >= stake_threshold_of(bid_amount)
}

/// The prior earnings that stand in for a track record when bidding
/// `bid_amount`: a tenth of the bid, rounded down.
pub fn stake_threshold(bid_amount: u64) -> (threshold: u64)
    ensures
        threshold == stake_threshold_of(bid_amount as nat),
{
    bid_amount / REPUTATION_STAKE_RATIO
}

/// Whether an agent with this record may bid `bid_amount`: they have
/// completed a task, or have earned at least the stake threshold.
pub fn clears_stake(reputation: &Reputation, bid_amount: u64) -> (cleared: bool)
    ensures
        cleared == stake_cleared(reputation@, bid_amount as nat),
{
    reputation.completed_tasks >= 1 || reputation.total_earned >= stake_threshold(bid_amount)
}

impl Bid {
    /// Bytes that one stored record takes.
    pub const MAX_SIZE: usize = 32 + 32 + 8 + 8 + 8 + 1;

    /// A bid as it stands right after it was placed.
    pub fn placed(
        task: Pubkey,
        bidder: Pubkey,
        amount: u64,
        estimated_duration: i64,
        created_at: i64,
    ) -> (bid: Bid)
        ensures
            bid@ == BidView::placed(
                task,
                bidder,
                amount as nat,
                estimated_duration as int,
                created_at as int,
            ),
    {
        Bid { task, bidder, amount, estimated_duration, created_at, accepted: false }
    }

    /// Makes this record a newly placed bid, whatever it held before.
    /// Never fails.
    pub fn init(
        &mut self,
        task: Pubkey,
        bidder: Pubkey,
        amount: u64,
        estimated_duration: i64,
        created_at: i64,
    ) -> (done: Result<(), ErrorCode>)
        ensures
            done is Ok,
            final(self)@ == BidView::placed(
                task,
                bidder,
                amount as nat,
                estimated_duration as int,
                created_at as int,
            ),
    {
        *self = Bid::placed(task, bidder, amount, estimated_duration, created_at);
        Ok(())
    }
}

} // verus!
