//! The reputation ledger: one record per agent, with the rules by which
//! a finished task and a rating change it.

use crate::error::ErrorCode;
use crate::lifecycle::reputation_step;
use anchor_lang::prelude::Pubkey;
use vstd::prelude::*;

verus! {

/// What the marketplace remembers of one agent.
#[derive(Clone, Debug, PartialEq, Eq)]
pub struct Reputation {
    /// The agent this record belongs to.
    pub agent: Pubkey,
    /// Tasks delivered, verified and paid.
    pub completed_tasks: u32,
    /// Tasks failed. No operation counts one yet.
    pub failed_tasks: u32,
    /// Everything the agent was ever paid, in micro-units.
    pub total_earned: u64,
    /// Share of completed tasks among all counted tasks, in percent.
    pub success_rate: u64,
    /// Sum of all ratings received.
    pub rating_sum: u64,
    /// Number of ratings received.
    pub rating_count: u32,
}

/// A reputation record as plain numbers.
pub struct ReputationView {
    pub agent: Pubkey,
    pub completed_tasks: nat,
    pub failed_tasks: nat,
    pub total_earned: nat,
    pub success_rate: nat,
    pub rating_sum: nat,
    pub rating_count: nat,
}

impl View for Reputation {
    type V = ReputationView;

    open spec fn view(&self) -> ReputationView {
        ReputationView {
            agent: self.agent,
            completed_tasks: self.completed_tasks as nat,
            failed_tasks: self.failed_tasks as nat,
            total_earned: self.total_earned as nat,
            success_rate: self.success_rate as nat,
            rating_sum: self.rating_sum as nat,
            rating_count: self.rating_count as nat,
        }
    }
}

/// The success rate in percent, rounded down, of an agent with
/// `completed` finished and `failed` failed tasks: the completed tasks
/// times 100, divided by the number of all counted tasks. Where none
/// is counted the divisor is 1, and so the rate is 0.
pub open spec fn success_rate_of(completed: nat, failed: nat) -> nat {
    if completed + failed == 0 {
        0
    } else {
        (completed * 100) / (completed + failed)
    }
}

/// A success rate never exceeds 100 percent.
pub proof fn lemma_success_rate_bounded(completed: nat, failed: nat)
    ensures
        success_rate_of(completed, failed) <= 100,
{
    if completed + failed > 0 {
        let total: int = (completed + failed) as int;
        let scaled: int = (completed * 100) as int;
        assert(scaled / total <= 100) by (nonlinear_arith)
            requires
                total > 0,
                0 <= scaled <= 100 * total,
        ;
    }
}

/// An agent with a finished task and no failed one has the success
/// rate 100.
pub proof fn lemma_success_rate_without_failures(completed: nat)
    requires
        completed > 0,
    ensures
        success_rate_of(completed, 0) == 100,
{
    assert((completed * 100) / completed == 100) by (nonlinear_arith)
        requires
            completed > 0,
    ;
}

impl ReputationView {
    /// The record of `agent` before anything has happened.
    pub open spec fn fresh(agent: Pubkey) -> ReputationView {
        ReputationView {
            agent,
            completed_tasks: 0,
            failed_tasks: 0,
            total_earned: 0,
            success_rate: 0,
            rating_sum: 0,
            rating_count: 0,
        }
    }

    /// The stored success rate is the one that the two task counters give.
    pub open spec fn wf(self) -> bool {
        self.success_rate == success_rate_of(self.completed_tasks, self.failed_tasks)
    }

    /// Whether one more completed task paid `amount` still fits the
    /// counters: the tasks counted stay within 32 bits, the earnings
    /// within 64.
    pub open spec fn completion_fits(self, amount: nat) -> bool {
        &&& self.completed_tasks + 1 + self.failed_tasks <= u32::MAX
        &&& self.total_earned + amount <= u64::MAX
    }

    /// The record after one more completed task paid `amount`.
    pub open spec fn after_completion(self, amount: nat) -> ReputationView {
        ReputationView {
            completed_tasks: self.completed_tasks + 1,
            total_earned: self.total_earned + amount,
            success_rate: success_rate_of(self.completed_tasks + 1, self.failed_tasks),
            ..self
        }
    }

    /// Whether one more rating of `rating` still fits the counters:
    /// the sum stays within 64 bits, the count within 32.
    pub open spec fn rating_fits(self, rating: nat) -> bool {
        &&& self.rating_sum + rating <= u64::MAX
        &&& self.rating_count + 1 <= u32::MAX
    }

    /// The record after one more rating of `rating`.
    pub open spec fn after_rating(self, rating: nat) -> ReputationView {
        ReputationView {
            rating_sum: self.rating_sum + rating,
            rating_count: self.rating_count + 1,
            ..self
        }
    }
}

impl Reputation {
    /// Bytes that one stored record takes.
    pub const MAX_SIZE: usize = 32 + 4 + 4 + 8 + 8 + 8 + 4;

    /// The record of `agent` before anything has happened.
    pub fn fresh(agent: Pubkey) -> (record: Reputation)
        ensures
            record@ == ReputationView::fresh(agent),
            record@.wf(),
    {
        Reputation {
            agent,
            completed_tasks: 0,
            failed_tasks: 0,
            total_earned: 0,
            success_rate: 0,
            rating_sum: 0,
            rating_count: 0,
        }
    }

    /// Makes this the record of `agent` with every counter at zero,
    /// whatever it held before. Never fails.
    pub fn init(&mut self, agent: Pubkey) -> (done: Result<(), ErrorCode>)
        ensures
            done is Ok,
            final(self)@ == ReputationView::fresh(agent),
            final(self)@.wf(),
    {
        *self = Reputation::fresh(agent);
        Ok(())
    }

    /// Counts one more completed task paid `amount`: the task counter
    /// goes up by one, the earnings by `amount`, and the success rate is
    /// computed anew. If a counter would overflow, nothing changes and
    /// the answer is `ArithmeticOverflow`.
    pub fn record_completion(&mut self, amount: u64) -> (done: Result<(), ErrorCode>)
        ensures
            old(self)@.completion_fits(amount as nat) ==> done is Ok && final(self)@ == old(
                self,
            )@.after_completion(amount as nat),
            !old(self)@.completion_fits(amount as nat) ==> done == Err::<(), ErrorCode>(
                ErrorCode::ArithmeticOverflow,
            ) && *final(self) == *old(self),
            done is Ok ==> final(self).success_rate <= 100 && final(self)@.wf(),
            done is Ok && old(self).failed_tasks == 0 ==> final(self).success_rate == 100,
            final(self).completed_tasks >= old(self).completed_tasks,
            final(self).total_earned >= old(self).total_earned,
            reputation_step(old(self)@, final(self)@),
    {
        let completed: u32 = match self.completed_tasks.checked_add(1) {
            Some(count) => count,
            None => { return Err(ErrorCode::ArithmeticOverflow); },
        };
        let earned: u64 = match self.total_earned.checked_add(amount) {
            Some(sum) => sum,
            None => { return Err(ErrorCode::ArithmeticOverflow); },
        };
        let counted: u32 = match completed.checked_add(self.failed_tasks) {
            Some(count) => count,
            None => { return Err(ErrorCode::ArithmeticOverflow); },
        };
        let total: u32 = if counted < 1 { 1 } else { counted };
        let scaled: u64 = match (completed as u64).checked_mul(100) {
            Some(product) => product,
            None => { return Err(ErrorCode::ArithmeticOverflow); },
        };
        let rate: u64 = match scaled.checked_div(total as u64) {
            Some(quotient) => quotient,
            None => { return Err(ErrorCode::ArithmeticOverflow); },
        };
        proof {
            lemma_success_rate_bounded(completed as nat, self.failed_tasks as nat);
            lemma_success_rate_without_failures(completed as nat);
            assert(rate == success_rate_of(completed as nat, self.failed_tasks as nat));
        }
        self.completed_tasks = completed;
        self.total_earned = earned;
        self.success_rate = rate;
        assert(self@ == old(self)@.after_completion(amount as nat));
        Ok(())
    }

    /// Counts one more rating: the sum goes up by `rating`, the number
    /// of ratings by one. If a counter would overflow, nothing changes
    /// and the answer is `ArithmeticOverflow`.
    pub fn add_rating(&mut self, rating: u8) -> (done: Result<(), ErrorCode>)
        ensures
            old(self)@.rating_fits(rating as nat) ==> done is Ok && final(self)@ == old(
                self,
            )@.after_rating(rating as nat),
            !old(self)@.rating_fits(rating as nat) ==> done == Err::<(), ErrorCode>(
                ErrorCode::ArithmeticOverflow,
            ) && *final(self) == *old(self),
            old(self)@.wf() ==> final(self)@.wf(),
            reputation_step(old(self)@, final(self)@),
    {
        let sum: u64 = match self.rating_sum.checked_add(rating as u64) {
            Some(sum) => sum,
            None => { return Err(ErrorCode::ArithmeticOverflow); },
        };
        let count: u32 = match self.rating_count.checked_add(1) {
            Some(count) => count,
            None => { return Err(ErrorCode::ArithmeticOverflow); },
        };
        self.rating_sum = sum;
        self.rating_count = count;
        assert(self@ == old(self)@.after_rating(rating as nat));
        Ok(())
    }
}

} // verus!
