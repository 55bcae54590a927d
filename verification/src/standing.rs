//! Opening an agent's reputation record, and rating an agent.

use crate::error::ErrorCode;
use crate::error::Failure;
use crate::events::AgentRated;
use crate::events::ReputationInitialized;
use crate::lifecycle::reputation_step;
use crate::limits::MAX_RATING;
use crate::limits::MIN_RATING;
use crate::platform::same_key;
use crate::reputation::Reputation;
use crate::reputation::ReputationView;
use crate::status::TaskStatus;
use crate::task::Task;
use crate::task::TaskView;
use anchor_lang::prelude::Pubkey;
use vstd::prelude::*;

verus! {

/// Opens the reputation record of `agent`.
///
/// `slot` is the place that the agent's key leads to. If the agent has
/// a record already, it stays as it is and the answer is
/// `RecordExists`. Otherwise the slot holds a new record with every
/// counter at zero.
pub fn initialize_reputation(slot: &mut Option<Reputation>, agent: Pubkey) -> (opened: Result<
    ReputationInitialized,
    Failure,
>)
    ensures
        (*old(slot)) is Some ==> opened == Err::<ReputationInitialized, Failure>(
            Failure::RecordExists,
        ) && *final(slot) == *old(slot),
        (*old(slot)) is None ==> opened == Ok::<ReputationInitialized, Failure>(
            ReputationInitialized { agent },
        ) && ((*final(slot)) matches Some(record) && record@ == ReputationView::fresh(agent)),
{
    if slot.is_some() {
        return Err(Failure::RecordExists);
    }
    *slot = Some(Reputation::fresh(agent));
    Ok(ReputationInitialized { agent })
}

/// Why an agent cannot be rated, if they cannot.
///
/// The task is verified, the caller is its poster, and the rating is
/// between 1 and 5. The reputation record is that of the assigned
/// agent, and it has room for the rating.
pub open spec fn rate_agent_fault(
    task: TaskView,
    reputation: ReputationView,
    caller: Pubkey,
    rating: nat,
) -> Option<Failure> {
    if task.status != TaskStatus::Verified {
        Some(Failure::Rule(ErrorCode::TaskNotVerified))
    } else if task.poster != caller {
        Some(Failure::Rule(ErrorCode::UnauthorizedPoster))
    } else if rating < MIN_RATING || rating > MAX_RATING {
        Some(Failure::Rule(ErrorCode::InvalidRating))
    } else if task.assigned_agent != Some(reputation.agent) {
        Some(Failure::RecordMismatch)
    } else if !reputation.rating_fits(rating) {
        Some(Failure::Rule(ErrorCode::ArithmeticOverflow))
    } else {
        None
    }
}

/// Rates the agent of a verified task: the agent's record counts one
/// more rating. On failure the record is unchanged.
pub fn rate_agent(task: &Task, reputation: &mut Reputation, caller: Pubkey, rating: u8) -> (rated:
    Result<AgentRated, Failure>)
    ensures
        match rated {
            Ok(event) => {
                &&& rate_agent_fault(task@, old(reputation)@, caller, rating as nat) is None
                &&& final(reputation)@ == old(reputation)@.after_rating(rating as nat)
                &&& event == (AgentRated {
                    task_id: task.task_id,
                    agent: old(reputation).agent,
                    rating,
                })
            },
            Err(failure) => {
                &&& rate_agent_fault(task@, old(reputation)@, caller, rating as nat) == Some(
                    failure,
                )
                &&& *final(reputation) == *old(reputation)
            },
        },
        reputation_step(old(reputation)@, final(reputation)@),
{
    if task.status != TaskStatus::Verified {
        return Err(Failure::Rule(ErrorCode::TaskNotVerified));
    }
    if !same_key(&task.poster, &caller) {
        return Err(Failure::Rule(ErrorCode::UnauthorizedPoster));
    }
    if rating < MIN_RATING || rating > MAX_RATING {
        return Err(Failure::Rule(ErrorCode::InvalidRating));
    }
    let agent: Pubkey = reputation.agent;
    let assigned: bool = match task.assigned_agent {
        Some(assignee) => same_key(&assignee, &agent),
        None => false,
    };
    if !assigned {
        return Err(Failure::RecordMismatch);
    }
    match reputation.add_rating(rating) {
        Ok(_) => {},
        Err(code) => { return Err(Failure::Rule(code)); },
    }
    Ok(AgentRated { task_id: task.task_id.clone(), agent, rating })
}

} // verus!
