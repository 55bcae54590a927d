//! Why an operation was refused.

use anchor_lang::prelude::ProgramError;
use vstd::prelude::*;

verus! {

/// Every reason for which one of the marketplace's own rules refuses an
/// operation.
#[derive(Clone, Copy, Debug, PartialEq, Eq, Structural)]
pub enum ErrorCode {
    /// The task identifier is empty or longer than 32 characters.
    InvalidTaskId,
    /// The title is empty or longer than 100 characters.
    InvalidTitle,
    /// The description is longer than 2000 characters.
    InvalidDescription,
    /// The budget is below one whole unit (1,000,000 micro-units).
    BudgetTooLow,
    /// The deadline is not in the future, or more than 90 days away.
    InvalidDeadline,
    /// More than 10 skills are asked for.
    TooManySkills,
    /// A skill tag is empty or longer than 50 characters.
    InvalidSkill,
    /// The task's escrow has been funded already.
    EscrowAlreadyInitialized,
    /// The task's escrow has not been funded yet.
    EscrowNotInitialized,
    /// The task is no longer open.
    TaskNotOpen,
    /// The task's deadline has passed.
    TaskExpired,
    /// The bid is zero or above the task's budget.
    InvalidBidAmount,
    /// The poster bids on their own task.
    PosterCannotBid,
    /// The estimated duration is not positive, or above 90 days.
    InvalidDuration,
    /// The bidder has neither a finished task nor enough prior earnings.
    InsufficientReputation,
    /// The task is not in progress.
    TaskNotInProgress,
    /// The task has not been completed.
    TaskNotCompleted,
    /// The task has not been verified.
    TaskNotVerified,
    /// The task has left the open state and cannot be cancelled.
    TaskNotCancellable,
    /// The caller is not the task's poster.
    UnauthorizedPoster,
    /// The caller is not the task's assigned agent.
    UnauthorizedAgent,
    /// The bid was placed on another task.
    InvalidBid,
    /// The delivery link is empty or longer than 200 characters.
    InvalidDeliveryUrl,
    /// The rating is not between 1 and 5.
    InvalidRating,
    /// A counter, a total or a balance would leave its range.
    ArithmeticOverflow,
}

/// The five classes into which the reasons fall.
#[derive(Clone, Copy, Debug, PartialEq, Eq, Structural)]
pub enum ErrorKind {
    /// A field is outside its allowed range.
    Validation,
    /// The caller is not the identity the operation expects.
    Authorization,
    /// The task is not in the state the operation needs.
    State,
    /// The bidder does not clear the reputation gate.
    InsufficientReputation,
    /// An arithmetic result would not fit.
    Arithmetic,
}

impl ErrorCode {
    /// The class of this reason.
    pub open spec fn spec_kind(self) -> ErrorKind {
        match self {
            ErrorCode::InvalidTaskId
            | ErrorCode::InvalidTitle
            | ErrorCode::InvalidDescription
            | ErrorCode::BudgetTooLow
            | ErrorCode::InvalidDeadline
            | ErrorCode::TooManySkills
            | ErrorCode::InvalidSkill
            | ErrorCode::InvalidBidAmount
            | ErrorCode::InvalidDuration
            | ErrorCode::InvalidBid
            | ErrorCode::InvalidDeliveryUrl
            | ErrorCode::InvalidRating => ErrorKind::Validation,
            ErrorCode::PosterCannotBid
            | ErrorCode::UnauthorizedPoster
            | ErrorCode::UnauthorizedAgent => ErrorKind::Authorization,
            ErrorCode::EscrowAlreadyInitialized
            | ErrorCode::EscrowNotInitialized
            | ErrorCode::TaskNotOpen
            | ErrorCode::TaskExpired
            | ErrorCode::TaskNotInProgress
            | ErrorCode::TaskNotCompleted
            | ErrorCode::TaskNotVerified
            | ErrorCode::TaskNotCancellable => ErrorKind::State,
            ErrorCode::InsufficientReputation => ErrorKind::InsufficientReputation,
            ErrorCode::ArithmeticOverflow => ErrorKind::Arithmetic,
        }
    }

    /// The class of this reason.
    #[verifier::when_used_as_spec(spec_kind)]
    pub fn kind(self) -> (kind: ErrorKind)
        ensures
            kind == self.spec_kind(),
    {
        match self {
            ErrorCode::InvalidTaskId
            | ErrorCode::InvalidTitle
            | ErrorCode::InvalidDescription
            | ErrorCode::BudgetTooLow
            | ErrorCode::InvalidDeadline
            | ErrorCode::TooManySkills
            | ErrorCode::InvalidSkill
            | ErrorCode::InvalidBidAmount
            | ErrorCode::InvalidDuration
            | ErrorCode::InvalidBid
            | ErrorCode::InvalidDeliveryUrl
            | ErrorCode::InvalidRating => ErrorKind::Validation,
            ErrorCode::PosterCannotBid
            | ErrorCode::UnauthorizedPoster
            | ErrorCode::UnauthorizedAgent => ErrorKind::Authorization,
            ErrorCode::EscrowAlreadyInitialized
            | ErrorCode::EscrowNotInitialized
            | ErrorCode::TaskNotOpen
            | ErrorCode::TaskExpired
            | ErrorCode::TaskNotInProgress
            | ErrorCode::TaskNotCompleted
            | ErrorCode::TaskNotVerified
            | ErrorCode::TaskNotCancellable => ErrorKind::State,
            ErrorCode::InsufficientReputation => ErrorKind::InsufficientReputation,
            ErrorCode::ArithmeticOverflow => ErrorKind::Arithmetic,
        }
    }
}

/// Why an operation failed. Whatever the reason, the operation left
/// every record as it found it.
#[derive(Debug, PartialEq, Eq)]
pub enum Failure {
    /// One of the marketplace's rules refused the operation.
    Rule(ErrorCode),
    /// The record that the operation would create exists already.
    RecordExists,
    /// A record handed in is not the one that the task leads to: the
    /// vault of another task, or the reputation record of another agent
    /// than the one concerned.
    RecordMismatch,
    /// The vault holds less than must leave it.
    InsufficientFunds,
    /// The clock could not be read; the runtime's reason is inside.
    Clock(ProgramError),
}

impl Failure {
    /// The rule that refused, if it was one of the marketplace's rules.
    pub open spec fn spec_rule(&self) -> Option<ErrorCode> {
        match *self {
            Failure::Rule(code) => Some(code),
            _ => None,
        }
    }

    /// The rule that refused, if it was one of the marketplace's rules.
    #[verifier::when_used_as_spec(spec_rule)]
    pub fn rule(&self) -> (rule: Option<ErrorCode>)
        ensures
            rule == self.spec_rule(),
    {
        match self {
            Failure::Rule(code) => Some(*code),
            _ => None,
        }
    }
}

} // verus!
