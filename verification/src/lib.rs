//! A marketplace where posters outsource tasks to worker agents: the
//! task lifecycle, the escrow that holds a task's budget until delivery
//! is verified, the bids, and the agents' reputation records.
//!
//! Every operation checks what it needs, then changes the records that
//! it is about, or changes nothing and says why.

pub mod bid;
pub mod bidding;
pub mod error;
pub mod escrow;
pub mod events;
pub mod lifecycle;
pub mod limits;
pub mod platform;
pub mod posting;
pub mod reputation;
pub mod settlement;
pub mod standing;
pub mod status;
pub mod task;
pub mod validation;

pub use bid::clears_stake;
pub use bid::stake_threshold;
pub use bid::Bid;
pub use bid::BidView;
pub use bidding::accept_bid;
pub use bidding::accept_bid_at;
pub use bidding::bid_on_task;
pub use bidding::bid_on_task_at;
pub use error::ErrorCode;
pub use error::ErrorKind;
pub use error::Failure;
pub use escrow::EscrowVault;
pub use escrow::VaultView;
pub use events::AgentRated;
pub use events::BidAccepted;
pub use events::BidPlaced;
pub use events::EscrowInitialized;
pub use events::PaymentReleased;
pub use events::ReputationInitialized;
pub use events::TaskCancelled;
pub use events::TaskCompleted;
pub use events::TaskCreated;
pub use limits::DISPUTE_RESOLUTION_TIMEOUT;
pub use limits::MAX_DELIVERY_URL_LENGTH;
pub use limits::MAX_DESCRIPTION_LENGTH;
pub use limits::MAX_RATING;
pub use limits::MAX_SKILLS;
pub use limits::MAX_SKILL_LENGTH;
pub use limits::MAX_TASK_DURATION;
pub use limits::MAX_TASK_ID_LENGTH;
pub use limits::MAX_TITLE_LENGTH;
pub use limits::MINIMUM_BUDGET;
pub use limits::MIN_RATING;
pub use limits::REPUTATION_STAKE_RATIO;
pub use posting::cancel_task;
pub use posting::create_task;
pub use posting::create_task_at;
pub use posting::initialize_escrow;
pub use reputation::Reputation;
pub use reputation::ReputationView;
pub use settlement::complete_task;
pub use settlement::complete_task_at;
pub use settlement::verify_and_pay;
pub use standing::initialize_reputation;
pub use standing::rate_agent;
pub use status::TaskStatus;
pub use task::Task;
pub use task::TaskView;
pub use validation::validate_task_inputs;
pub use validation::validate_task_inputs_at;
pub use validation::validate_task_terms;
pub use validation::validate_task_text;
