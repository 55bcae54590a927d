//! The fixed limits of the marketplace: text lengths, money and time.
//! Text lengths are counted in characters.

use vstd::prelude::*;

verus! {

/// Longest title a task may carry, in characters.
pub const MAX_TITLE_LENGTH: usize = 100;

/// Longest description a task may carry, in characters.
pub const MAX_DESCRIPTION_LENGTH: usize = 2000;

/// Most skill tags a task may ask for.
pub const MAX_SKILLS: usize = 10;

/// Longest single skill tag, in characters.
pub const MAX_SKILL_LENGTH: usize = 50;

/// Longest task identifier, in characters.
pub const MAX_TASK_ID_LENGTH: usize = 32;

/// Longest delivery link an agent may hand in, in characters.
pub const MAX_DELIVERY_URL_LENGTH: usize = 200;

/// Smallest budget a task may be posted with: one whole unit of the
/// currency, counted in micro-units.
pub const MINIMUM_BUDGET: u64 = 1_000_000;

/// A bidder without a finished task needs prior earnings of at least the
/// bid divided by this ratio.
pub const REPUTATION_STAKE_RATIO: u64 = 10;

/// Longest span between now and a deadline, and longest estimated
/// duration of a bid: ninety days, in seconds.
pub const MAX_TASK_DURATION: i64 = 90 * 24 * 60 * 60;

/// Time reserved for settling a dispute: seven days, in seconds. No
/// operation opens a dispute yet, so nothing reads this.
pub const DISPUTE_RESOLUTION_TIMEOUT: i64 = 7 * 24 * 60 * 60;

/// Lowest rating a poster may give.
pub const MIN_RATING: u8 = 1;

/// Highest rating a poster may give.
pub const MAX_RATING: u8 = 5;

} // verus!
