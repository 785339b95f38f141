//! Reward and progression engine for a gamified task tracker.
//!
//! The engine turns task completion into experience, gold, levels,
//! time-limited buffs and achievement unlocks.  All rule logic is
//! verified; wall-clock reads and transport live outside this crate.

use vstd::prelude::*;

pub mod achievements;
pub mod buffs;
pub mod engine;
pub mod inventory;
pub mod progression;
pub mod tasks;
pub mod user;

verus! {

/// Ceiling on accumulated totals (experience points, gold, goal progress).
/// Accumulation saturates here so that the derived quantities
/// (level, experience to next level) stay inside `i64`.
pub const MAX_TOTAL: i64 = 1_000_000_000_000_000_000;

/// Largest accepted task difficulty.
pub const MAX_DIFFICULTY: i64 = 100_000;

/// Largest accepted base reward (task or achievement).
pub const MAX_BASE_REWARD: i64 = 1_000_000;

/// Largest accepted raw user stat.
pub const MAX_STAT: i64 = 1_000_000;

/// Largest accepted buff value, in hundredths (a multiplier of at most
/// 1000x, or a stat boost of at most 1000 points).
pub const MAX_BUFF_VALUE: i64 = 100_000;

/// Largest number of buffs the store accepts at once.
pub const MAX_ACTIVE_BUFFS: usize = 1_000;

/// Largest stack bound an inventory entry can carry.
pub const MAX_STACK_LIMIT: i64 = 1_000_000_000;

/// Largest accepted buff duration, in minutes.
pub const MAX_DURATION: i64 = 1_000_000_000;

/// Largest accepted timestamp, in milliseconds since the epoch.
/// Keeps `now + duration` inside `i64`.
pub const MAX_TIMESTAMP: i64 = 4_000_000_000_000_000;

/// Ceiling on a stat-adjusted reward handed to the buff-multiplier
/// overlay; keeps the multiplier product inside `i64`.
pub const MAX_ADJUSTED_REWARD: i64 = 50_000_000_000;

/// Largest value a stat can reach once the buff overlay is added.
pub const MAX_OVERLAID_STAT: i64 = 2_000_000;

/// Ceiling on a single reward grant as applied to the user aggregate;
/// keeps saturating accumulation inside `i64`.
pub const MAX_REWARD_GRANT: i64 = 100_000_000_000_000_000;

/// The typed failures of the engine.  Every operation reports one of
/// these; none panics on any input its contract admits.
#[derive(Clone, Copy, Debug, PartialEq, Eq, Structural)]
pub enum EngineError {
    /// Unknown task, item or user id.
    NotFound,
    /// A goal-only operation was applied to a standard task.
    WrongTaskType,
    /// A purchase was attempted with too little gold.
    InsufficientGold,
    /// An effect descriptor names a kind the engine does not know.
    UnknownEffect,
    /// A malformed effect descriptor, or a negative or oversized input.
    ValidationError,
}

} // verus!
