//! Exclusive, reentrant measurement of a process-wide allocator.
//!
//! The allocator is guarded by one machine word that is either free, busy for
//! the span of a single allocator call, or owned by one thread for the span of
//! a measurement. `state` holds that protocol as a state machine together with
//! the decisions taken on each compare-and-swap; `stats` holds the arithmetic
//! on statistics snapshots; `allocator` ties both to the shared atomic word.

pub mod state;

pub use state::{
    LockState, ThreadId, EnterOutcome, ExitOutcome, AcquireOutcome, OwnershipViolation,
    FREE_WORD, BUSY_WORD, observed_word, decide_enter, decide_exit, decide_acquire,
    decide_release,
};

pub mod stats;

pub use stats::delta;

pub mod allocator;

pub use allocator::{LockedAllocator, Ownership, MeasureError, StatsSource, memory_measured};
pub use stats_alloc::Stats;
