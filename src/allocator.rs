use vstd::prelude::*;
use std::sync::atomic::{AtomicUsize, Ordering};
use stats_alloc::Stats;
use crate::state::{
    state_of, enter_outcome, exit_outcome, acquire_outcome, release_outcome, observed_word,
    decide_enter, decide_exit, decide_acquire, decide_release, EnterOutcome, ExitOutcome,
    AcquireOutcome, OwnershipViolation, ThreadId, FREE_WORD, BUSY_WORD,
};
use crate::stats::{delta, diff, precedes};

verus! {

/// A statistics collector that the lock guards: it reads a snapshot of its
/// counters without allocating. Snapshots taken at different moments may
/// differ, since any thread's allocations move the counters.
pub trait StatsSource {
    fn snapshot(&self) -> Stats;
}

/// Relies on `AtomicUsize::compare_exchange`, sequentially consistent: it
/// returns `Ok` with the previous word, which then equals `current`, where it
/// wrote `new`, and `Err` with the previous word, which differs from
/// `current`, where it did not.
#[verifier::external_body]
fn compare_and_swap(word: &AtomicUsize, current: usize, new: usize) -> (r: Result<usize, usize>)
    ensures
        r matches Ok(v) ==> v == current,
        r matches Err(v) ==> v != current,
{
    word.compare_exchange(current, new, Ordering::SeqCst, Ordering::SeqCst)
}

/// An allocator with statistics whose every call is serialised through one
/// lock word, which one thread at a time may own for a measurement.
pub struct LockedAllocator<T> {
    /// The lock word: `FREE_WORD`, `BUSY_WORD`, or the owner's identity.
    pub locked: AtomicUsize,
    /// The counting allocator that does the work.
    pub inner: T,
}

/// The measurement lock as held by one thread. Only the outermost holder
/// releases it; a nested holder leaves it to the measurement around it.
#[derive(Clone, Copy, Debug, PartialEq, Eq, Structural)]
pub struct Ownership {
    pub owner: ThreadId,
    pub outermost: bool,
}

/// Why a measurement gave no delta.
#[derive(Clone, Copy, Debug, PartialEq, Eq, Structural)]
pub enum MeasureError {
    /// The lock was not owned by the measuring thread when it was released.
    Ownership(OwnershipViolation),
    /// A counter ran backwards between the two snapshots.
    CountersWrapped,
}

/// The hold on the lock that an acquisition with this outcome gives.
pub open spec fn ownership_for(outcome: AcquireOutcome, me: ThreadId) -> Option<Ownership> {
    match outcome {
        AcquireOutcome::Acquired => Some(Ownership { owner: me, outermost: true }),
        AcquireOutcome::Nested => Some(Ownership { owner: me, outermost: false }),
        AcquireOutcome::Contended => None,
    }
}

impl<T> LockedAllocator<T> {
    /// Guards `inner` with a lock word made by `AtomicUsize::new(FREE_WORD)`;
    /// the contract states only what is kept of `inner`.
    pub fn new(inner: T) -> (r: Self)
        ensures
            r.inner == inner,
    {
        let locked = AtomicUsize::new(FREE_WORD);
        LockedAllocator { locked, inner }
    }

    /// One attempt to enter an allocator call, by a compare-and-swap from
    /// `FREE_WORD` to `BUSY_WORD`; that write is `compare_exchange`'s doing.
    /// The contract states which decision was taken on the word it saw.
    pub fn try_enter(&self, me: ThreadId) -> (r: EnterOutcome)
        ensures
            exists|w: usize| r == enter_outcome(state_of(w), me@),
    {
        let seen = compare_and_swap(&self.locked, FREE_WORD, BUSY_WORD);
        decide_enter(observed_word(seen), me)
    }

    /// One attempt to leave an allocator call, by a compare-and-swap from
    /// `BUSY_WORD` to `FREE_WORD`; that write is `compare_exchange`'s doing.
    /// The contract states which decision was taken on the word it saw.
    pub fn try_exit(&self, me: ThreadId) -> (r: ExitOutcome)
        ensures
            exists|w: usize| r == exit_outcome(state_of(w), me@),
    {
        let seen = compare_and_swap(&self.locked, BUSY_WORD, FREE_WORD);
        decide_exit(observed_word(seen), me)
    }

    /// One attempt to take the measurement lock, by a compare-and-swap from
    /// `FREE_WORD` to the word of `me`; that write is `compare_exchange`'s
    /// doing. The contract states which hold, if any, the word it saw gives:
    /// an outermost hold on a free word, a nested one on `me`'s own word.
    pub fn try_lock(&self, me: ThreadId) -> (r: Option<Ownership>)
        ensures
            exists|w: usize| r == ownership_for(acquire_outcome(state_of(w), me@), me),
    {
        let m = me.raw();
        let seen = compare_and_swap(&self.locked, FREE_WORD, m);
        let outcome = decide_acquire(observed_word(seen), me);
        match outcome {
            AcquireOutcome::Acquired => Some(Ownership { owner: me, outermost: true }),
            AcquireOutcome::Nested => Some(Ownership { owner: me, outermost: false }),
            AcquireOutcome::Contended => None,
        }
    }

    /// Releases the measurement lock held by `me`, by a compare-and-swap from
    /// the word of `me` to `FREE_WORD`; that write is `compare_exchange`'s
    /// doing. The contract states the decision taken on the word it saw:
    /// success on `me`'s word, otherwise a violation naming the state seen.
    pub fn unlock(&self, me: ThreadId) -> (r: Result<(), OwnershipViolation>)
        ensures
            exists|w: usize| r == release_outcome(state_of(w), me@),
    {
        let m = me.raw();
        let seen = compare_and_swap(&self.locked, m, FREE_WORD);
        decide_release(observed_word(seen), me)
    }
}

impl<T: StatsSource> LockedAllocator<T> {
    /// The current statistics of the inner allocator.
    pub fn stats(&self) -> Stats {
        self.inner.snapshot()
    }
}

/// The result of a measurement whose snapshots were `before` and `after`, and
/// whose release, where it made one, returned `released`.
pub open spec fn measurement(
    before: Stats,
    after: Stats,
    released: Result<(), OwnershipViolation>,
) -> Result<Stats, MeasureError> {
    match released {
        Err(v) => Err(MeasureError::Ownership(v)),
        Ok(()) => if precedes(before, after) {
            Ok(diff(after, before))
        } else {
            Err(MeasureError::CountersWrapped)
        },
    }
}

/// The result of a measurement under `held` whose snapshots were `before`
/// and `after`, and whose release, where it made one, observed the word `w`.
pub open spec fn measured_with(held: Ownership, before: Stats, after: Stats, w: usize) -> Result<
    Stats,
    MeasureError,
> {
    measurement(
        before,
        after,
        if held.outermost {
            release_outcome(state_of(w), held.owner@)
        } else {
            Ok(())
        },
    )
}

/// Runs `f` to completion while `held`, snapshots the statistics on both
/// sides of it, releases the lock where `held` is the outermost hold, and
/// returns the change between the two snapshots.
pub fn memory_measured<A: StatsSource, F: FnOnce()>(
    alloc: &LockedAllocator<A>,
    held: Ownership,
    f: F,
) -> (r: Result<Stats, MeasureError>)
    requires
        f.requires(()),
    ensures
        f.ensures((), ()),
        exists|before: Stats, after: Stats, w: usize|
            r == #[trigger] measured_with(held, before, after, w),
{
    let before = alloc.stats();
    f();
    let after = alloc.stats();
    let released = if held.outermost {
        alloc.unlock(held.owner)
    } else {
        Ok(())
    };
    let ghost w = choose|w: usize|
        held.outermost ==> released == #[trigger] release_outcome(state_of(w), held.owner@);
    let r = match released {
        Err(v) => Err(MeasureError::Ownership(v)),
        Ok(()) => match delta(after, before) {
            Some(d) => Ok(d),
            None => Err(MeasureError::CountersWrapped),
        },
    };
    assert(r == measured_with(held, before, after, w));
    r
}

} // verus!
