use vstd::prelude::*;

verus! {

/// Word value of a lock that nobody holds.
pub const FREE_WORD: usize = 0;

/// Word value of a lock held for the span of one allocator call.
pub const BUSY_WORD: usize = 1;

/// Identity of a live thread. The word values reserved for `Free` and `Busy`
/// are never identities, so an owner can never be mistaken for a sentinel.
#[derive(Clone, Copy, Debug, PartialEq, Eq, Structural)]
pub struct ThreadId {
    raw: usize,
}

impl ThreadId {
    #[verifier::type_invariant]
    spec fn inv(self) -> bool {
        self.raw > BUSY_WORD
    }

    pub closed spec fn view(self) -> usize {
        self.raw
    }

    /// Wraps a platform thread handle; `None` for the two reserved words.
    pub fn new(raw: usize) -> (r: Option<ThreadId>)
        ensures
            raw > BUSY_WORD <==> r is Some,
            r matches Some(t) ==> t@ == raw,
    {
        if raw > BUSY_WORD {
            Some(ThreadId { raw })
        } else {
            None
        }
    }

    pub fn raw(&self) -> (r: usize)
        ensures
            r == self@,
            r > BUSY_WORD,
    {
        proof {
            use_type_invariant(self);
        }
        self.raw
    }
}

/// The three states of the allocator lock.
#[derive(Clone, Copy, Debug, PartialEq, Eq, Structural)]
pub enum LockState {
    /// No owner: allocator calls proceed with per-call serialisation only.
    Free,
    /// Some caller is inside the inner allocator.
    Busy,
    /// The thread with this identity holds the measurement lock.
    OwnedBy(usize),
}

/// The state that a lock word encodes.
pub open spec fn state_of(w: usize) -> LockState {
    if w == FREE_WORD {
        LockState::Free
    } else if w == BUSY_WORD {
        LockState::Busy
    } else {
        LockState::OwnedBy(w)
    }
}

/// The word that encodes a state.
pub open spec fn word_of(s: LockState) -> usize {
    match s {
        LockState::Free => FREE_WORD,
        LockState::Busy => BUSY_WORD,
        LockState::OwnedBy(t) => t,
    }
}

/// A state that some word encodes: an owner is never a reserved word.
pub open spec fn encodable(s: LockState) -> bool {
    s matches LockState::OwnedBy(t) ==> t > BUSY_WORD
}

impl LockState {
    /// Decodes a lock word.
    pub fn from_word(w: usize) -> (r: LockState)
        ensures
            r == state_of(w),
    {
        if w == FREE_WORD {
            LockState::Free
        } else if w == BUSY_WORD {
            LockState::Busy
        } else {
            LockState::OwnedBy(w)
        }
    }

    /// Encodes a lock state as a word.
    pub fn to_word(&self) -> (r: usize)
        ensures
            r == word_of(*self),
    {
        match self {
            LockState::Free => FREE_WORD,
            LockState::Busy => BUSY_WORD,
            LockState::OwnedBy(t) => *t,
        }
    }
}

/// Decoding and encoding are inverse on every word and every encodable state.
pub proof fn lemma_encoding_round_trip(w: usize, s: LockState)
    requires
        encodable(s),
    ensures
        word_of(state_of(w)) == w,
        encodable(state_of(w)),
        state_of(word_of(s)) == s,
{
}

/// What a thread does after one attempt to enter an allocator call.
#[derive(Clone, Copy, Debug, PartialEq, Eq, Structural)]
pub enum EnterOutcome {
    /// The lock went from `Free` to `Busy`; the call must exit afterwards.
    Entered,
    /// The caller owns the lock: it proceeds at once and leaves the state alone.
    Reentrant,
    /// Someone else holds the lock: wait and try again.
    Retry,
}

/// What a thread does after one attempt to leave an allocator call.
#[derive(Clone, Copy, Debug, PartialEq, Eq, Structural)]
pub enum ExitOutcome {
    /// The lock went from `Busy` back to `Free`.
    Exited,
    /// The caller owns the lock: nothing to undo.
    Reentrant,
    /// The lock is in a state this caller cannot leave yet: wait and try again.
    Retry,
}

/// What a thread does after one attempt to take the measurement lock.
#[derive(Clone, Copy, Debug, PartialEq, Eq, Structural)]
pub enum AcquireOutcome {
    /// The lock went from `Free` to owned by the caller.
    Acquired,
    /// The caller already owns the lock: it is a nested measurement.
    Nested,
    /// Someone else holds the lock: wait and try again.
    Contended,
}

/// A release by a thread that does not own the lock; `found` is the state
/// the lock was in, which the failed release left unchanged.
#[derive(Clone, Copy, Debug, PartialEq, Eq, Structural)]
pub struct OwnershipViolation {
    pub found: LockState,
}

/// The word a compare-and-swap leaves behind, given the word it observed.
pub open spec fn cas_next(observed: usize, current: usize, new: usize) -> usize {
    if observed == current {
        new
    } else {
        observed
    }
}

pub open spec fn enter_outcome(s: LockState, me: usize) -> EnterOutcome {
    match s {
        LockState::Free => EnterOutcome::Entered,
        LockState::OwnedBy(t) => if t == me {
            EnterOutcome::Reentrant
        } else {
            EnterOutcome::Retry
        },
        LockState::Busy => EnterOutcome::Retry,
    }
}

pub open spec fn enter_next(s: LockState, me: usize) -> LockState {
    match s {
        LockState::Free => LockState::Busy,
        _ => s,
    }
}

pub open spec fn exit_outcome(s: LockState, me: usize) -> ExitOutcome {
    match s {
        LockState::Busy => ExitOutcome::Exited,
        LockState::OwnedBy(t) => if t == me {
            ExitOutcome::Reentrant
        } else {
            ExitOutcome::Retry
        },
        LockState::Free => ExitOutcome::Retry,
    }
}

pub open spec fn exit_next(s: LockState, me: usize) -> LockState {
    match s {
        LockState::Busy => LockState::Free,
        _ => s,
    }
}

pub open spec fn acquire_outcome(s: LockState, me: usize) -> AcquireOutcome {
    match s {
        LockState::Free => AcquireOutcome::Acquired,
        LockState::OwnedBy(t) => if t == me {
            AcquireOutcome::Nested
        } else {
            AcquireOutcome::Contended
        },
        LockState::Busy => AcquireOutcome::Contended,
    }
}

pub open spec fn acquire_next(s: LockState, me: usize) -> LockState {
    match s {
        LockState::Free => LockState::OwnedBy(me),
        _ => s,
    }
}

pub open spec fn release_outcome(s: LockState, me: usize) -> Result<(), OwnershipViolation> {
    if s == LockState::OwnedBy(me) {
        Ok(())
    } else {
        Err(OwnershipViolation { found: s })
    }
}

pub open spec fn release_next(s: LockState, me: usize) -> LockState {
    if s == LockState::OwnedBy(me) {
        LockState::Free
    } else {
        s
    }
}

/// The word a compare-and-swap returned, whether it wrote or not.
pub fn observed_word(r: Result<usize, usize>) -> (w: usize)
    ensures
        r matches Ok(v) ==> w == v,
        r matches Err(v) ==> w == v,
{
    match r {
        Ok(v) => v,
        Err(v) => v,
    }
}

/// Decides an attempt to enter an allocator call that observed `observed`.
pub fn decide_enter(observed: usize, me: ThreadId) -> (r: EnterOutcome)
    ensures
        r == enter_outcome(state_of(observed), me@),
{
    let m = me.raw();
    if observed == FREE_WORD {
        EnterOutcome::Entered
    } else if observed == m {
        EnterOutcome::Reentrant
    } else {
        EnterOutcome::Retry
    }
}

/// Decides an attempt to leave an allocator call that observed `observed`.
pub fn decide_exit(observed: usize, me: ThreadId) -> (r: ExitOutcome)
    ensures
        r == exit_outcome(state_of(observed), me@),
{
    let m = me.raw();
    if observed == BUSY_WORD {
        ExitOutcome::Exited
    } else if observed == m {
        ExitOutcome::Reentrant
    } else {
        ExitOutcome::Retry
    }
}

/// Decides an attempt to take the measurement lock that observed `observed`.
pub fn decide_acquire(observed: usize, me: ThreadId) -> (r: AcquireOutcome)
    ensures
        r == acquire_outcome(state_of(observed), me@),
{
    let m = me.raw();
    if observed == FREE_WORD {
        AcquireOutcome::Acquired
    } else if observed == m {
        AcquireOutcome::Nested
    } else {
        AcquireOutcome::Contended
    }
}

/// Decides a release of the measurement lock that observed `observed`.
pub fn decide_release(observed: usize, me: ThreadId) -> (r: Result<(), OwnershipViolation>)
    ensures
        r == release_outcome(state_of(observed), me@),
{
    let m = me.raw();
    if observed == m {
        Ok(())
    } else {
        Err(OwnershipViolation { found: LockState::from_word(observed) })
    }
}

/// Each compare-and-swap of the protocol moves the encoded state exactly as
/// the state machine does: `Free` to `Busy` on entry, `Busy` to `Free` on
/// exit, `Free` to the caller on acquisition, the caller to `Free` on release.
/// `me` is any thread identity, which never is a reserved word.
pub proof fn lemma_word_steps(w: usize, me: usize)
    requires
        me > BUSY_WORD,
    ensures
        state_of(cas_next(w, FREE_WORD, BUSY_WORD)) == enter_next(state_of(w), me),
        state_of(cas_next(w, BUSY_WORD, FREE_WORD)) == exit_next(state_of(w), me),
        state_of(cas_next(w, FREE_WORD, me)) == acquire_next(state_of(w), me),
        state_of(cas_next(w, me, FREE_WORD)) == release_next(state_of(w), me),
{
}

/// Every step of every thread keeps the lock in a state that a word encodes.
pub proof fn lemma_steps_keep_encodable(s: LockState, me: usize)
    requires
        encodable(s),
        me > BUSY_WORD,
    ensures
        encodable(enter_next(s, me)),
        encodable(exit_next(s, me)),
        encodable(acquire_next(s, me)),
        encodable(release_next(s, me)),
{
}

/// Only a free lock lets a caller enter an allocator call or take ownership:
/// no two callers are ever inside the inner allocator through `Busy` at once,
/// and no two threads ever own the lock at once.
pub proof fn lemma_single_holder(s: LockState, me: usize)
    ensures
        enter_outcome(s, me) == EnterOutcome::Entered ==> s == LockState::Free,
        acquire_outcome(s, me) == AcquireOutcome::Acquired ==> s == LockState::Free,
{
}

/// While `owner` holds the lock, no step of any other thread gets through or
/// changes the state: its allocator calls wait, so they cannot touch the
/// counters that the owner is measuring, and its takes and releases fail.
pub proof fn lemma_owner_excludes_others(owner: usize, other: usize)
    requires
        owner > BUSY_WORD,
        other > BUSY_WORD,
        owner != other,
    ensures
        enter_outcome(LockState::OwnedBy(owner), other) == EnterOutcome::Retry,
        enter_next(LockState::OwnedBy(owner), other) == LockState::OwnedBy(owner),
        exit_outcome(LockState::OwnedBy(owner), other) == ExitOutcome::Retry,
        exit_next(LockState::OwnedBy(owner), other) == LockState::OwnedBy(owner),
        acquire_outcome(LockState::OwnedBy(owner), other) == AcquireOutcome::Contended,
        acquire_next(LockState::OwnedBy(owner), other) == LockState::OwnedBy(owner),
        release_outcome(LockState::OwnedBy(owner), other) is Err,
        release_next(LockState::OwnedBy(owner), other) == LockState::OwnedBy(owner),
{
}

/// While `me` holds the lock, every step of `me` goes through at once and
/// leaves the lock with `me`: its own allocator calls pass, and a nested
/// measurement gets a nested hold instead of waiting for itself.
pub proof fn lemma_owner_reenters(me: usize)
    requires
        me > BUSY_WORD,
    ensures
        enter_outcome(LockState::OwnedBy(me), me) == EnterOutcome::Reentrant,
        enter_next(LockState::OwnedBy(me), me) == LockState::OwnedBy(me),
        exit_outcome(LockState::OwnedBy(me), me) == ExitOutcome::Reentrant,
        exit_next(LockState::OwnedBy(me), me) == LockState::OwnedBy(me),
        acquire_outcome(LockState::OwnedBy(me), me) == AcquireOutcome::Nested,
        acquire_next(LockState::OwnedBy(me), me) == LockState::OwnedBy(me),
{
}

/// After `me` takes a free lock, one release by `me` succeeds and frees it; a
/// second release by `me`, or a release by any other thread, fails.
pub proof fn lemma_release_once(me: usize, other: usize)
    requires
        me > BUSY_WORD,
        other > BUSY_WORD,
        other != me,
    ensures
        acquire_outcome(LockState::Free, me) == AcquireOutcome::Acquired,
        release_outcome(acquire_next(LockState::Free, me), me) == Ok::<(), OwnershipViolation>(()),
        release_next(acquire_next(LockState::Free, me), me) == LockState::Free,
        release_outcome(release_next(acquire_next(LockState::Free, me), me), me) is Err,
        release_outcome(acquire_next(LockState::Free, me), other) is Err,
        release_next(acquire_next(LockState::Free, me), other) == acquire_next(
            LockState::Free,
            me,
        ),
{
}

} // verus!
