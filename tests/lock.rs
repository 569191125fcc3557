use measured_alloc::{
    decide_acquire, decide_enter, decide_exit, decide_release, observed_word, AcquireOutcome,
    EnterOutcome, ExitOutcome, LockState, LockedAllocator, OwnershipViolation, ThreadId,
};

fn tid(raw: usize) -> ThreadId {
    ThreadId::new(raw).unwrap()
}

#[test]
fn thread_ids_exclude_reserved_words() {
    assert!(ThreadId::new(0).is_none());
    assert!(ThreadId::new(1).is_none());
    assert_eq!(ThreadId::new(2).map(|t| t.raw()), Some(2));
    assert_eq!(ThreadId::new(usize::MAX).map(|t| t.raw()), Some(usize::MAX));
}

#[test]
fn words_encode_states() {
    assert_eq!(LockState::from_word(0), LockState::Free);
    assert_eq!(LockState::from_word(1), LockState::Busy);
    assert_eq!(LockState::from_word(77), LockState::OwnedBy(77));
    assert_eq!(LockState::Free.to_word(), 0);
    assert_eq!(LockState::Busy.to_word(), 1);
    assert_eq!(LockState::OwnedBy(77).to_word(), 77);
}

#[test]
fn decisions_on_observed_words() {
    let me = tid(40);
    assert_eq!(observed_word(Ok(5)), 5);
    assert_eq!(observed_word(Err(6)), 6);
    assert_eq!(decide_enter(0, me), EnterOutcome::Entered);
    assert_eq!(decide_enter(40, me), EnterOutcome::Reentrant);
    assert_eq!(decide_enter(1, me), EnterOutcome::Retry);
    assert_eq!(decide_enter(41, me), EnterOutcome::Retry);
    assert_eq!(decide_exit(1, me), ExitOutcome::Exited);
    assert_eq!(decide_exit(40, me), ExitOutcome::Reentrant);
    assert_eq!(decide_exit(0, me), ExitOutcome::Retry);
    assert_eq!(decide_exit(41, me), ExitOutcome::Retry);
    assert_eq!(decide_acquire(0, me), AcquireOutcome::Acquired);
    assert_eq!(decide_acquire(40, me), AcquireOutcome::Nested);
    assert_eq!(decide_acquire(1, me), AcquireOutcome::Contended);
    assert_eq!(decide_acquire(41, me), AcquireOutcome::Contended);
    assert_eq!(decide_release(40, me), Ok(()));
    assert_eq!(
        decide_release(0, me),
        Err(OwnershipViolation { found: LockState::Free })
    );
    assert_eq!(
        decide_release(41, me),
        Err(OwnershipViolation { found: LockState::OwnedBy(41) })
    );
}

#[test]
fn transient_entry_serialises_calls() {
    let lock = LockedAllocator::new(());
    let a = tid(10);
    let b = tid(11);
    assert_eq!(lock.try_enter(a), EnterOutcome::Entered);
    assert_eq!(lock.try_enter(b), EnterOutcome::Retry);
    assert_eq!(lock.try_enter(a), EnterOutcome::Retry);
    assert!(lock.try_lock(b).is_none());
    assert_eq!(lock.try_exit(a), ExitOutcome::Exited);
    assert_eq!(lock.try_exit(a), ExitOutcome::Retry);
    assert_eq!(lock.try_enter(b), EnterOutcome::Entered);
    assert_eq!(lock.try_exit(b), ExitOutcome::Exited);
}

#[test]
fn owner_excludes_other_threads() {
    let lock = LockedAllocator::new(());
    let owner = tid(20);
    let other = tid(21);
    let held = lock.try_lock(owner).unwrap();
    assert!(held.outermost);
    assert_eq!(held.owner, owner);
    assert_eq!(lock.try_enter(other), EnterOutcome::Retry);
    assert_eq!(lock.try_exit(other), ExitOutcome::Retry);
    assert!(lock.try_lock(other).is_none());
    assert_eq!(
        lock.unlock(other),
        Err(OwnershipViolation { found: LockState::OwnedBy(20) })
    );
    assert_eq!(lock.try_enter(owner), EnterOutcome::Reentrant);
    assert_eq!(lock.try_exit(owner), ExitOutcome::Reentrant);
    assert_eq!(lock.unlock(owner), Ok(()));
    assert_eq!(lock.try_enter(other), EnterOutcome::Entered);
    assert_eq!(lock.try_exit(other), ExitOutcome::Exited);
}

#[test]
fn release_succeeds_once() {
    let lock = LockedAllocator::new(());
    let me = tid(30);
    assert!(lock.try_lock(me).unwrap().outermost);
    assert_eq!(lock.unlock(me), Ok(()));
    assert_eq!(
        lock.unlock(me),
        Err(OwnershipViolation { found: LockState::Free })
    );
}

#[test]
fn nested_take_gives_nested_hold() {
    let lock = LockedAllocator::new(());
    let me = tid(50);
    let outer = lock.try_lock(me).unwrap();
    let inner = lock.try_lock(me).unwrap();
    assert!(outer.outermost);
    assert!(!inner.outermost);
    assert_eq!(lock.unlock(me), Ok(()));
    assert!(lock.try_lock(me).unwrap().outermost);
}
