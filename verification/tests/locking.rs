use rsos::lock::{InterruptSafeLock, InterruptState, LockError};

#[test]
fn test_acquire_disables_interrupts() {
    let mut lock = InterruptSafeLock::new(7u32);
    let mut ints = InterruptState { enabled: true };
    assert_eq!(lock.acquire(&mut ints), Ok(()));
    assert!(!ints.enabled);
    assert!(lock.locked);
}

#[test]
fn test_reentrant_acquire_is_refused() {
    // A second acquisition on the same call path — as a handler re-entering
    // the lock would attempt — is asserted as a programming error, not
    // silently granted and not hung.
    let mut lock = InterruptSafeLock::new(7u32);
    let mut ints = InterruptState { enabled: true };
    assert_eq!(lock.acquire(&mut ints), Ok(()));
    assert_eq!(lock.acquire(&mut ints), Err(LockError::Reentrant));
    // The refused attempt changed nothing: still locked, still masked.
    assert!(lock.locked);
    assert!(!ints.enabled);
}

#[test]
fn test_release_restores_previous_interrupt_state() {
    let mut lock = InterruptSafeLock::new(0u32);
    let mut ints = InterruptState { enabled: true };
    assert_eq!(lock.acquire(&mut ints), Ok(()));
    lock.release(&mut ints);
    assert!(ints.enabled);
    assert!(!lock.locked);

    let mut ints_off = InterruptState { enabled: false };
    assert_eq!(lock.acquire(&mut ints_off), Ok(()));
    lock.release(&mut ints_off);
    assert!(!ints_off.enabled);
}

#[test]
fn test_guarded_value_reachable_only_under_lock() {
    let mut lock = InterruptSafeLock::new(1u32);
    let mut ints = InterruptState { enabled: true };
    assert_eq!(lock.acquire(&mut ints), Ok(()));
    assert_eq!(*lock.get(), 1);
    lock.set(2);
    assert_eq!(*lock.get(), 2);
    lock.release(&mut ints);
    assert_eq!(ints.enabled, true);
}
