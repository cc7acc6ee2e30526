//! The interrupt-safe locking discipline: a non-reentrant mutual-exclusion
//! lock for state shared between normal execution and interrupt handlers.
//! Acquisition first saves and disables the maskable-interrupt flag;
//! release restores the saved flag, so every exit path of a critical
//! section leaves the flag as it found it. Acquiring the lock a second
//! time on the same call path is a programming error and is refused, never
//! silently granted.
use vstd::prelude::*;

verus! {

/// The maskable-interrupt flag of the single execution context.
#[derive(Debug, Clone, Copy, PartialEq, Eq, Structural)]
pub struct InterruptState {
    pub enabled: bool,
}

/// The one way an acquisition can be refused.
#[derive(Debug, Clone, Copy, PartialEq, Eq, Structural)]
pub enum LockError {
    /// The lock is already held on this call path.
    Reentrant,
}

/// A non-reentrant lock around one shared resource. The resource is only
/// reachable while the lock is held.
pub struct InterruptSafeLock<T> {
    pub locked: bool,
    pub saved_interrupts: bool,
    pub value: T,
}

/// The discipline-relevant part of a lock together with the context's
/// interrupt flag.
pub ghost struct DisciplineState {
    pub locked: bool,
    pub saved: bool,
    pub interrupts_enabled: bool,
}

/// The discipline state that a lock and an interrupt flag are in.
pub open spec fn discipline_view<T>(lock: InterruptSafeLock<T>, ints: InterruptState) -> DisciplineState {
    DisciplineState {
        locked: lock.locked,
        saved: lock.saved_interrupts,
        interrupts_enabled: ints.enabled,
    }
}

/// What one acquisition attempt does: on a free lock it saves the
/// interrupt flag, disables interrupts and takes the lock; on a held lock
/// it refuses and changes nothing.
pub open spec fn acquire_spec(s: DisciplineState) -> (DisciplineState, Result<(), LockError>) {
    if s.locked {
        (s, Err(LockError::Reentrant))
    } else {
        (
            DisciplineState { locked: true, saved: s.interrupts_enabled, interrupts_enabled: false },
            Ok(()),
        )
    }
}

/// What a release does: it frees the lock and restores the interrupt flag
/// saved at acquisition.
pub open spec fn release_spec(s: DisciplineState) -> DisciplineState {
    DisciplineState { locked: false, saved: s.saved, interrupts_enabled: s.saved }
}

impl<T> InterruptSafeLock<T> {
    /// A free lock around the given resource.
    pub fn new(value: T) -> (r: InterruptSafeLock<T>)
        ensures
            !r.locked,
            r.value == value,
    {
        InterruptSafeLock { locked: false, saved_interrupts: false, value }
    }

    /// Attempts to enter the critical section. On success the previous
    /// interrupt flag is saved and interrupts are disabled; a second
    /// acquisition on the same call path is refused as a programming error
    /// and leaves the lock and the flag untouched.
    pub fn acquire(&mut self, ints: &mut InterruptState) -> (r: Result<(), LockError>)
        ensures
            (discipline_view(*final(self), *final(ints)), r) == acquire_spec(
                discipline_view(*old(self), *old(ints)),
            ),
            final(self).value == old(self).value,
            old(self).locked ==> *final(self) == *old(self) && *final(ints) == *old(ints),
            old(self).locked <==> r == Err::<(), LockError>(LockError::Reentrant),
            !old(self).locked <==> r is Ok,
    {
        if self.locked {
            Err(LockError::Reentrant)
        } else {
            self.saved_interrupts = ints.enabled;
            ints.enabled = false;
            self.locked = true;
            Ok(())
        }
    }

    /// Leaves the critical section: frees the lock and restores the
    /// interrupt flag saved at acquisition.
    pub fn release(&mut self, ints: &mut InterruptState)
        requires
            old(self).locked,
        ensures
            discipline_view(*final(self), *final(ints)) == release_spec(
                discipline_view(*old(self), *old(ints)),
            ),
            !final(self).locked,
            final(ints).enabled == old(self).saved_interrupts,
            final(self).value == old(self).value,
            final(self).saved_interrupts == old(self).saved_interrupts,
    {
        self.locked = false;
        ints.enabled = self.saved_interrupts;
    }

    /// The guarded resource; only reachable while the lock is held.
    pub fn get(&self) -> (r: &T)
        requires
            self.locked,
        ensures
            r == self.value,
    {
        &self.value
    }

    /// Replaces the guarded resource; only possible while the lock is held.
    pub fn set(&mut self, value: T)
        requires
            old(self).locked,
        ensures
            final(self).value == value,
            final(self).locked == old(self).locked,
            final(self).saved_interrupts == old(self).saved_interrupts,
    {
        self.value = value;
    }
}

/// Law: when acquisition is attempted a second time on the same call path,
/// the second attempt is refused as a programming error — it does not
/// succeed and it does not change the lock or the interrupt flag.
pub proof fn lemma_reacquire_refused(s: DisciplineState)
    requires
        !s.locked,
    ensures
        ({
            let (s1, r1) = acquire_spec(s);
            let (s2, r2) = acquire_spec(s1);
            r1 is Ok && r2 == Err::<(), LockError>(LockError::Reentrant) && s2 == s1
        }),
{
}

/// Law: a critical section that acquires the lock and releases it leaves
/// the interrupt-enable flag exactly as it found it, whatever it was.
pub proof fn lemma_release_restores_interrupts(s: DisciplineState)
    requires
        !s.locked,
    ensures
        ({
            let (s1, r1) = acquire_spec(s);
            !s1.interrupts_enabled && release_spec(s1).interrupts_enabled == s.interrupts_enabled
                && !release_spec(s1).locked
        }),
{
}

} // verus!
