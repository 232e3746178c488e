//! A lock that is safe to take inside interrupt handlers.
//!
//! The kernel runs on one core, so there is never another holder to wait for:
//! taking the lock turns interrupts off and marks the lock as held, and a
//! second acquisition while it is held is an error of the caller, never a
//! wait.

use vstd::prelude::*;

verus! {

/// The interrupt-enable flag of the processor.
#[derive(Clone, Copy, Debug, PartialEq, Eq, Structural)]
pub struct InterruptFlag {
    pub enabled: bool,
}

/// Why a lock was not taken.
#[derive(Clone, Copy, Debug, PartialEq, Eq, Structural)]
pub enum LockError {
    /// The lock is already held by the code that asked for it.
    LockedTwice,
}

impl LockError {
    /// The diagnostic that is reported before the system halts.
    pub fn describe(&self) -> (text: &'static str)
        ensures
            text@ == "IRQLocked locked twice"@,
    {
        "IRQLocked locked twice"
    }
}

/// The interrupt-enable flag while a lock is held: off.
pub open spec fn flag_while_locked() -> InterruptFlag {
    InterruptFlag { enabled: false }
}

/// The interrupt-enable flag after a lock is released: interrupts are turned
/// on again if they were on when the lock was taken, and are otherwise left
/// as they are.
pub open spec fn flag_after_unlock(saved: bool, current: InterruptFlag) -> InterruptFlag {
    InterruptFlag { enabled: saved || current.enabled }
}

/// What comes of an attempt to take a lock.
pub struct Acquisition {
    /// The state of the interrupt-enable flag that the guard remembers, or
    /// the reason for which there is no guard.
    pub outcome: Result<bool, LockError>,
    /// Whether the lock is held afterwards.
    pub held: bool,
    /// The interrupt-enable flag afterwards.
    pub interrupts: InterruptFlag,
}

/// An attempt to take a lock that is held or not, with the interrupt-enable
/// flag as it is: a free lock is taken, the flag is remembered and turned
/// off; a lock that is held is refused at once, and nothing changes.
pub open spec fn acquire(held: bool, interrupts: InterruptFlag) -> Acquisition {
    if held {
        Acquisition { outcome: Err(LockError::LockedTwice), held: true, interrupts }
    } else {
        Acquisition { outcome: Ok(interrupts.enabled), held: true, interrupts: flag_while_locked() }
    }
}

/// Proof that a lock is held, and the state of the interrupt-enable flag at
/// the time it was taken. It is handed back to release the lock.
pub struct InterruptGuard {
    int_flag: bool,
}

impl InterruptGuard {
    /// Whether interrupts were on when the lock was taken.
    pub closed spec fn saved(self) -> bool {
        self.int_flag
    }

    /// A guard that remembers `int_flag`.
    fn new(int_flag: bool) -> (guard: InterruptGuard)
        ensures
            guard.saved() == int_flag,
    {
        InterruptGuard { int_flag }
    }

    /// Tells whether interrupts were on when the lock was taken.
    pub fn interrupts_were_enabled(&self) -> (saved: bool)
        ensures
            saved == self.saved(),
    {
        self.int_flag
    }
}

/// A value behind a lock that is safe to take inside interrupt handlers.
pub struct IRQLock<T> {
    locked: bool,
    val: T,
}

impl<T> IRQLock<T> {
    /// Whether the lock is held.
    pub closed spec fn held(self) -> bool {
        self.locked
    }

    /// The value behind the lock.
    pub closed spec fn value(self) -> T {
        self.val
    }

    /// A lock around `val` that nobody holds.
    pub fn new(val: T) -> (lock: IRQLock<T>)
        ensures
            !lock.held(),
            lock.value() == val,
    {
        IRQLock { locked: false, val }
    }

    /// Tells whether the lock is held, without taking it.
    pub fn is_locked(&self) -> (locked: bool)
        ensures
            locked == self.held(),
    {
        self.locked
    }

    /// Takes the lock if nobody holds it: the interrupt-enable flag is
    /// remembered in the guard and then turned off. A lock that is held is
    /// left as it is, and so is the flag.
    pub fn try_lock(&mut self, interrupts: &mut InterruptFlag) -> (result: Result<
        InterruptGuard,
        LockError,
    >)
        ensures
            final(self).value() == old(self).value(),
            final(self).held() == acquire(old(self).held(), *old(interrupts)).held,
            *final(interrupts) == acquire(old(self).held(), *old(interrupts)).interrupts,
            match result {
                Ok(guard) => acquire(old(self).held(), *old(interrupts)).outcome == Ok::<
                    bool,
                    LockError,
                >(guard.saved()),
                Err(error) => acquire(old(self).held(), *old(interrupts)).outcome == Err::<
                    bool,
                    LockError,
                >(error),
            },
    {
        if self.locked {
            return Err(LockError::LockedTwice);
        }
        self.locked = true;
        let flag = interrupts.enabled;
        interrupts.enabled = false;
        Ok(InterruptGuard::new(flag))
    }

    /// Takes the lock. Taking a lock that is held is a fatal error of the
    /// caller, which this contract rules out.
    pub fn lock(&mut self, interrupts: &mut InterruptFlag) -> (guard: InterruptGuard)
        requires
            !old(self).held(),
        ensures
            final(self).held(),
            final(self).value() == old(self).value(),
            guard.saved() == old(interrupts).enabled,
            *final(interrupts) == flag_while_locked(),
    {
        self.locked = true;
        let flag = interrupts.enabled;
        interrupts.enabled = false;
        InterruptGuard::new(flag)
    }

    /// Releases the lock: interrupts are turned on again if the guard
    /// remembers them on, and the lock is free.
    pub fn unlock(&mut self, guard: InterruptGuard, interrupts: &mut InterruptFlag)
        requires
            old(self).held(),
        ensures
            !final(self).held(),
            final(self).value() == old(self).value(),
            *final(interrupts) == flag_after_unlock(guard.saved(), *old(interrupts)),
    {
        if guard.int_flag {
            interrupts.enabled = true;
        }
        self.locked = false;
    }

    /// The value behind the lock, for the holder to read.
    pub fn get(&self) -> (val: &T)
        requires
            self.held(),
        ensures
            *val == self.value(),
    {
        &self.val
    }

    /// The value behind the lock, for the holder to change.
    pub fn get_mut(&mut self) -> (val: &mut T)
        requires
            old(self).held(),
        ensures
            *val == old(self).value(),
            final(self).value() == *final(val),
            final(self).held(),
    {
        &mut self.val
    }

    /// Gives up the lock for the value behind it.
    pub fn into_inner(self) -> (val: T)
        ensures
            val == self.value(),
    {
        self.val
    }
}

/// Taking a free lock and releasing it again leaves the interrupt-enable flag
/// as it was before the lock was taken, whatever it was; in between the lock
/// is held and interrupts are off.
pub proof fn lemma_lock_cycle_restores_flag(before: InterruptFlag)
    ensures
        acquire(false, before).outcome == Ok::<bool, LockError>(before.enabled),
        acquire(false, before).held,
        acquire(false, before).interrupts == flag_while_locked(),
        flag_after_unlock(before.enabled, acquire(false, before).interrupts) == before,
{
}

/// A second acquisition while the lock is held never succeeds and never
/// waits: it is refused as a double lock, the lock stays with its holder and
/// the interrupt-enable flag stays as it is.
pub proof fn lemma_second_acquisition_fails(before: InterruptFlag, during: InterruptFlag)
    ensures
        acquire(acquire(false, before).held, during).outcome == Err::<bool, LockError>(
            LockError::LockedTwice,
        ),
        acquire(acquire(false, before).held, during).held,
        acquire(acquire(false, before).held, during).interrupts == during,
{
}

} // verus!
