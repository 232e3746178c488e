use tyto::irq_lock::{IRQLock, InterruptFlag, LockError};

#[test]
fn a_lock_cycle_restores_the_interrupt_flag() {
    for enabled in [true, false] {
        let mut interrupts = InterruptFlag { enabled };
        let mut lock = IRQLock::new(7u32);
        assert!(!lock.is_locked());
        let guard = lock.lock(&mut interrupts);
        assert!(lock.is_locked());
        assert_eq!(interrupts, InterruptFlag { enabled: false });
        assert_eq!(guard.interrupts_were_enabled(), enabled);
        lock.unlock(guard, &mut interrupts);
        assert!(!lock.is_locked());
        assert_eq!(interrupts, InterruptFlag { enabled });
    }
}

#[test]
fn a_second_acquisition_fails() {
    let mut interrupts = InterruptFlag { enabled: true };
    let mut lock = IRQLock::new(String::from("value"));
    let guard = lock.try_lock(&mut interrupts).expect("the lock is free");
    assert_eq!(interrupts, InterruptFlag { enabled: false });
    let second = lock.try_lock(&mut interrupts);
    assert!(matches!(second, Err(LockError::LockedTwice)));
    assert!(lock.is_locked());
    assert_eq!(interrupts, InterruptFlag { enabled: false });
    assert_eq!(LockError::LockedTwice.describe(), "IRQLocked locked twice");
    lock.unlock(guard, &mut interrupts);
    assert_eq!(interrupts, InterruptFlag { enabled: true });
    assert!(lock.try_lock(&mut interrupts).is_ok());
}

#[test]
fn the_holder_reads_and_changes_the_value() {
    let mut interrupts = InterruptFlag { enabled: true };
    let mut lock = IRQLock::new(vec![1, 2, 3]);
    let guard = lock.lock(&mut interrupts);
    assert_eq!(lock.get(), &vec![1, 2, 3]);
    lock.get_mut().push(4);
    assert_eq!(lock.get(), &vec![1, 2, 3, 4]);
    lock.unlock(guard, &mut interrupts);
    assert_eq!(lock.into_inner(), vec![1, 2, 3, 4]);
}

#[test]
fn interrupts_that_were_turned_on_meanwhile_stay_on() {
    let mut interrupts = InterruptFlag { enabled: false };
    let mut lock = IRQLock::new(());
    let guard = lock.lock(&mut interrupts);
    interrupts.enabled = true;
    lock.unlock(guard, &mut interrupts);
    assert_eq!(interrupts, InterruptFlag { enabled: true });
}
