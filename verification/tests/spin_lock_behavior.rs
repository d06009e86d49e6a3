use sync_primitives::spin_lock::SpinLock;

#[test]
fn counter_rounds_add_up_to_n_times_m() {
    // Four workers, twenty-five increments each, one complete
    // lock/increment/unlock round at a time: exactly one hundred.
    let mut lock = SpinLock::new(0u64);
    for _worker in 0..4 {
        for _ in 0..25 {
            let mut guard = lock.lock();
            *guard.get_mut() += 1;
            lock.unlock(guard);
        }
    }
    let guard = lock.lock();
    assert_eq!(*guard.get(), 100);
    lock.unlock(guard);
}

#[test]
fn guard_reads_and_writes_the_protected_value() {
    let mut lock = SpinLock::new(vec![1u8]);
    let mut guard = lock.lock();
    guard.get_mut().push(2);
    guard.get_mut().push(2);
    lock.unlock(guard);
    let mut guard = lock.lock();
    assert_eq!(guard.get().as_slice(), &[1, 2, 2]);
    guard.set(vec![9]);
    lock.unlock(guard);
    let guard = lock.lock();
    assert_eq!(guard.get().as_slice(), &[9]);
    lock.unlock(guard);
}
