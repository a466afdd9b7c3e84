use send_cells::sync_cell::{with_access, with_mut_access};
use send_cells::{LockError, SyncCell, UnsafeSyncCell};
use std::cell::RefCell;
use std::sync::atomic::{AtomicU64, Ordering};
use std::sync::{Arc, Mutex};

#[test]
fn with_reads_and_with_mut_writes() {
    let mut cell = SyncCell::new(vec![1, 2, 3]);
    assert_eq!(cell.with(|v| v.iter().sum::<i32>()), Ok(6));
    assert_eq!(
        cell.with_mut(|v| {
            v.push(4);
            v.len()
        }),
        Ok(4)
    );
    assert_eq!(cell.with(|v| v.clone()), Ok(vec![1, 2, 3, 4]));
    assert_eq!(cell.into_inner(), vec![1, 2, 3, 4]);
}

#[test]
fn shared_state_behind_the_lock() {
    let counter = RefCell::new(0);
    let cell = SyncCell::new(counter);
    for _ in 0..10 {
        let r = cell.with(|counter| {
            *counter.borrow_mut() += 1;
        });
        assert_eq!(r, Ok(()));
    }
    assert_eq!(cell.with(|counter| *counter.borrow()), Ok(10));
}

#[test]
fn interleaved_increments_are_all_counted() {
    const WORKERS: u64 = 8;
    const ROUNDS: u64 = 500;
    // Each worker holds the cell through a shared handle, as threads would.
    let cell = Arc::new(SyncCell::new(AtomicU64::new(0)));
    let workers: Vec<Arc<SyncCell<AtomicU64>>> = (0..WORKERS).map(|_| Arc::clone(&cell)).collect();
    for _ in 0..ROUNDS {
        for worker in &workers {
            let r = worker.with(|n| {
                let seen = n.load(Ordering::Relaxed);
                n.store(seen + 1, Ordering::Relaxed);
            });
            assert_eq!(r, Ok(()));
        }
    }
    assert_eq!(
        cell.with(|n| n.load(Ordering::Relaxed)),
        Ok(WORKERS * ROUNDS)
    );
}

#[test]
fn sequential_increments_are_all_counted() {
    let mut cell = SyncCell::new(0u64);
    for _ in 0..4 {
        for _ in 0..25 {
            assert_eq!(cell.with_mut(|n| *n += 1), Ok(()));
        }
    }
    assert_eq!(cell.into_inner(), 100);
}

#[test]
fn poisoned_lock_leaves_the_value_alone() {
    let mut inner = UnsafeSyncCell::new(3);
    assert_eq!(
        with_mut_access(&mut inner, Err(LockError::Poisoned), |n| *n += 1),
        Err(LockError::Poisoned)
    );
    assert_eq!(inner.with(|n| *n), 3);
    assert_eq!(
        with_access(&inner, Err(LockError::Poisoned), |n| *n),
        Err(LockError::Poisoned)
    );
}

#[test]
fn held_lock_leaves_the_value_alone() {
    let mut inner = UnsafeSyncCell::new(3);
    assert_eq!(
        with_mut_access(&mut inner, Err(LockError::Held), |n| *n += 1),
        Err(LockError::Held)
    );
    assert_eq!(inner.with(|n| *n), 3);
    assert_eq!(
        with_access(&inner, Err(LockError::Held), |n| *n),
        Err(LockError::Held)
    );
}

#[test]
fn nested_access_is_refused_at_once() {
    let cell = SyncCell::new(7);
    // The inner access finds the lock held by the outer one and does not wait.
    let nested = cell.with(|outer| (*outer, cell.with(|inner| *inner)));
    assert_eq!(nested, Ok((7, Err(LockError::Held))));
    // The outer access has released the lock.
    assert_eq!(cell.with(|n| *n), Ok(7));
}

#[test]
fn clean_lock_lets_the_closure_run() {
    let lock = Mutex::new(());
    let mut inner = UnsafeSyncCell::new(3);
    let access = lock.lock().map_err(|_| LockError::Poisoned);
    assert_eq!(with_mut_access(&mut inner, access, |n| { *n += 1; *n }), Ok(4));
    let access = lock.lock().map_err(|_| LockError::Poisoned);
    assert_eq!(with_access(&inner, access, |n| *n * 10), Ok(40));
    // the lock was released each time
    assert!(lock.try_lock().is_ok());
}

#[test]
fn lock_is_released_after_each_access() {
    let cell = SyncCell::new(1);
    assert_eq!(cell.with(|n| *n), Ok(1));
    // a second access would wait for ever had the first kept the lock
    assert_eq!(cell.with(|n| *n + 1), Ok(2));
}

#[test]
fn unchecked_sync_cell_behaves_like_the_checked_one() {
    let mut unchecked = UnsafeSyncCell::new(String::from("a"));
    let mut checked = SyncCell::new(String::from("a"));
    assert_eq!(Ok(unchecked.with(|s| s.len())), checked.with(|s| s.len()));
    let u = unchecked.with_mut(|s| {
        s.push('b');
        s.len()
    });
    let c = checked.with_mut(|s| {
        s.push('b');
        s.len()
    });
    assert_eq!(Ok(u), c);
    assert_eq!(u, 2);
    assert_eq!(unchecked.into_inner(), "ab");
    assert_eq!(checked.into_inner(), "ab");
}
