use fable_async::monitor::{exit, lock, try_init_and_get_locks};

#[test]
fn enter_and_exit() {
    let mut locks = try_init_and_get_locks();
    assert!(!locks.is_held(16));
    assert!(locks.try_enter(16));
    assert!(locks.is_held(16));
    assert!(!locks.try_enter(16));
    assert!(locks.is_held(16));
    assert!(locks.try_enter(32));
    exit(&mut locks, 16);
    assert!(!locks.is_held(16));
    assert!(locks.is_held(32));
    assert!(locks.try_enter(16));
}

#[test]
fn lock_runs_and_releases() {
    let mut locks = try_init_and_get_locks();
    assert!(locks.try_enter(8));
    let value = lock(&mut locks, 64, |held| {
        assert!(held.is_held(64));
        assert!(held.is_held(8));
        41 + 1
    });
    assert_eq!(value, 42);
    assert!(!locks.is_held(64));
    assert!(locks.is_held(8));
    assert!(locks.try_enter(64));
}

#[test]
fn held_monitor_refuses_every_entry_until_left() {
    let mut locks = try_init_and_get_locks();
    assert!(locks.try_enter(5));
    for _ in 0..3 {
        assert!(!locks.try_enter(5));
        assert!(locks.try_enter(6));
        exit(&mut locks, 6);
    }
    assert!(locks.is_held(5));
    exit(&mut locks, 5);
    assert!(locks.try_enter(5));
}
