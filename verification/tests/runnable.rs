use async_task_ffi::runnable::{boxes_future, cancel_on_drop, notify_on_drop, LARGE_FUTURE_SIZE};
use async_task_ffi::state::{AWAITER, CLOSED, COMPLETED, SCHEDULED};
use async_task_ffi::Runnable;

#[test]
fn raw_round_trip() {
    let r: Runnable = Runnable::from_raw(0x1000);
    assert_eq!(r.into_raw(), 0x1000);
    let r: Runnable<usize> = Runnable::from_raw(usize::MAX);
    let raw = r.into_raw();
    let again: Runnable<usize> = Runnable::from_raw(raw);
    assert_eq!(again.into_raw(), usize::MAX);
}

#[test]
fn cancel_closes_open_tasks() {
    assert_eq!(cancel_on_drop(0), Some(CLOSED));
    assert_eq!(cancel_on_drop(SCHEDULED), Some(SCHEDULED | CLOSED));
    assert_eq!(
        cancel_on_drop(SCHEDULED | AWAITER | 0x100),
        Some(SCHEDULED | AWAITER | 0x100 | CLOSED)
    );
}

#[test]
fn cancel_leaves_finished_tasks() {
    assert_eq!(cancel_on_drop(COMPLETED), None);
    assert_eq!(cancel_on_drop(CLOSED), None);
    assert_eq!(cancel_on_drop(COMPLETED | CLOSED | SCHEDULED), None);
}

#[test]
fn cancel_twice_does_nothing() {
    for state in 0..512usize {
        if let Some(next) = cancel_on_drop(state) {
            assert_eq!(next & !CLOSED, state & !CLOSED);
            assert_eq!(cancel_on_drop(next), None);
        }
    }
}

#[test]
fn drop_leaves_task_unscheduled_and_cancelled() {
    for state in 0..512usize {
        let closed = cancel_on_drop(state).unwrap_or(state);
        let after = closed & !SCHEDULED;
        assert!(after & (COMPLETED | CLOSED) != 0);
        assert_eq!(after & SCHEDULED, 0);
        assert_eq!(after & AWAITER, state & AWAITER);
    }
}

#[test]
fn notify_only_with_awaiter() {
    assert!(notify_on_drop(AWAITER));
    assert!(notify_on_drop(AWAITER | SCHEDULED | CLOSED));
    assert!(!notify_on_drop(0));
    assert!(!notify_on_drop(SCHEDULED | COMPLETED | CLOSED));
}

#[test]
fn large_futures_are_boxed() {
    assert_eq!(LARGE_FUTURE_SIZE, 2048);
    assert!(!boxes_future::<u64>());
    assert!(!boxes_future::<[u8; 2047]>());
    assert!(boxes_future::<[u8; 2048]>());
    assert!(boxes_future::<[u8; 4096]>());
    assert!(!boxes_future::<()>());
}
