use ecmascript_futex::condvar_table::{
    entry_for_ptr, finish_wait, notify_all, notify_many, wait, NotifyAction, NotifyPlan,
    WaitMetadata, TABLE_SIZE,
};
use ecmascript_futex::FutexError;

fn meta(address: usize, waiting_count: usize) -> WaitMetadata {
    WaitMetadata { address, waiting_count }
}

#[test]
fn entry_for_ptr_folds_address_bits() {
    assert_eq!(entry_for_ptr(0), 0);
    assert_eq!(entry_for_ptr(4), 1);
    assert_eq!(entry_for_ptr(8), 2);
    assert_eq!(entry_for_ptr(0x1000), 16);
    assert_eq!(entry_for_ptr(0x7f00_1234_5678), 232);
    assert!((entry_for_ptr(usize::MAX) as usize) < TABLE_SIZE);
}

#[test]
fn entry_for_ptr_is_deterministic() {
    let a = entry_for_ptr(0x5555_1230);
    let b = entry_for_ptr(0x5555_1230);
    assert_eq!(a, b);
}

#[test]
fn new_metadata_is_idle() {
    assert_eq!(WaitMetadata::new(), meta(0, 0));
}

#[test]
fn wait_on_mismatch_returns_not_equal_unchanged() {
    let mut m = meta(0x40, 3);
    assert_eq!(wait(&mut m, 0x80, false), Err(FutexError::NotEqual));
    assert_eq!(m, meta(0x40, 3));
    let mut idle = WaitMetadata::new();
    assert_eq!(wait(&mut idle, 0x80, false), Err(FutexError::NotEqual));
    assert_eq!(idle, WaitMetadata::new());
}

#[test]
fn first_waiter_sets_address() {
    let mut m = WaitMetadata::new();
    assert_eq!(wait(&mut m, 0x1000, true), Ok(()));
    assert_eq!(m, meta(0x1000, 1));
}

#[test]
fn same_address_waiters_keep_address() {
    let mut m = meta(0x1000, 1);
    assert_eq!(wait(&mut m, 0x1000, true), Ok(()));
    assert_eq!(m, meta(0x1000, 2));
}

#[test]
fn mixed_address_waiters_clear_address() {
    let mut m = meta(0x1000, 1);
    assert_eq!(wait(&mut m, 0x2000, true), Ok(()));
    assert_eq!(m, meta(0, 2));
    assert_eq!(wait(&mut m, 0x1000, true), Ok(()));
    assert_eq!(m, meta(0, 3));
}

#[test]
fn stale_address_is_replaced_when_idle() {
    let mut m = meta(0x1000, 0);
    assert_eq!(wait(&mut m, 0x3000, true), Ok(()));
    assert_eq!(m, meta(0x3000, 1));
}

#[test]
fn finish_wait_reports_wakeup_or_timeout() {
    let mut m = meta(0x1000, 2);
    assert_eq!(finish_wait(&mut m, false), Ok(()));
    assert_eq!(m, meta(0x1000, 1));
    assert_eq!(finish_wait(&mut m, true), Err(FutexError::Timeout));
    assert_eq!(m, meta(0x1000, 0));
}

#[test]
fn wait_then_finish_restores_count() {
    let mut m = meta(0x1000, 4);
    assert_eq!(wait(&mut m, 0x1000, true), Ok(()));
    assert_eq!(finish_wait(&mut m, false), Ok(()));
    assert_eq!(m, meta(0x1000, 4));
    let mut n = meta(0x1000, 4);
    assert_eq!(wait(&mut n, 0x2000, true), Ok(()));
    assert_eq!(finish_wait(&mut n, false), Ok(()));
    assert_eq!(n.waiting_count, 4);
    assert_eq!(n.address, 0);
}

#[test]
fn notify_without_waiters_wakes_nobody() {
    let idle = WaitMetadata::new();
    let nothing = NotifyPlan { action: NotifyAction::Skip, woken: 0 };
    assert_eq!(notify_many(0x1000, &idle, 1), nothing);
    assert_eq!(notify_all(0x1000, &idle), nothing);
    assert_eq!(notify_many(0x1000, &meta(0x1000, 0), 7), nothing);
}

#[test]
fn notify_null_address_wakes_nobody() {
    let busy = meta(0x1000, 5);
    let nothing = NotifyPlan { action: NotifyAction::Skip, woken: 0 };
    assert_eq!(notify_all(0, &busy), nothing);
    assert_eq!(notify_many(0, &busy, 2), nothing);
}

#[test]
fn notify_all_wakes_the_whole_entry() {
    assert_eq!(
        notify_all(0x1000, &meta(0, 64)),
        NotifyPlan { action: NotifyAction::WakeAll, woken: 64 }
    );
    assert_eq!(
        notify_all(0x1000, &meta(0x1000, 1)),
        NotifyPlan { action: NotifyAction::WakeAll, woken: 1 }
    );
}

#[test]
fn notify_many_wakes_one_by_one_when_all_share_the_address() {
    assert_eq!(
        notify_many(0x1000, &meta(0x1000, 3), 1),
        NotifyPlan { action: NotifyAction::WakeOne { times: 1 }, woken: 1 }
    );
    assert_eq!(
        notify_many(0x1000, &meta(0x1000, 3), 3),
        NotifyPlan { action: NotifyAction::WakeOne { times: 3 }, woken: 3 }
    );
}

#[test]
fn notify_many_wakes_everyone_when_asked_for_more() {
    assert_eq!(
        notify_many(0x1000, &meta(0x1000, 3), 4),
        NotifyPlan { action: NotifyAction::WakeAll, woken: 3 }
    );
}

#[test]
fn notify_many_wakes_everyone_when_addresses_are_mixed() {
    assert_eq!(
        notify_many(0x1000, &meta(0, 3), 1),
        NotifyPlan { action: NotifyAction::WakeAll, woken: 1 }
    );
    assert_eq!(
        notify_many(0x1000, &meta(0, 3), 5),
        NotifyPlan { action: NotifyAction::WakeAll, woken: 3 }
    );
}

#[test]
fn notify_many_of_zero_wakes_nobody() {
    let nothing = NotifyPlan { action: NotifyAction::Skip, woken: 0 };
    assert_eq!(notify_many(0x1000, &meta(0x1000, 2), 0), nothing);
    assert_eq!(notify_many(0x1000, &meta(0, 3), 0), nothing);
}

#[test]
fn notify_many_never_reports_more_than_asked() {
    for count in 0..6usize {
        for waiting in 0..6usize {
            for address in [0usize, 0x1000, 0x2000] {
                let plan = notify_many(0x1000, &meta(address, waiting), count);
                assert!(plan.woken <= count);
            }
        }
    }
}

#[test]
fn notify_wakes_waiters_of_another_address_in_the_entry() {
    assert_eq!(entry_for_ptr(0x40), entry_for_ptr(0x1000));
    let elsewhere = meta(0x40, 3);
    assert_eq!(
        notify_all(0x1000, &elsewhere),
        NotifyPlan { action: NotifyAction::WakeAll, woken: 3 }
    );
    assert_eq!(
        notify_many(0x1000, &elsewhere, 1),
        NotifyPlan { action: NotifyAction::WakeOne { times: 1 }, woken: 1 }
    );
}
