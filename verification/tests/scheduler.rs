use rustos::sync::scheduler::{put_back, Scheduler as RunQueue};
use rustos::thread::scheduler::{Mutex, Scheduler};

#[test]
fn run_queue_is_fifo() {
    let mut q: RunQueue<u32> = RunQueue::new();
    assert_eq!(q.yield_cur(), None);
    q.spawn(1);
    q.spawn(2);
    q.spawn(3);
    assert_eq!(q.yield_cur(), Some(1));
    assert_eq!(q.exit(), Some(2));
    assert_eq!(q.yield_cur(), Some(3));
    assert_eq!(q.exit(), None);
}

#[test]
fn yield_then_put_back_rotates() {
    let mut q: RunQueue<u32> = RunQueue::new();
    q.spawn(1);
    q.spawn(2);
    // thread 0 runs and yields to 1, then is put back
    let next = q.yield_cur();
    assert_eq!(next, Some(1));
    put_back(Some(0), &mut q);
    assert_eq!(q.yield_cur(), Some(2));
    put_back(Some(1), &mut q);
    assert_eq!(q.yield_cur(), Some(0));
    assert_eq!(q.yield_cur(), Some(1));
    assert_eq!(q.yield_cur(), None);
}

#[test]
fn put_back_none_changes_nothing() {
    let mut q: RunQueue<u32> = RunQueue::new();
    q.spawn(5);
    put_back(None, &mut q);
    assert_eq!(q.exit(), Some(5));
    assert_eq!(q.exit(), None);
}

#[test]
fn new_scheduler_starts_on_idle() {
    let s = Scheduler::new(0u32);
    assert_eq!(*s.bootstrap_start(), 0);
}

#[test]
fn switch_with_one_thread_does_nothing() {
    let mut s = Scheduler::new(0u32);
    assert!(!s.switch());
    assert_eq!(*s.bootstrap_start(), 0);
}

#[test]
fn switch_swaps_front_and_back() {
    let mut s = Scheduler::new(0u32);
    s.schedule_tcb(1);
    s.schedule_tcb(2);
    s.schedule_tcb(3);
    assert!(s.switch());
    assert_eq!(*s.bootstrap_start(), 3);
    // queue is now [3, 1, 2, 0]; a second switch restores [0, 1, 2, 3]
    assert!(s.switch());
    assert_eq!(*s.bootstrap_start(), 0);
    assert_eq!(s.do_and_unschedule(), 0);
    assert_eq!(*s.bootstrap_start(), 3);
}

#[test]
fn unschedule_gives_processor_to_back() {
    let mut s = Scheduler::new(0u32);
    s.schedule_tcb(1);
    s.schedule_tcb(2);
    assert_eq!(s.do_and_unschedule(), 0);
    assert_eq!(*s.bootstrap_start(), 2);
    assert_eq!(s.do_and_unschedule(), 2);
    assert_eq!(*s.bootstrap_start(), 1);
}

#[test]
fn try_lock_takes_free_lock_once() {
    let mut m: Mutex<u32> = Mutex::new();
    assert!(m.try_lock());
    assert!(!m.try_lock());
}

#[test]
fn lock_blocks_when_taken_and_unlock_wakes_in_order() {
    let mut s = Scheduler::new(0u32);
    s.schedule_tcb(1);
    s.schedule_tcb(2);
    let mut m: Mutex<u32> = Mutex::new();
    // thread 0 takes the lock
    assert!(m.lock(&mut s));
    assert_eq!(*s.bootstrap_start(), 0);
    // thread 0 switches away; thread 2 runs and blocks
    assert!(s.switch());
    assert_eq!(*s.bootstrap_start(), 2);
    assert!(!m.lock(&mut s));
    // 2 sleeps; 0 (then at the back) now runs
    assert_eq!(*s.bootstrap_start(), 0);
    // thread 0 lets go: 2 is runnable again at the back
    m.unlock(&mut s);
    assert!(m.try_lock());
    m.unlock(&mut s);
    assert_eq!(s.do_and_unschedule(), 0);
    assert_eq!(*s.bootstrap_start(), 2);
}

#[test]
fn unlock_without_sleepers_frees_lock() {
    let mut s = Scheduler::new(7u32);
    let mut m: Mutex<u32> = Mutex::new();
    assert!(m.lock(&mut s));
    m.unlock(&mut s);
    assert!(m.lock(&mut s));
    m.destroy();
    assert!(!m.try_lock());
    assert_eq!(*s.bootstrap_start(), 7);
}

#[test]
fn sleepers_wake_first_in_first_out() {
    let mut s = Scheduler::new(0u32);
    s.schedule_tcb(1);
    s.schedule_tcb(2);
    let mut m: Mutex<u32> = Mutex::new();
    assert!(m.try_lock());
    // running thread 0 blocks: queue becomes [2, 1], sleepers [0]
    assert!(!m.lock(&mut s));
    assert_eq!(*s.bootstrap_start(), 2);
    // running thread 2 blocks: queue becomes [1], sleepers [0, 2]
    s.schedule_tcb(3);
    assert!(!m.lock(&mut s));
    assert_eq!(*s.bootstrap_start(), 3);
    // unlocking wakes 0 first, then 2
    m.unlock(&mut s);
    assert!(m.try_lock());
    m.unlock(&mut s);
    // queue is [3, 1, 0, 2]
    assert_eq!(s.do_and_unschedule(), 3);
    assert_eq!(*s.bootstrap_start(), 2);
    assert_eq!(s.do_and_unschedule(), 2);
    assert_eq!(*s.bootstrap_start(), 0);
    assert_eq!(s.do_and_unschedule(), 0);
    assert_eq!(*s.bootstrap_start(), 1);
}

#[test]
fn len_and_is_locked_report_state() {
    let mut s = Scheduler::new(0u32);
    assert_eq!(s.len(), 1);
    s.schedule_tcb(1);
    assert_eq!(s.len(), 2);
    let mut m: Mutex<u32> = Mutex::new();
    assert!(!m.is_locked());
    assert!(m.lock(&mut s));
    assert!(m.is_locked());
    assert!(!m.lock(&mut s));
    assert_eq!(s.len(), 1);
    m.unlock(&mut s);
    assert!(!m.is_locked());
    assert_eq!(s.len(), 2);
}

#[test]
fn running_thread_never_queued_after_yields() {
    let mut q: RunQueue<u32> = RunQueue::new();
    q.spawn(1);
    q.spawn(2);
    let mut running = 0u32;
    let mut seen = Vec::new();
    for _ in 0..6 {
        let next = q.yield_cur().unwrap();
        put_back(Some(running), &mut q);
        running = next;
        seen.push(running);
    }
    assert_eq!(seen, vec![1, 2, 0, 1, 2, 0]);
}
