use touchpilot::hook::focus_restore::{RestoreRequest, WindowIdentity};
use touchpilot::hook::windows::restore_worker::{newest, RestoreWait, WaitStep, WorkerCounters};

fn request(sequence: u64) -> RestoreRequest {
    let window = WindowIdentity {
        handle: 1,
        process: 2,
        thread: 3,
    };
    RestoreRequest {
        origin: window,
        control: None,
        touched: window,
        input_time: 9,
        generation: 0,
        sequence,
    }
}

#[test]
fn worker_keeps_only_the_newest_request() {
    assert_eq!(newest(request(1), &vec![]), request(1));
    assert_eq!(newest(request(1), &vec![request(2), request(3)]), request(3));
}

#[test]
fn worker_sleeps_the_whole_delay_in_slices_then_restores() {
    let mut wait = RestoreWait::new(request(4), 25);
    assert_eq!(wait.next(4), WaitStep::Sleep(10));
    assert_eq!(wait.next(4), WaitStep::Sleep(10));
    assert_eq!(wait.next(4), WaitStep::Sleep(5));
    assert_eq!(wait.next(4), WaitStep::Restore);
    // No delay: restore at once.
    let mut wait = RestoreWait::new(request(4), 0);
    assert_eq!(wait.next(4), WaitStep::Restore);
}

#[test]
fn superseded_request_is_skipped_or_cut_short() {
    let mut wait = RestoreWait::new(request(4), 120);
    assert_eq!(wait.next(5), WaitStep::Skip);
    // Superseded during the wait: the restoration steps turn it down.
    let mut wait = RestoreWait::new(request(4), 120);
    assert_eq!(wait.next(4), WaitStep::Sleep(10));
    assert_eq!(wait.next(5), WaitStep::Restore);
}

#[test]
fn worker_counters_never_decrease() {
    let mut counters = WorkerCounters {
        completed: 0,
        resolved: 0,
    };
    counters.finish(&request(7), false);
    assert_eq!(counters, WorkerCounters { completed: 7, resolved: 0 });
    counters.finish(&request(9), true);
    assert_eq!(counters, WorkerCounters { completed: 9, resolved: 9 });
    counters.finish(&request(8), true);
    assert_eq!(counters, WorkerCounters { completed: 9, resolved: 9 });
}
