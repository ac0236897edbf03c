use shader_watch::event::{EventKind, Signal, Wake};
use shader_watch::worker::{Report, Task, Worker, POLL_TIMEOUT_SECS};

const DONE: Report = Report::Reloaded { succeeded: true, delivered: true };

fn all_states() -> Vec<Worker> {
    vec![
        Worker::Polling { pending: false },
        Worker::Polling { pending: true },
        Worker::Waiting,
        Worker::Reloading,
        Worker::Exited,
    ]
}

fn all_wakes() -> Vec<Wake> {
    vec![
        Wake::Event(EventKind::NoticeWrite),
        Wake::Event(EventKind::NoticeRemove),
        Wake::Event(EventKind::Create),
        Wake::Event(EventKind::Write),
        Wake::Event(EventKind::Chmod),
        Wake::Event(EventKind::Remove),
        Wake::Event(EventKind::Rename),
        Wake::Event(EventKind::Rescan),
        Wake::Event(EventKind::Error),
        Wake::Timeout,
        Wake::Disconnected,
    ]
}

#[test]
fn poll_timeout_is_one_second() {
    assert_eq!(POLL_TIMEOUT_SECS, 1);
    assert_eq!(Worker::Waiting.task(), Task::AwaitEvent { timeout_secs: 1 });
}

#[test]
fn a_fresh_loop_polls_first() {
    assert_eq!(Worker::start(), Worker::Polling { pending: false });
    assert_eq!(Worker::start().task(), Task::CheckShutdown);
}

#[test]
fn each_state_has_its_task() {
    assert_eq!(Worker::Polling { pending: false }.task(), Task::CheckShutdown);
    assert_eq!(Worker::Polling { pending: true }.task(), Task::CheckShutdown);
    assert_eq!(Worker::Waiting.task(), Task::AwaitEvent { timeout_secs: POLL_TIMEOUT_SECS });
    assert_eq!(Worker::Reloading.task(), Task::Reload);
    assert_eq!(Worker::Exited.task(), Task::Exit);
}

#[test]
fn a_clear_poll_leads_to_a_wait() {
    assert_eq!(Worker::start().next(Report::Polled(Signal::Absent)), Worker::Waiting);
    assert_eq!(Worker::start().next(Report::Polled(Signal::Disconnected)), Worker::Waiting);
}

#[test]
fn a_raised_signal_exits_at_once() {
    assert_eq!(Worker::start().next(Report::Polled(Signal::Raised)), Worker::Exited);
    assert_eq!(Worker::Polling { pending: true }.next(Report::Polled(Signal::Raised)), Worker::Exited);
}

#[test]
fn a_write_is_followed_by_a_poll_and_one_reload() {
    let woke = Worker::Waiting.next(Report::Woke(Wake::Event(EventKind::Write)));
    assert_eq!(woke, Worker::Polling { pending: true });
    let polled = woke.next(Report::Polled(Signal::Absent));
    assert_eq!(polled.task(), Task::Reload);
    let reloaded = polled.next(DONE);
    assert_eq!(reloaded, Worker::Polling { pending: false });
    assert_eq!(reloaded.next(Report::Polled(Signal::Absent)), Worker::Waiting);
}

#[test]
fn a_create_is_followed_by_a_poll_and_one_reload() {
    let woke = Worker::Waiting.next(Report::Woke(Wake::Event(EventKind::Create)));
    assert_eq!(woke.next(Report::Polled(Signal::Absent)), Worker::Reloading);
}

#[test]
fn other_wakes_lead_back_to_waiting_without_a_reload() {
    for wake in all_wakes() {
        if matches!(wake, Wake::Event(EventKind::Create) | Wake::Event(EventKind::Write)) {
            continue;
        }
        let woke = Worker::Waiting.next(Report::Woke(wake));
        assert_eq!(woke, Worker::Polling { pending: false });
        assert_eq!(woke.next(Report::Polled(Signal::Absent)), Worker::Waiting);
    }
}

#[test]
fn a_signal_seen_after_the_wake_cancels_the_reload() {
    let woke = Worker::Waiting.next(Report::Woke(Wake::Event(EventKind::Write)));
    assert_eq!(woke.next(Report::Polled(Signal::Raised)), Worker::Exited);
}

#[test]
fn a_failed_reload_keeps_the_loop_going() {
    for succeeded in [false, true] {
        for delivered in [false, true] {
            let after = Worker::Reloading.next(Report::Reloaded { succeeded, delivered });
            assert_eq!(after, Worker::Polling { pending: false });
        }
    }
}

#[test]
fn a_report_of_another_task_changes_nothing() {
    let polled = Report::Polled(Signal::Raised);
    let woke = Report::Woke(Wake::Event(EventKind::Write));
    assert_eq!(Worker::Waiting.next(polled), Worker::Waiting);
    assert_eq!(Worker::Waiting.next(DONE), Worker::Waiting);
    assert_eq!(Worker::Reloading.next(polled), Worker::Reloading);
    assert_eq!(Worker::Reloading.next(woke), Worker::Reloading);
    assert_eq!(Worker::start().next(woke), Worker::start());
    assert_eq!(Worker::Polling { pending: true }.next(DONE), Worker::Polling { pending: true });
}

#[test]
fn an_exited_loop_stays_exited() {
    for wake in all_wakes() {
        assert_eq!(Worker::Exited.next(Report::Woke(wake)), Worker::Exited);
    }
    for signal in [Signal::Raised, Signal::Absent, Signal::Disconnected] {
        assert_eq!(Worker::Exited.next(Report::Polled(signal)), Worker::Exited);
    }
    assert_eq!(Worker::Exited.next(DONE), Worker::Exited);
}

#[test]
fn a_raised_signal_ends_the_loop_within_one_wait_from_any_state() {
    for state in all_states() {
        for wake in all_wakes() {
            let mut worker = state;
            let mut waits = 0;
            let mut reloads_begun = 0;
            let mut tasks = 0;
            while worker != Worker::Exited {
                tasks += 1;
                let report = match worker.task() {
                    Task::CheckShutdown => Report::Polled(Signal::Raised),
                    Task::AwaitEvent { timeout_secs } => {
                        assert_eq!(timeout_secs, 1);
                        waits += 1;
                        Report::Woke(wake)
                    }
                    Task::Reload => DONE,
                    Task::Exit => unreachable!(),
                };
                let before = worker;
                worker = worker.next(report);
                if worker == Worker::Reloading && before != Worker::Reloading {
                    reloads_begun += 1;
                }
            }
            assert!(tasks <= 2);
            assert!(waits <= 1);
            assert_eq!(reloads_begun, 0);
        }
    }
}

#[test]
fn reloads_are_counted_by_create_and_write_wakes() {
    let wakes = vec![
        Wake::Timeout,
        Wake::Event(EventKind::NoticeWrite),
        Wake::Event(EventKind::Write),
        Wake::Event(EventKind::Remove),
        Wake::Event(EventKind::Create),
        Wake::Event(EventKind::Rename),
        Wake::Event(EventKind::Write),
        Wake::Disconnected,
    ];
    let mut pending = wakes.into_iter();
    let mut worker = Worker::start();
    let mut reloads = 0;
    loop {
        let report = match worker.task() {
            Task::CheckShutdown => Report::Polled(Signal::Absent),
            Task::AwaitEvent { .. } => match pending.next() {
                Some(wake) => Report::Woke(wake),
                None => break,
            },
            Task::Reload => {
                reloads += 1;
                Report::Reloaded { succeeded: reloads % 2 == 0, delivered: true }
            }
            Task::Exit => unreachable!(),
        };
        worker = worker.next(report);
    }
    assert_eq!(reloads, 3);
}
