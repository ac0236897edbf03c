//! The background loop of a session, as a machine: each state names one task
//! for the thread that drives it, and each report of a finished task gives
//! the next state.
//!
//! The loop looks at the shutdown channel before every wait and again after
//! every wake, so a reload is never started once the signal has been seen,
//! and a raised signal is noticed after at most one bounded wait.

use vstd::prelude::*;
use crate::event::{Signal, Wake};

verus! {

/// The longest that one wait on the event stream may last, in seconds. It
/// bounds how long a shutdown can go unnoticed, and has nothing to do with
/// the debounce interval of the monitor.
pub const POLL_TIMEOUT_SECS: u64 = 1;

/// Where the background loop stands.
#[derive(Debug, Clone, Copy, PartialEq, Eq, Structural)]
pub enum Worker {
    /// About to look at the shutdown channel. `pending` holds when the wait
    /// just ended asked for a reload that has not been started yet.
    Polling { pending: bool },
    /// About to wait on the event stream.
    Waiting,
    /// About to run one reload and enqueue its result.
    Reloading,
    /// The loop is over. Terminal.
    Exited,
}

/// What the driving thread has to do in a state.
#[derive(Debug, Clone, Copy, PartialEq, Eq, Structural)]
pub enum Task {
    /// Look at the shutdown channel without blocking.
    CheckShutdown,
    /// Wait on the event stream, for at most so many seconds.
    AwaitEvent { timeout_secs: u64 },
    /// Run the reload strategy once and enqueue what it delivers.
    Reload,
    /// Leave the loop.
    Exit,
}

/// What the driving thread reports of a finished task.
#[derive(Debug, Clone, Copy, PartialEq, Eq, Structural)]
pub enum Report {
    /// The shutdown channel was looked at.
    Polled(Signal),
    /// A wait on the event stream ended.
    Woke(Wake),
    /// A reload ran. `succeeded` says whether it delivered a message rather
    /// than an error, `delivered` whether the result could be enqueued.
    Reloaded { succeeded: bool, delivered: bool },
}

impl Worker {
    /// The state a fresh loop starts in.
    pub open spec fn initial() -> Worker {
        Worker::Polling { pending: false }
    }

    /// The task of a state.
    pub open spec fn spec_task(self) -> Task {
        match self {
            Worker::Polling { .. } => Task::CheckShutdown,
            Worker::Waiting => Task::AwaitEvent { timeout_secs: POLL_TIMEOUT_SECS },
            Worker::Reloading => Task::Reload,
            Worker::Exited => Task::Exit,
        }
    }

    /// The state after `report`. A report that does not answer the task of
    /// the state changes nothing.
    pub open spec fn spec_next(self, report: Report) -> Worker {
        match (self, report) {
            (Worker::Polling { pending }, Report::Polled(signal)) => if signal.stops() {
                Worker::Exited
            } else if pending {
                Worker::Reloading
            } else {
                Worker::Waiting
            },
            (Worker::Waiting, Report::Woke(wake)) => Worker::Polling { pending: wake.triggers_reload() },
            (Worker::Reloading, Report::Reloaded { .. }) => Worker::Polling { pending: false },
            _ => self,
        }
    }

    /// The state after a sequence of reports, taken in order.
    pub open spec fn run(self, reports: Seq<Report>) -> Worker
        decreases reports.len(),
    {
        if reports.len() == 0 {
            self
        } else {
            self.run(reports.drop_last()).spec_next(reports.last())
        }
    }

    /// How many reloads were started in the course of `reports`.
    pub open spec fn reloads_started(self, reports: Seq<Report>) -> nat
        decreases reports.len(),
    {
        if reports.len() == 0 {
            0
        } else {
            let before = self.run(reports.drop_last());
            let now = before.spec_next(reports.last());
            let earlier = self.reloads_started(reports.drop_last());
            if now is Reloading && !(before is Reloading) {
                earlier + 1
            } else {
                earlier
            }
        }
    }

    /// How many waits in the course of `reports` ended with a create or a
    /// write.
    pub open spec fn triggers_seen(self, reports: Seq<Report>) -> nat
        decreases reports.len(),
    {
        if reports.len() == 0 {
            0
        } else {
            let before = self.run(reports.drop_last());
            let earlier = self.triggers_seen(reports.drop_last());
            if before is Waiting && (reports.last() matches Report::Woke(wake) && wake.triggers_reload()) {
                earlier + 1
            } else {
                earlier
            }
        }
    }

    /// One for a state that owes a reload, else zero.
    pub open spec fn owed(self) -> nat {
        if self == (Worker::Polling { pending: true }) {
            1
        } else {
            0
        }
    }

    /// A loop that has not polled, waited or reloaded yet.
    pub fn start() -> (worker: Worker)
        ensures
            worker == Worker::initial(),
    {
        Worker::Polling { pending: false }
    }

    /// What the driving thread has to do now.
    #[verifier::when_used_as_spec(spec_task)]
    pub fn task(self) -> (task: Task)
        ensures
            task == self.spec_task(),
    {
        match self {
            Worker::Polling { .. } => Task::CheckShutdown,
            Worker::Waiting => Task::AwaitEvent { timeout_secs: POLL_TIMEOUT_SECS },
            Worker::Reloading => Task::Reload,
            Worker::Exited => Task::Exit,
        }
    }

    /// The state after `report`.
    #[verifier::when_used_as_spec(spec_next)]
    pub fn next(self, report: Report) -> (after: Worker)
        ensures
            after == self.spec_next(report),
    {
        match self {
            Worker::Polling { pending } => match report {
                Report::Polled(signal) => if signal.stops() {
                    Worker::Exited
                } else if pending {
                    Worker::Reloading
                } else {
                    Worker::Waiting
                },
                _ => self,
            },
            Worker::Waiting => match report {
                Report::Woke(wake) => Worker::Polling { pending: wake.triggers_reload() },
                _ => self,
            },
            Worker::Reloading => match report {
                Report::Reloaded { .. } => Worker::Polling { pending: false },
                _ => self,
            },
            Worker::Exited => self,
        }
    }
}

/// A reload is started only from a poll that found no signal, for a wait that
/// ended with a create or a write; no other report starts one.
pub proof fn reload_needs_trigger_and_clear_poll(state: Worker, report: Report)
    requires
        state.next(report) is Reloading,
        !(state is Reloading),
    ensures
        state == (Worker::Polling { pending: true }),
        report matches Report::Polled(signal) && !signal.stops(),
{
}

/// A reload becomes owed only by a wait that ended with a create or a write.
pub proof fn pending_needs_trigger(state: Worker, report: Report)
    requires
        state.next(report).owed() == 1,
        state.owed() == 0,
    ensures
        state is Waiting,
        report matches Report::Woke(wake) && wake.triggers_reload(),
{
}

/// A reload that is owed is the next thing the loop does unless it is told
/// to stop: it does not wait again first, so results are enqueued in the
/// order in which their events were seen.
pub proof fn owed_reload_runs_before_next_wait(report: Report)
    ensures
        ({
            let after = (Worker::Polling { pending: true }).next(report);
            after is Reloading || after is Exited || after == (Worker::Polling { pending: true })
        }),
        (Worker::Polling { pending: true }).task() == Task::CheckShutdown,
{
}

/// A wait that ends with anything but a create or a write (a remove, a
/// rename, an error, a timeout, a lost stream) leads to no reload: the loop
/// polls and, unless told to stop, waits again.
pub proof fn other_wakes_are_ignored(wake: Wake, signal: Signal)
    requires
        !wake.triggers_reload(),
    ensures
        Worker::Waiting.next(Report::Woke(wake)) == (Worker::Polling { pending: false }),
        Worker::Waiting.next(Report::Woke(wake)).next(Report::Polled(signal)) == if signal.stops() {
            Worker::Exited
        } else {
            Worker::Waiting
        },
{
}

/// A wait that ends with a create or a write leads, unless the loop is told
/// to stop, to exactly one reload, after which the loop waits again.
pub proof fn trigger_reloads_once(
    wake: Wake,
    first: Signal,
    succeeded: bool,
    delivered: bool,
    second: Signal,
)
    requires
        wake.triggers_reload(),
        !first.stops(),
        !second.stops(),
    ensures
        Worker::Waiting.next(Report::Woke(wake)).task() == Task::CheckShutdown,
        Worker::Waiting.next(Report::Woke(wake)).next(Report::Polled(first)).task() == Task::Reload,
        Worker::Waiting.next(Report::Woke(wake)).next(Report::Polled(first)).next(
            Report::Reloaded { succeeded, delivered },
        ).next(Report::Polled(second)) == Worker::Waiting,
{
}

/// Over any course of reports from the start, every reload started is owed
/// to one wait that ended with a create or a write: while the loop runs, the
/// reloads started and the one still owed add up to those waits, and a loop
/// that was stopped has dropped at most the one it still owed.
pub proof fn reloads_match_triggers(reports: Seq<Report>)
    ensures
        Worker::initial().reloads_started(reports) <= Worker::initial().triggers_seen(reports),
        Worker::initial().triggers_seen(reports) <= Worker::initial().reloads_started(reports) + 1,
        !(Worker::initial().run(reports) is Exited) ==> Worker::initial().triggers_seen(reports)
            == Worker::initial().reloads_started(reports) + Worker::initial().run(reports).owed(),
    decreases reports.len(),
{
    if reports.len() > 0 {
        reloads_match_triggers(reports.drop_last());
    }
}

/// Once the loop is over nothing moves it: no report is processed, and its
/// task stays to leave.
pub proof fn exited_is_final(reports: Seq<Report>)
    ensures
        Worker::Exited.run(reports) == Worker::Exited,
        Worker::Exited.run(reports).task() == Task::Exit,
        Worker::Exited.reloads_started(reports) == 0,
    decreases reports.len(),
{
    if reports.len() > 0 {
        exited_is_final(reports.drop_last());
    }
}

/// The report that a driving thread gives of the task of `state` once the
/// shutdown signal has been raised: every poll finds it; a wait ends with
/// `wake`, a reload as `succeeded` and `delivered` say.
pub open spec fn report_under_shutdown(state: Worker, wake: Wake, succeeded: bool, delivered: bool) -> Report {
    match state {
        Worker::Waiting => Report::Woke(wake),
        Worker::Reloading => Report::Reloaded { succeeded, delivered },
        _ => Report::Polled(Signal::Raised),
    }
}

/// With the shutdown signal raised, the loop is over after at most two
/// tasks, whatever state it was in and whatever ends its wait: at most one
/// wait, which lasts no longer than `POLL_TIMEOUT_SECS`, and no new reload.
pub proof fn shutdown_is_noticed_within_one_wait(state: Worker, wake: Wake, succeeded: bool, delivered: bool)
    ensures
        ({
            let first = state.next(report_under_shutdown(state, wake, succeeded, delivered));
            let second = first.next(report_under_shutdown(first, wake, succeeded, delivered));
            &&& second is Exited
            &&& !(first is Reloading)
            &&& !(first is Waiting)
        }),
        state.task() matches Task::AwaitEvent { timeout_secs } ==> timeout_secs == POLL_TIMEOUT_SECS,
{
}

/// How a reload ended does not matter to the loop: after a failed reload, or
/// one whose result nobody was left to receive, it goes on exactly as after a
/// successful one, and is not over.
pub proof fn reload_outcome_is_not_fatal(succeeded: bool, delivered: bool)
    ensures
        Worker::Reloading.next(Report::Reloaded { succeeded, delivered }) == (Worker::Polling { pending: false }),
        !(Worker::Reloading.next(Report::Reloaded { succeeded, delivered }) is Exited),
{
}

} // verus!
