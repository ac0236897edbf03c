//! The owner's side of a session, as a machine: setting the watch up on the
//! constructing thread, holding it, and tearing it down when the handle goes.
//!
//! Each state names one command for the driver; the driver carries it out and
//! reports back. The native monitor, the threads and the channels stay with
//! the driver.

use vstd::prelude::*;
use std::time::Duration;
use crate::error::WatchError;
use crate::target::{texts, watch_dirs, watch_set, SrcPath};

verus! {

/// The lifecycle of a session.
#[derive(Debug, Clone, Copy, PartialEq, Eq, Structural)]
pub enum Phase {
    /// Being constructed: the monitor is set up and the initial reload runs,
    /// all on the constructing thread.
    Starting,
    /// The background loop runs.
    Watching,
    /// The handle was dropped: the loop is told to stop and waited for.
    ShuttingDown,
    /// Over. Only now does the driver let go of the native watcher.
    Stopped,
}

/// Where the owner stands within the lifecycle.
#[derive(Debug, Clone, Copy, PartialEq, Eq, Structural)]
pub enum Stage {
    /// The native monitor is to be created.
    CreatingWatcher,
    /// The directory with this index in the watch set is to be subscribed.
    Subscribing(usize),
    /// Every directory is subscribed; the initial reload is to run.
    InitialReload,
    /// The initial result is enqueued; the background loop is to be started.
    Spawning,
    /// The background loop runs and the handle is alive.
    Watching,
    /// The handle is gone; the shutdown signal is to be sent.
    Signalling,
    /// The signal was sent; the background thread is to be waited for.
    Joining,
    /// Nothing is left to do.
    Stopped,
}

/// How far a subscription reaches below its directory.
#[derive(Debug, Clone, Copy, PartialEq, Eq, Structural)]
pub enum WatchMode {
    /// The directory and the files in it.
    NonRecursive,
    /// The directory and everything below it. A session never asks for this.
    Recursive,
}

/// What the driver has to do in a stage.
#[derive(Debug, PartialEq, Eq)]
pub enum Command {
    /// Create the native monitor, with this debounce interval.
    CreateWatcher(Duration),
    /// Subscribe this directory, in this mode.
    Watch(String, WatchMode),
    /// Make the reload strategy on this thread, which runs the initial
    /// reload, and enqueue the result.
    InitialReload,
    /// Start the background loop.
    Spawn,
    /// Nothing, until the handle is dropped.
    Hold,
    /// Send the shutdown signal.
    SignalShutdown,
    /// Wait for the background thread to end, if there is one.
    Join,
    /// Let go of the native watcher, if there is one. Nothing follows.
    Release,
}

/// A session as the contracts see it.
pub struct SessionView {
    /// The directory watch set, in subscription order.
    pub dirs: Seq<String>,
    /// The debounce interval that the monitor is created with.
    pub delay: Duration,
    /// Where the owner stands.
    pub stage: Stage,
}

impl SessionView {
    /// There is a directory to subscribe, and a subscription in progress is
    /// of one of them.
    pub open spec fn wf(self) -> bool {
        &&& 0 < self.dirs.len() <= usize::MAX
        &&& self.stage matches Stage::Subscribing(i) ==> i < self.dirs.len()
    }

    /// The phase that the stage belongs to.
    pub open spec fn phase(self) -> Phase {
        match self.stage {
            Stage::CreatingWatcher | Stage::Subscribing(_) | Stage::InitialReload | Stage::Spawning => Phase::Starting,
            Stage::Watching => Phase::Watching,
            Stage::Signalling | Stage::Joining => Phase::ShuttingDown,
            Stage::Stopped => Phase::Stopped,
        }
    }

    /// The command of the stage.
    pub open spec fn command(self) -> Command {
        match self.stage {
            Stage::CreatingWatcher => Command::CreateWatcher(self.delay),
            Stage::Subscribing(i) => Command::Watch(self.dirs[i as int], WatchMode::NonRecursive),
            Stage::InitialReload => Command::InitialReload,
            Stage::Spawning => Command::Spawn,
            Stage::Watching => Command::Hold,
            Stage::Signalling => Command::SignalShutdown,
            Stage::Joining => Command::Join,
            Stage::Stopped => Command::Release,
        }
    }

    /// Whether the command of this stage is one that the native monitor
    /// answers, and can refuse.
    pub open spec fn asks_monitor(self) -> bool {
        self.stage is CreatingWatcher || self.stage is Subscribing
    }

    /// This session, moved to `stage`.
    pub open spec fn at(self, stage: Stage) -> SessionView {
        SessionView { stage, ..self }
    }

    /// The stage that follows when the monitor has done what was asked.
    pub open spec fn subscribed_next(self) -> Stage {
        match self.stage {
            Stage::CreatingWatcher => Stage::Subscribing(0),
            Stage::Subscribing(i) => if i + 1 < self.dirs.len() {
                Stage::Subscribing((i + 1) as usize)
            } else {
                Stage::InitialReload
            },
            other => other,
        }
    }

    /// After the monitor's answer to the command of this stage. Success moves
    /// on to the next subscription and, after the last, to the initial
    /// reload; a refusal ends the session at once. In a stage that asks the
    /// monitor nothing, nothing changes.
    pub open spec fn after_monitor(self, accepted: bool) -> SessionView {
        if !self.asks_monitor() {
            self
        } else if accepted {
            self.at(self.subscribed_next())
        } else {
            self.at(Stage::Stopped)
        }
    }

    /// After the driver has carried out a command that the monitor has no
    /// part in. Whether the attempt succeeded is not asked: an initial reload
    /// that delivered an error, a signal that nobody was left to receive and
    /// a thread that ended in a panic all count as done.
    pub open spec fn after_step(self) -> SessionView {
        match self.stage {
            Stage::InitialReload => self.at(Stage::Spawning),
            Stage::Spawning => self.at(Stage::Watching),
            Stage::Signalling => self.at(Stage::Joining),
            Stage::Joining => self.at(Stage::Stopped),
            _ => self,
        }
    }

    /// After the handle was dropped. Only a watching session has a handle.
    pub open spec fn after_drop(self) -> SessionView {
        match self.stage {
            Stage::Watching => self.at(Stage::Signalling),
            _ => self,
        }
    }

    /// After `n` commands in a row were carried out without a refusal.
    pub open spec fn after_done(self, n: nat) -> SessionView
        decreases n,
    {
        if n == 0 {
            self
        } else {
            let before = self.after_done((n - 1) as nat);
            if before.asks_monitor() {
                before.after_monitor(true)
            } else {
                before.after_step()
            }
        }
    }
}

/// The owner's side of one session.
pub struct Session {
    dirs: Vec<String>,
    delay: Duration,
    stage: Stage,
}

impl View for Session {
    type V = SessionView;

    closed spec fn view(&self) -> SessionView {
        SessionView { dirs: self.dirs@, delay: self.delay, stage: self.stage }
    }
}

impl Session {
    #[verifier::type_invariant]
    spec fn inv(self) -> bool {
        self@.wf()
    }

    /// A session for `target` that has done nothing yet: its watch set is
    /// that of the target, and its first command is to create the monitor
    /// with `delay` as the debounce interval.
    pub fn new(target: &SrcPath, delay: Duration) -> (session: Session)
        ensures
            session@.wf(),
            session@.stage == Stage::CreatingWatcher,
            session@.delay == delay,
            texts(session@.dirs) == watch_set(*target),
            session@.dirs.len() == watch_set(*target).len(),
    {
        let dirs = watch_dirs(target);
        Session { dirs, delay, stage: Stage::CreatingWatcher }
    }

    /// What the driver has to do now.
    pub fn command(&self) -> (command: Command)
        ensures
            self@.wf(),
            command == self@.command(),
    {
        proof {
            use_type_invariant(self);
        }
        match self.stage {
            Stage::CreatingWatcher => Command::CreateWatcher(self.delay),
            Stage::Subscribing(i) => Command::Watch(self.dirs[i].clone(), WatchMode::NonRecursive),
            Stage::InitialReload => Command::InitialReload,
            Stage::Spawning => Command::Spawn,
            Stage::Watching => Command::Hold,
            Stage::Signalling => Command::SignalShutdown,
            Stage::Joining => Command::Join,
            Stage::Stopped => Command::Release,
        }
    }

    /// The phase of the lifecycle that the session is in.
    pub fn phase(&self) -> (phase: Phase)
        ensures
            phase == self@.phase(),
    {
        match self.stage {
            Stage::CreatingWatcher | Stage::Subscribing(_) | Stage::InitialReload | Stage::Spawning => Phase::Starting,
            Stage::Watching => Phase::Watching,
            Stage::Signalling | Stage::Joining => Phase::ShuttingDown,
            Stage::Stopped => Phase::Stopped,
        }
    }

    /// Takes the monitor's answer to `CreateWatcher` or `Watch`. A refusal
    /// ends the session and comes back as `WatchError::FileWatch`, with the
    /// monitor's own error inside; no reload has run and no thread exists.
    pub fn monitor_replied<E>(&mut self, reply: Result<(), notify::Error>) -> (result: Result<(), WatchError<E>>)
        ensures
            final(self)@ == old(self)@.after_monitor(reply is Ok),
            final(self)@.wf(),
            result == match reply {
                Ok(_) => Ok::<(), WatchError<E>>(()),
                Err(cause) => Err::<(), WatchError<E>>(WatchError::FileWatch(cause)),
            },
    {
        proof {
            use_type_invariant(&*self);
        }
        match reply {
            Ok(_) => {
                match self.stage {
                    Stage::CreatingWatcher => {
                        self.stage = Stage::Subscribing(0);
                    },
                    Stage::Subscribing(i) => {
                        if i + 1 < self.dirs.len() {
                            self.stage = Stage::Subscribing(i + 1);
                        } else {
                            self.stage = Stage::InitialReload;
                        }
                    },
                    _ => {},
                }
                Ok(())
            },
            Err(cause) => {
                match self.stage {
                    Stage::CreatingWatcher | Stage::Subscribing(_) => {
                        self.stage = Stage::Stopped;
                    },
                    _ => {},
                }
                Err(WatchError::FileWatch(cause))
            },
        }
    }

    /// Takes the report that `InitialReload`, `Spawn`, `SignalShutdown` or
    /// `Join` was carried out. `succeeded` is there to be said and changes
    /// nothing: teardown in particular goes on whatever failed.
    pub fn step_finished(&mut self, succeeded: bool)
        ensures
            final(self)@ == old(self)@.after_step(),
            final(self)@.wf(),
    {
        proof {
            use_type_invariant(&*self);
        }
        match self.stage {
            Stage::InitialReload => {
                self.stage = Stage::Spawning;
            },
            Stage::Spawning => {
                self.stage = Stage::Watching;
            },
            Stage::Signalling => {
                self.stage = Stage::Joining;
            },
            Stage::Joining => {
                self.stage = Stage::Stopped;
            },
            _ => {},
        }
    }

    /// Takes the news that the handle was dropped: a watching session starts
    /// to shut down.
    pub fn handle_dropped(&mut self)
        ensures
            final(self)@ == old(self)@.after_drop(),
            final(self)@.wf(),
    {
        proof {
            use_type_invariant(&*self);
        }
        match self.stage {
            Stage::Watching => {
                self.stage = Stage::Signalling;
            },
            _ => {},
        }
    }
}

/// A construction that meets no refusal goes through its commands in one
/// order: the monitor is created, the directories of the watch set are
/// subscribed one after the other, the initial reload runs, and only then is
/// the background loop started. Until that last command is done the session
/// is starting; from then on it is watching.
pub proof fn construction_order(fresh: SessionView, done: nat)
    requires
        fresh.wf(),
        fresh.stage == Stage::CreatingWatcher,
    ensures
        fresh.after_done(done).wf(),
        fresh.after_done(done).dirs == fresh.dirs,
        fresh.after_done(done).delay == fresh.delay,
        fresh.after_done(done).stage == if done == 0 {
            Stage::CreatingWatcher
        } else if done <= fresh.dirs.len() {
            Stage::Subscribing((done - 1) as usize)
        } else if done == fresh.dirs.len() + 1 {
            Stage::InitialReload
        } else if done == fresh.dirs.len() + 2 {
            Stage::Spawning
        } else {
            Stage::Watching
        },
        fresh.after_done(done).phase() == if done <= fresh.dirs.len() + 2 {
            Phase::Starting
        } else {
            Phase::Watching
        },
    decreases done,
{
    if done > 0 {
        construction_order(fresh, (done - 1) as nat);
    }
}

/// Every subscription that a session asks for is of a directory of its watch
/// set and leaves the subdirectories out.
pub proof fn subscriptions_are_not_recursive(session: SessionView)
    requires
        session.wf(),
    ensures
        session.command() matches Command::Watch(dir, mode) ==> {
            &&& mode == WatchMode::NonRecursive
            &&& session.stage matches Stage::Subscribing(i) && dir == session.dirs[i as int]
        },
{
}

/// The background loop is started by one command only, and that command
/// follows the initial reload and nothing else; the initial reload in turn
/// follows the last subscription. So the result of the initial reload is
/// enqueued before the loop exists that could enqueue another.
pub proof fn loop_starts_after_initial_reload(before: SessionView, accepted: bool)
    requires
        before.wf(),
    ensures
        ({
            let after = before.after_monitor(accepted);
            &&& after.stage is Watching ==> before.stage is Watching
            &&& after.stage is Spawning ==> before.stage is Spawning
            &&& after.stage is InitialReload ==> before.stage is InitialReload || (accepted && before.stage
                == Stage::Subscribing((before.dirs.len() - 1) as usize))
        }),
        ({
            let after = before.after_step();
            &&& after.stage is Watching ==> before.stage is Watching || before.stage is Spawning
            &&& after.stage is Spawning ==> before.stage is Spawning || before.stage is InitialReload
            &&& after.stage is InitialReload ==> before.stage is InitialReload
        }),
        ({
            let after = before.after_drop();
            &&& after.stage is Watching ==> false
            &&& after.stage is Spawning ==> before.stage is Spawning
            &&& after.stage is InitialReload ==> before.stage is InitialReload
        }),
{
}

/// A refusal by the monitor ends the construction on the spot: the session
/// is stopped without an initial reload and without a background loop.
pub proof fn refusal_ends_construction(before: SessionView)
    requires
        before.wf(),
        before.asks_monitor(),
    ensures
        before.after_monitor(false).phase() == Phase::Stopped,
        before.after_monitor(false).command() == Command::Release,
{
}

/// A stopped session stays stopped, whatever is reported to it.
pub proof fn stopped_is_final(stopped: SessionView, accepted: bool)
    requires
        stopped.stage is Stopped,
    ensures
        stopped.after_monitor(accepted) == stopped,
        stopped.after_step() == stopped,
        stopped.after_drop() == stopped,
{
}

/// Dropping the handle of a watching session sets off the teardown, which
/// has one order: the shutdown signal is sent, the background thread is
/// waited for, and only when that wait is over is the session stopped and
/// the native watcher let go. Nothing in between can fail the teardown.
pub proof fn teardown_order(watching: SessionView)
    requires
        watching.stage is Watching,
    ensures
        watching.command() == Command::Hold,
        watching.after_drop().command() == Command::SignalShutdown,
        watching.after_drop().phase() == Phase::ShuttingDown,
        watching.after_drop().after_step().command() == Command::Join,
        watching.after_drop().after_step().phase() == Phase::ShuttingDown,
        watching.after_drop().after_step().after_step().command() == Command::Release,
        watching.after_drop().after_step().after_step().phase() == Phase::Stopped,
{
}

} // verus!
