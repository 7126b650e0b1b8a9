//! The lifecycle state: whether a watcher is at work, and the two handles
//! that go with a watcher at work.
//!
//! The state is changed through `&mut`, so a caller that shares it between
//! execution contexts holds its lock for the length of one call. Launching
//! the execution context of a new watcher and awaiting the end of a stopped
//! one are the caller's part; it hands them in as `launch` and `join`.

use vstd::prelude::*;
use crate::signal::{stop_signal, StopSender, STOP_CAPACITY};
use crate::watcher::{Watcher, WatcherModel};

verus! {

/// Exit code of a normal shutdown.
pub const EXIT_OK: i32 = 0;

/// What a request to start came to.
#[derive(Clone, Copy, Debug, PartialEq, Eq, Structural)]
pub enum StartOutcome {
    Started,
    AlreadyRunning,
}

/// What a request to stop came to.
#[derive(Clone, Copy, Debug, PartialEq, Eq, Structural)]
pub enum StopOutcome {
    Stopped,
    NotRunning,
}

/// A watcher at work, as the lifecycle state knows it: the sending end of
/// its stop signal and the handle on which its end is awaited. The two are
/// stored and taken out as one value.
struct Active<J> {
    stop: StopSender,
    worker: J,
}

/// The lifecycle state. `J` is the handle on which the end of a watcher's
/// execution context is awaited.
pub struct Lifecycle<J> {
    active: Option<Active<J>>,
}

/// A start on a state that is running or not: the state after it, which is
/// always running, and the outcome.
pub open spec fn start_spec(running: bool) -> (bool, StartOutcome) {
    (
        true,
        if running {
            StartOutcome::AlreadyRunning
        } else {
            StartOutcome::Started
        },
    )
}

/// Whether a start launches a new watcher: only where none is at work.
pub open spec fn launches(running: bool) -> bool {
    !running
}

/// A stop on a state that is running or not: the state after it, which is
/// never running, and the outcome.
pub open spec fn stop_spec(running: bool) -> (bool, StopOutcome) {
    (
        false,
        if running {
            StopOutcome::Stopped
        } else {
            StopOutcome::NotRunning
        },
    )
}

/// Whether `worker` is what `launch` returned for some fresh watcher that is
/// bound to the receiving end of the signal of `stop`, a signal that holds
/// one request at most.
pub open spec fn launched_by<J, F: FnOnce(Watcher) -> J>(
    launch: F,
    stop: StopSender,
    worker: J,
) -> bool {
    &&& stop.limit() == Some(STOP_CAPACITY)
    &&& exists|w: Watcher|
        {
            &&& w@ == WatcherModel::fresh()
            &&& stop.signals(w.receiver())
            &&& #[trigger] call_ensures(launch, (w,), worker)
        }
}

impl<J> Lifecycle<J> {
    /// The handle on which the end of the watcher at work is awaited.
    pub closed spec fn worker(&self) -> Option<J> {
        match self.active {
            Some(a) => Some(a.worker),
            None => None,
        }
    }

    /// The sending end of the stop signal of the watcher at work.
    pub closed spec fn stop_sender(&self) -> Option<StopSender> {
        match self.active {
            Some(a) => Some(a.stop),
            None => None,
        }
    }

    /// Whether a watcher is at work.
    pub open spec fn running(&self) -> bool {
        self.worker() is Some
    }

    /// The two handles are both there or both absent: there while a watcher
    /// is at work, absent while none is.
    pub proof fn lemma_handles_go_together(self)
        ensures
            self.stop_sender() is Some <==> self.worker() is Some,
            self.running() <==> self.stop_sender() is Some,
    {
    }

    /// The state at process start: no watcher at work.
    pub fn new() -> (state: Self)
        ensures
            !state.running(),
    {
        Lifecycle { active: None }
    }

    #[verifier::when_used_as_spec(running)]
    pub fn is_running(&self) -> (b: bool)
        ensures
            b == self.running(),
    {
        self.active.is_some()
    }

    /// Starts a watcher unless one is at work.
    ///
    /// Where none is, a fresh stop signal and a fresh watcher bound to its
    /// receiving end are made, the watcher is handed to `launch`, and the
    /// sending end is stored together with what `launch` returned. Where one
    /// is, nothing changes and `launch` is not called: it need not even be
    /// callable then.
    pub fn start<F: FnOnce(Watcher) -> J>(&mut self, launch: F) -> (outcome: StartOutcome)
        requires
            launches(old(self).running()) ==> forall|w: Watcher|
                w@ == WatcherModel::fresh() ==> #[trigger] call_requires(launch, (w,)),
        ensures
            (final(self).running(), outcome) == start_spec(old(self).running()),
            !launches(old(self).running()) ==> *final(self) == *old(self),
            launches(old(self).running()) ==> final(self).stop_sender() is Some && launched_by(
                launch,
                final(self).stop_sender()->0,
                final(self).worker()->0,
            ),
    {
        if self.active.is_some() {
            return StartOutcome::AlreadyRunning;
        }
        let (stop, receiver) = stop_signal();
        let watcher = Watcher::new(receiver);
        let worker = launch(watcher);
        self.active = Some(Active { stop, worker });
        StartOutcome::Started
    }

    /// Stops the watcher at work, if there is one.
    ///
    /// A stop is requested on its signal, `join` is called on its handle and
    /// returns when the watcher has ended, and both handles are cleared.
    /// Where no watcher is at work, nothing changes.
    pub fn stop<F: FnOnce(J)>(&mut self, join: F) -> (outcome: StopOutcome)
        requires
            old(self).worker() matches Some(j) ==> call_requires(join, (j,)),
        ensures
            (final(self).running(), outcome) == stop_spec(old(self).running()),
            !old(self).running() ==> *final(self) == *old(self),
            old(self).worker() matches Some(j) ==> call_ensures(join, (j,), ()),
    {
        match self.active.take() {
            Some(active) => {
                let Active { stop, worker } = active;
                let _ = stop.request_stop();
                join(worker);
                StopOutcome::Stopped
            },
            None => StopOutcome::NotRunning,
        }
    }

    /// Stops the watcher at work, if any, and returns the code with which
    /// the process is to exit. After a shutdown the process ends: nothing is
    /// started again.
    pub fn shutdown<F: FnOnce(J)>(&mut self, join: F) -> (code: i32)
        requires
            old(self).worker() matches Some(j) ==> call_requires(join, (j,)),
        ensures
            code == EXIT_OK,
            !final(self).running(),
            !old(self).running() ==> *final(self) == *old(self),
            old(self).worker() matches Some(j) ==> call_ensures(join, (j,), ()),
    {
        let _ = self.stop(join);
        EXIT_OK
    }
}

/// A start that follows a start launches nothing and reports that a watcher
/// is already running: two starts in a row leave exactly one watcher at work.
pub proof fn lemma_second_start_changes_nothing(running: bool)
    ensures
        start_spec(start_spec(running).0) == (true, StartOutcome::AlreadyRunning),
        !launches(start_spec(running).0),
        launches(false) && !launches(start_spec(false).0),
{
}

/// A stop on a state that never started reports that nothing is running and
/// leaves the state as it was.
pub proof fn lemma_stop_when_idle(running: bool)
    requires
        !running,
    ensures
        stop_spec(running) == (running, StopOutcome::NotRunning),
{
}

/// A start that follows a stop always launches a watcher, and that watcher
/// begins with no processed window, whatever the stopped one had processed.
pub proof fn lemma_start_after_stop_is_fresh(running: bool)
    ensures
        launches(stop_spec(running).0),
        start_spec(stop_spec(running).0) == (true, StartOutcome::Started),
        WatcherModel::fresh().processed == Set::<isize>::empty(),
{
}

} // verus!
