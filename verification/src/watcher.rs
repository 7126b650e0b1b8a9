//! The window watcher: a state machine that is told what the system showed
//! and answers with what to do next.
//!
//! The watcher never touches the system itself. Its driver performs each
//! [`Action`] and reports back with the matching [`Event`]; the watcher keeps
//! the set of windows it has dealt with, so that no window is moved twice.
//!
//! A pass ends at the first visible window whose title matches, whether or
//! not that window was dealt with before. A second matching window that the
//! system lists behind an already handled one is therefore not reached while
//! the first one stays listed before it.

use std::collections::HashSet;
use vstd::prelude::*;
use crate::geometry::{compute_target, placeable, target_of, Rect};
use crate::signal::{Poll, StopReceiver};
use crate::title::{title_matches, TITLE_PREFIX};

verus! {

broadcast use vstd::std_specs::hash::group_hash_axioms;

/// Pause between two passes, in milliseconds.
pub const POLL_INTERVAL_MS: u64 = 1000;

/// What the system reported of one top-level window at enumeration time.
#[derive(Debug)]
pub struct WindowInfo {
    pub handle: isize,
    pub visible: bool,
    /// The caption, absent when it is empty or could not be read.
    pub title: Option<String>,
}

impl WindowInfo {
    /// Whether the window is one to place: visible, with a title that begins
    /// with [`TITLE_PREFIX`].
    pub open spec fn eligible(&self) -> bool {
        &&& self.visible
        &&& self.title matches Some(t) && TITLE_PREFIX@.is_prefix_of(t@)
    }

    #[verifier::when_used_as_spec(eligible)]
    pub fn is_eligible(&self) -> (b: bool)
        ensures
            b == self.eligible(),
    {
        match &self.title {
            Some(t) => self.visible && title_matches(t.as_str()),
            None => false,
        }
    }
}

/// Index of the first eligible window at or after `start`.
pub open spec fn first_eligible_from(windows: Seq<WindowInfo>, start: int) -> Option<int>
    decreases windows.len() - start,
{
    if start < 0 || start >= windows.len() {
        None
    } else if windows[start].eligible() {
        Some(start)
    } else {
        first_eligible_from(windows, start + 1)
    }
}

/// Index of the first eligible window in enumeration order.
pub open spec fn first_eligible(windows: Seq<WindowInfo>) -> Option<int> {
    first_eligible_from(windows, 0)
}

/// The window to place in this pass: the first eligible one, unless it was
/// dealt with before.
pub open spec fn candidate(windows: Seq<WindowInfo>, processed: Set<isize>) -> Option<isize> {
    match first_eligible(windows) {
        Some(i) => if processed.contains(windows[i].handle) {
            None
        } else {
            Some(windows[i].handle)
        },
        None => None,
    }
}

/// `first_eligible_from` finds the least eligible index that is not below
/// `start`, and finds nothing only where there is none.
pub proof fn lemma_first_eligible_from(windows: Seq<WindowInfo>, start: int)
    requires
        0 <= start,
    ensures
        match first_eligible_from(windows, start) {
            Some(i) => {
                &&& start <= i < windows.len()
                &&& windows[i].eligible()
                &&& forall|j: int| start <= j < i ==> !windows[j].eligible()
            },
            None => forall|j: int| start <= j < windows.len() ==> !windows[j].eligible(),
        },
    decreases windows.len() - start,
{
    if start < windows.len() && !windows[start].eligible() {
        lemma_first_eligible_from(windows, start + 1);
    }
}

/// Picks the window to place among those enumerated.
pub fn select_window(windows: &Vec<WindowInfo>, processed: &HashSet<isize>) -> (found: Option<isize>)
    ensures
        found == candidate(windows@, processed@),
{
    let mut i: usize = 0;
    while i < windows.len()
        invariant
            i <= windows.len(),
            first_eligible(windows@) == first_eligible_from(windows@, i as int),
        decreases windows.len() - i,
    {
        if windows[i].is_eligible() {
            let handle: isize = windows[i].handle;
            if processed.contains(&handle) {
                return None;
            }
            return Some(handle);
        }
        i += 1;
    }
    None
}

/// The two states that a watcher shows.
#[derive(Clone, Copy, Debug, PartialEq, Eq, Structural)]
pub enum WatcherState {
    Stopped,
    Running,
}

/// Where a watcher is in its life. It runs once: a finished watcher is not
/// started again.
#[derive(Clone, Copy, Debug, PartialEq, Eq, Structural)]
pub enum Stage {
    /// Made, not yet launched.
    Ready,
    /// Launched and not yet told to stop.
    Running,
    /// Stopped for good.
    Finished,
}

/// The window that a running watcher is busy with, if any.
#[derive(Clone, Copy, Debug, PartialEq, Eq, Structural)]
pub enum Focus {
    /// No window.
    Nothing,
    /// The latest enumeration picked this window; its measurement is
    /// awaited.
    Measuring(isize),
    /// The move of this window was asked for and is not yet reported.
    Moving(isize),
}

/// What the driver reports to the watcher.
#[derive(Debug)]
pub enum Event {
    /// The execution context of the watcher has begun.
    Launched,
    /// The stop signal was looked at.
    StopPolled { poll: Poll },
    /// The top-level windows were enumerated, in the order the system gave.
    Enumerated { windows: Vec<WindowInfo> },
    /// The rectangle of `handle`, the work area and the width of the primary
    /// screen were read.
    Measured { handle: isize, window: Rect, work_area: Rect, screen_width: i32 },
    /// The move that was asked for has been attempted.
    Moved,
    /// The pause between two passes is over.
    Slept,
}

/// What the watcher asks of its driver.
#[derive(Clone, Copy, Debug, PartialEq, Eq, Structural)]
pub enum Action {
    /// Look at the stop signal and report `StopPolled`.
    PollStop,
    /// Enumerate the top-level windows and report `Enumerated`.
    Enumerate,
    /// Read the geometry needed to place `handle` and report `Measured`.
    Measure { handle: isize },
    /// Move `handle` to `target` and report `Moved`.
    Move { handle: isize, target: Rect },
    /// Pause for `millis` milliseconds and report `Slept`.
    Sleep { millis: u64 },
    /// Leave the loop: the watcher has stopped.
    Exit,
}

/// The watcher as a mathematical value.
pub struct WatcherModel {
    pub stage: Stage,
    pub focus: Focus,
    /// The windows dealt with so far.
    pub processed: Set<isize>,
}

impl WatcherModel {
    /// A watcher that was just made: not launched, nothing processed.
    pub open spec fn fresh() -> WatcherModel {
        WatcherModel { stage: Stage::Ready, focus: Focus::Nothing, processed: Set::empty() }
    }

    /// The state that the watcher shows.
    pub open spec fn state(self) -> WatcherState {
        if self.stage == Stage::Running {
            WatcherState::Running
        } else {
            WatcherState::Stopped
        }
    }

    /// What holds of every watcher that was made fresh and then stepped:
    /// only a running watcher is busy with a window, that window is not yet
    /// processed, and the processed windows are finitely many.
    pub open spec fn wf(self) -> bool {
        &&& self.processed.finite()
        &&& self.stage != Stage::Running ==> self.focus == Focus::Nothing
        &&& self.focus matches Focus::Measuring(h) ==> !self.processed.contains(h)
        &&& self.focus matches Focus::Moving(h) ==> !self.processed.contains(h)
    }

    /// The watcher once it has let go of its window: a window whose move
    /// was asked for counts as processed from here on.
    pub open spec fn settled(self) -> WatcherModel {
        WatcherModel {
            stage: self.stage,
            focus: Focus::Nothing,
            processed: match self.focus {
                Focus::Moving(h) => self.processed.insert(h),
                _ => self.processed,
            },
        }
    }

    /// The same watcher in another stage.
    pub open spec fn at(self, stage: Stage) -> WatcherModel {
        WatcherModel { stage, focus: self.focus, processed: self.processed }
    }

    /// The same watcher busy with another window, or none.
    pub open spec fn busy_with(self, focus: Focus) -> WatcherModel {
        WatcherModel { stage: self.stage, focus, processed: self.processed }
    }

    /// The same watcher with `handle` processed and no window in hand.
    pub open spec fn done_with(self, handle: isize) -> WatcherModel {
        WatcherModel {
            stage: self.stage,
            focus: Focus::Nothing,
            processed: self.processed.insert(handle),
        }
    }

    /// Whether a move of `handle` is out of the question: it is processed,
    /// or its move was asked for and will be recorded with the next event.
    pub open spec fn claimed(self, handle: isize) -> bool {
        self.processed.contains(handle) || (self.stage == Stage::Running && self.focus
            == Focus::Moving(handle))
    }
}

/// The pause that follows a pass.
pub open spec fn pause() -> Action {
    Action::Sleep { millis: POLL_INTERVAL_MS }
}

/// The rule of the watcher: the state after `event` and the action asked for.
///
/// A watcher that is not running answers `Exit` to everything, except that a
/// fresh one starts on `Launched`. A running watcher goes round the loop:
/// look for a stop request, enumerate, place at most one window, pause.
///
/// A window is recorded as processed when the event after the request to
/// move it arrives, which is the report of the move; a window that has no
/// placement, or one whose extent the system cannot take, is recorded at
/// once, with no move. Either way it is tried once. A measurement is taken up only for the window that
/// the enumeration just before it picked.
pub open spec fn step_spec(m: WatcherModel, event: Event) -> (WatcherModel, Action) {
    match m.stage {
        Stage::Ready => match event {
            Event::Launched => (m.busy_with(Focus::Nothing).at(Stage::Running), Action::PollStop),
            _ => (m, Action::Exit),
        },
        Stage::Finished => (m, Action::Exit),
        Stage::Running => match event {
            Event::Launched => (m.settled(), Action::PollStop),
            Event::StopPolled { poll } => if poll.ends_loop() {
                (m.settled().at(Stage::Finished), Action::Exit)
            } else {
                (m.settled(), Action::Enumerate)
            },
            Event::Enumerated { windows } => match candidate(windows@, m.settled().processed) {
                Some(handle) => (
                    m.settled().busy_with(Focus::Measuring(handle)),
                    Action::Measure { handle },
                ),
                None => (m.settled(), pause()),
            },
            Event::Measured { handle, window, work_area, screen_width } => if m.focus
                == Focus::Measuring(handle) && !m.processed.contains(handle) {
                if placeable(window, screen_width) && target_of(
                    window,
                    work_area,
                    screen_width,
                ).movable() {
                    (
                        m.busy_with(Focus::Moving(handle)),
                        Action::Move { handle, target: target_of(window, work_area, screen_width) },
                    )
                } else {
                    (m.done_with(handle), pause())
                }
            } else {
                (m.settled(), pause())
            },
            Event::Moved => (m.settled(), pause()),
            Event::Slept => (m.settled(), Action::PollStop),
        },
    }
}

/// Whether `action` asks for the move of `handle`.
pub open spec fn asks_move(action: Action, handle: isize) -> bool {
    action matches Action::Move { handle: h, .. } && h == handle
}

/// The state after the events were taken in turn.
pub open spec fn run(m: WatcherModel, events: Seq<Event>) -> WatcherModel
    decreases events.len(),
{
    if events.len() == 0 {
        m
    } else {
        run(step_spec(m, events[0]).0, events.drop_first())
    }
}

/// How many times the move of `handle` is asked for while the events are
/// taken in turn.
pub open spec fn moves_asked(m: WatcherModel, events: Seq<Event>, handle: isize) -> nat
    decreases events.len(),
{
    if events.len() == 0 {
        0
    } else {
        let here: nat = if asks_move(step_spec(m, events[0]).1, handle) {
            1
        } else {
            0
        };
        here + moves_asked(step_spec(m, events[0]).0, events.drop_first(), handle)
    }
}

/// A fresh watcher is well formed, and a step keeps a watcher so.
pub proof fn lemma_step_keeps_wf(m: WatcherModel, event: Event)
    ensures
        WatcherModel::fresh().wf(),
        m.wf() ==> step_spec(m, event).0.wf(),
{
    if m.wf() && m.stage == Stage::Running {
        if let Event::Enumerated { windows } = event {
            lemma_first_eligible_from(windows@, 0);
        }
    }
}

/// One step never forgets a processed window, and a window that is claimed
/// stays claimed and is not moved. The window whose move a step asks for was
/// the one being measured, was not processed, and is claimed from then on.
pub proof fn lemma_step_processed(m: WatcherModel, event: Event, handle: isize)
    ensures
        m.processed.contains(handle) ==> step_spec(m, event).0.processed.contains(handle),
        m.claimed(handle) ==> step_spec(m, event).0.claimed(handle),
        m.claimed(handle) ==> !asks_move(step_spec(m, event).1, handle),
        asks_move(step_spec(m, event).1, handle) ==> {
            &&& m.stage == Stage::Running
            &&& m.focus == Focus::Measuring(handle)
            &&& !m.processed.contains(handle)
            &&& step_spec(m, event).0.claimed(handle)
        },
{
}

/// A window comes to be measured only by an enumeration in which it is the
/// first eligible window and is not yet processed.
pub proof fn lemma_measured_was_selected(m: WatcherModel, event: Event, handle: isize)
    requires
        m.stage == Stage::Running,
        step_spec(m, event).0.focus == Focus::Measuring(handle),
    ensures
        event matches Event::Enumerated { windows } && candidate(
            windows@,
            m.settled().processed,
        ) == Some(handle),
        !m.processed.contains(handle),
{
}

/// A window is recorded as processed by the event that follows the request
/// to move it, whatever that event is.
pub proof fn lemma_move_is_recorded(m: WatcherModel, event: Event, handle: isize)
    requires
        m.stage == Stage::Running,
        m.focus == Focus::Moving(handle),
    ensures
        step_spec(m, event).0.processed.contains(handle),
{
}

/// Once a window is claimed, no later pass moves it: whatever events follow,
/// its move is never asked for.
pub proof fn lemma_claimed_never_moved(m: WatcherModel, events: Seq<Event>, handle: isize)
    requires
        m.claimed(handle),
    ensures
        moves_asked(m, events, handle) == 0,
        run(m, events).claimed(handle),
    decreases events.len(),
{
    if events.len() > 0 {
        lemma_step_processed(m, events[0], handle);
        lemma_claimed_never_moved(step_spec(m, events[0]).0, events.drop_first(), handle);
    }
}

/// Once a window is in the processed set, it stays there and no later pass
/// moves it again.
pub proof fn lemma_processed_never_moved(m: WatcherModel, events: Seq<Event>, handle: isize)
    requires
        m.processed.contains(handle),
    ensures
        moves_asked(m, events, handle) == 0,
        run(m, events).processed.contains(handle),
    decreases events.len(),
{
    lemma_claimed_never_moved(m, events, handle);
    if events.len() > 0 {
        lemma_step_processed(m, events[0], handle);
        lemma_processed_never_moved(step_spec(m, events[0]).0, events.drop_first(), handle);
    }
}

/// Over the whole life of a watcher each window is moved at most once,
/// whatever the driver reports and in whatever order.
pub proof fn lemma_moved_at_most_once(m: WatcherModel, events: Seq<Event>, handle: isize)
    ensures
        moves_asked(m, events, handle) <= 1,
    decreases events.len(),
{
    if events.len() > 0 {
        let next = step_spec(m, events[0]).0;
        lemma_step_processed(m, events[0], handle);
        if asks_move(step_spec(m, events[0]).1, handle) {
            lemma_claimed_never_moved(next, events.drop_first(), handle);
        } else {
            lemma_moved_at_most_once(next, events.drop_first(), handle);
        }
    }
}

/// A finished watcher stays finished: it answers `Exit` to every event and
/// does not change.
pub proof fn lemma_finished_is_final(m: WatcherModel, events: Seq<Event>)
    requires
        m.stage == Stage::Finished,
    ensures
        run(m, events) == m,
        forall|i: int| 0 <= i < events.len() ==> step_spec(m, #[trigger] events[i]) == (m, Action::Exit),
    decreases events.len(),
{
    if events.len() > 0 {
        lemma_finished_is_final(m, events.drop_first());
    }
}

/// Whether `event` reports that a request to stop was found.
pub open spec fn reports_stop(event: Event) -> bool {
    event matches Event::StopPolled { poll } && poll == Poll::Signalled
}

/// Whether the watcher answers `Exit` to any of the events taken in turn.
pub open spec fn ever_exits(m: WatcherModel, events: Seq<Event>) -> bool
    decreases events.len(),
{
    events.len() > 0 && (step_spec(m, events[0]).1 == Action::Exit || ever_exits(
        step_spec(m, events[0]).0,
        events.drop_first(),
    ))
}

/// A running watcher stops exactly when a look at the stop signal finds a
/// request. No other event stops it, and neither does a look that finds
/// nothing, be it that every sender is gone.
pub proof fn lemma_only_stop_signal_stops(m: WatcherModel, event: Event)
    requires
        m.stage == Stage::Running,
    ensures
        step_spec(m, event).0.stage == Stage::Finished <==> reports_stop(event),
        step_spec(m, event).1 == Action::Exit <==> reports_stop(event),
        !reports_stop(event) ==> step_spec(m, event).0.stage == Stage::Running,
{
}

/// As long as no request to stop is found, a running watcher keeps running:
/// it never answers `Exit`, whatever else is reported and for however long.
pub proof fn lemma_runs_until_stop_is_requested(m: WatcherModel, events: Seq<Event>)
    requires
        m.stage == Stage::Running,
        forall|i: int| 0 <= i < events.len() ==> !reports_stop(#[trigger] events[i]),
    ensures
        !ever_exits(m, events),
        run(m, events).stage == Stage::Running,
    decreases events.len(),
{
    if events.len() > 0 {
        lemma_only_stop_signal_stops(m, events[0]);
        let rest = events.drop_first();
        assert forall|i: int| 0 <= i < rest.len() implies !reports_stop(#[trigger] rest[i]) by {
            assert(rest[i] == events[i + 1]);
        }
        lemma_runs_until_stop_is_requested(step_spec(m, events[0]).0, rest);
    }
}

/// The events of the first pass of a watcher in which `windows` are
/// enumerated and the window `handle` is measured and moved.
pub open spec fn first_pass(
    windows: Vec<WindowInfo>,
    handle: isize,
    window: Rect,
    work_area: Rect,
    screen_width: i32,
) -> Seq<Event> {
    seq![
        Event::Launched,
        Event::StopPolled { poll: Poll::Idle },
        Event::Enumerated { windows },
        Event::Measured { handle, window, work_area, screen_width },
        Event::Moved,
    ]
}

/// A fresh watcher carries nothing over from any watcher before it: in its
/// first pass it asks for the move of the first eligible window exactly
/// once, to the computed target, and has processed that window and no other
/// when the move is reported. This holds of every window that has a
/// placement whose extent the system can take.
pub proof fn lemma_fresh_watcher_moves_first_match(
    windows: Vec<WindowInfo>,
    handle: isize,
    window: Rect,
    work_area: Rect,
    screen_width: i32,
)
    requires
        first_eligible(windows@) matches Some(i) && windows@[i].handle == handle,
        placeable(window, screen_width),
        target_of(window, work_area, screen_width).movable(),
    ensures
        WatcherModel::fresh().processed == Set::<isize>::empty(),
        moves_asked(
            WatcherModel::fresh(),
            first_pass(windows, handle, window, work_area, screen_width),
            handle,
        ) == 1,
        run(
            WatcherModel::fresh(),
            first_pass(windows, handle, window, work_area, screen_width),
        ).processed == Set::<isize>::empty().insert(handle),
        ({
            let m1 = step_spec(WatcherModel::fresh(), Event::Launched).0;
            let m2 = step_spec(m1, Event::StopPolled { poll: Poll::Idle }).0;
            let m3 = step_spec(m2, Event::Enumerated { windows }).0;
            step_spec(m3, Event::Measured { handle, window, work_area, screen_width }).1
                == (Action::Move { handle, target: target_of(window, work_area, screen_width) })
        }),
{
    let events = first_pass(windows, handle, window, work_area, screen_width);
    let m0 = WatcherModel::fresh();
    let m1 = step_spec(m0, events[0]).0;
    let m2 = step_spec(m1, events[1]).0;
    let m3 = step_spec(m2, events[2]).0;
    let m4 = step_spec(m3, events[3]).0;
    let m5 = step_spec(m4, events[4]).0;
    assert(m3.focus == Focus::Measuring(handle));
    assert(step_spec(m3, events[3]).1 == (Action::Move {
        handle,
        target: target_of(window, work_area, screen_width),
    }));
    assert(m5.processed == Set::<isize>::empty().insert(handle));
    let e1 = events.drop_first();
    let e2 = e1.drop_first();
    let e3 = e2.drop_first();
    let e4 = e3.drop_first();
    let e5 = e4.drop_first();
    assert(e1[0] == events[1] && e2[0] == events[2] && e3[0] == events[3] && e4[0] == events[4]);
    assert(e5.len() == 0);
    assert(moves_asked(m5, e5, handle) == 0 && run(m5, e5) == m5);
    assert(moves_asked(m4, e4, handle) == 0 && run(m4, e4) == m5);
    assert(moves_asked(m3, e3, handle) == 1 && run(m3, e3) == m5);
    assert(moves_asked(m2, e2, handle) == 1 && run(m2, e2) == m5);
    assert(moves_asked(m1, e1, handle) == 1 && run(m1, e1) == m5);
}

/// One watcher instance: the receiving end of its stop signal and the
/// windows it has dealt with. The set belongs to this instance alone.
pub struct Watcher {
    stop: StopReceiver,
    stage: Stage,
    focus: Focus,
    moved: HashSet<isize>,
}

impl View for Watcher {
    type V = WatcherModel;

    closed spec fn view(&self) -> WatcherModel {
        WatcherModel { stage: self.stage, focus: self.focus, processed: self.moved@ }
    }
}

impl Watcher {
    /// The receiving end of the stop signal that this watcher is bound to.
    pub closed spec fn receiver(&self) -> StopReceiver {
        self.stop
    }

    /// A new watcher bound to `stop`, with nothing processed.
    pub fn new(stop: StopReceiver) -> (w: Watcher)
        ensures
            w@ == WatcherModel::fresh(),
            w.receiver() == stop,
    {
        Watcher { stop, stage: Stage::Ready, focus: Focus::Nothing, moved: HashSet::new() }
    }

    /// The state of the watcher.
    pub fn state(&self) -> (s: WatcherState)
        ensures
            s == self@.state(),
    {
        match self.stage {
            Stage::Running => WatcherState::Running,
            _ => WatcherState::Stopped,
        }
    }

    /// Whether `handle` was dealt with by this watcher.
    pub fn is_processed(&self, handle: isize) -> (b: bool)
        ensures
            b == self@.processed.contains(handle),
    {
        self.moved.contains(&handle)
    }

    /// How many windows this watcher has dealt with.
    pub fn processed_count(&self) -> (n: usize)
        ensures
            n == self@.processed.len(),
    {
        self.moved.len()
    }

    /// Looks at the stop signal of this watcher, for the driver to report as
    /// `StopPolled`. What is found depends on the other execution contexts.
    pub fn poll_stop(&self) -> (found: Poll) {
        self.stop.poll()
    }

    /// Lets go of the window in hand, recording it if its move was asked for.
    fn settle(&mut self)
        ensures
            final(self)@ == old(self)@.settled(),
            final(self).receiver() == old(self).receiver(),
    {
        if let Focus::Moving(handle) = self.focus {
            self.moved.insert(handle);
        }
        self.focus = Focus::Nothing;
    }

    /// Takes one event and returns the action to perform next. The watcher
    /// stays bound to its stop signal.
    pub fn step(&mut self, event: Event) -> (action: Action)
        ensures
            (final(self)@, action) == step_spec(old(self)@, event),
            final(self).receiver() == old(self).receiver(),
    {
        match self.stage {
            Stage::Ready => match event {
                Event::Launched => {
                    self.stage = Stage::Running;
                    self.focus = Focus::Nothing;
                    Action::PollStop
                },
                _ => Action::Exit,
            },
            Stage::Finished => Action::Exit,
            Stage::Running => match event {
                Event::Launched => {
                    self.settle();
                    Action::PollStop
                },
                Event::StopPolled { poll } => {
                    self.settle();
                    if poll.is_final() {
                        self.stage = Stage::Finished;
                        Action::Exit
                    } else {
                        Action::Enumerate
                    }
                },
                Event::Enumerated { windows } => {
                    self.settle();
                    match select_window(&windows, &self.moved) {
                        Some(handle) => {
                            self.focus = Focus::Measuring(handle);
                            Action::Measure { handle }
                        },
                        None => Action::Sleep { millis: POLL_INTERVAL_MS },
                    }
                },
                Event::Measured { handle, window, work_area, screen_width } => {
                    let awaited: bool = match self.focus {
                        Focus::Measuring(h) => h == handle,
                        _ => false,
                    };
                    if awaited && !self.moved.contains(&handle) {
                        let target: Option<Rect> = match compute_target(
                            window,
                            work_area,
                            screen_width,
                        ) {
                            Some(rect) => if rect.is_movable() {
                                Some(rect)
                            } else {
                                None
                            },
                            None => None,
                        };
                        match target {
                            Some(target) => {
                                self.focus = Focus::Moving(handle);
                                Action::Move { handle, target }
                            },
                            None => {
                                self.moved.insert(handle);
                                self.focus = Focus::Nothing;
                                Action::Sleep { millis: POLL_INTERVAL_MS }
                            },
                        }
                    } else {
                        self.settle();
                        Action::Sleep { millis: POLL_INTERVAL_MS }
                    }
                },
                Event::Moved => {
                    self.settle();
                    Action::Sleep { millis: POLL_INTERVAL_MS }
                },
                Event::Slept => {
                    self.settle();
                    Action::PollStop
                },
            },
        }
    }
}

} // verus!
