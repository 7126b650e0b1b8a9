use std::collections::HashSet;

use pw_mover::geometry::Rect;
use pw_mover::signal::{stop_signal, Poll, StopSender};
use pw_mover::watcher::{
    select_window, Action, Event, Watcher, WatcherState, WindowInfo, POLL_INTERVAL_MS,
};

fn window(handle: isize, title: &str) -> WindowInfo {
    WindowInfo { handle, visible: true, title: Some(title.to_string()) }
}

fn hidden(handle: isize, title: &str) -> WindowInfo {
    WindowInfo { handle, visible: false, title: Some(title.to_string()) }
}

fn untitled(handle: isize) -> WindowInfo {
    WindowInfo { handle, visible: true, title: None }
}

fn work_area() -> Rect {
    Rect { left: 0, top: 0, right: 1920, bottom: 1040 }
}

fn measured(handle: isize) -> Event {
    Event::Measured {
        handle,
        window: Rect { left: 100, top: 50, right: 500, bottom: 400 },
        work_area: work_area(),
        screen_width: 1920,
    }
}

fn placed() -> Rect {
    Rect { left: 1520, top: 0, right: 1920, bottom: 1040 }
}

fn pause() -> Action {
    Action::Sleep { millis: 1000 }
}

fn running_watcher() -> (StopSender, Watcher) {
    let (tx, rx) = stop_signal();
    let mut watcher = Watcher::new(rx);
    assert_eq!(watcher.step(Event::Launched), Action::PollStop);
    (tx, watcher)
}

/// Runs one whole pass over `windows` and returns the actions it asked for.
fn pass(watcher: &mut Watcher, windows: Vec<WindowInfo>) -> Vec<Action> {
    let mut actions = Vec::new();
    let mut action = watcher.step(Event::StopPolled { poll: Poll::Idle });
    let mut windows = Some(windows);
    loop {
        actions.push(action);
        let event = match action {
            Action::Enumerate => Event::Enumerated { windows: windows.take().unwrap() },
            Action::Measure { handle } => measured(handle),
            Action::Move { .. } => Event::Moved,
            Action::Sleep { .. } | Action::PollStop | Action::Exit => break,
        };
        action = watcher.step(event);
    }
    actions
}

#[test]
fn poll_interval_is_one_second() {
    assert_eq!(POLL_INTERVAL_MS, 1000);
}

#[test]
fn new_watcher_is_stopped_and_empty() {
    let (_tx, rx) = stop_signal();
    let watcher = Watcher::new(rx);
    assert_eq!(watcher.state(), WatcherState::Stopped);
    assert_eq!(watcher.processed_count(), 0);
    assert!(!watcher.is_processed(42));
}

#[test]
fn launch_starts_the_loop_with_a_stop_check() {
    let (_tx, rx) = stop_signal();
    let mut watcher = Watcher::new(rx);
    assert_eq!(watcher.step(Event::Launched), Action::PollStop);
    assert_eq!(watcher.state(), WatcherState::Running);
}

#[test]
fn unlaunched_watcher_answers_exit() {
    let (_tx, rx) = stop_signal();
    let mut watcher = Watcher::new(rx);
    assert_eq!(watcher.step(Event::Slept), Action::Exit);
    assert_eq!(watcher.step(Event::StopPolled { poll: Poll::Idle }), Action::Exit);
    assert_eq!(
        watcher.step(Event::Enumerated { windows: vec![window(1, "Playwright")] }),
        Action::Exit
    );
    assert_eq!(watcher.step(measured(1)), Action::Exit);
    assert_eq!(watcher.step(Event::Moved), Action::Exit);
    assert_eq!(watcher.state(), WatcherState::Stopped);
    assert_eq!(watcher.processed_count(), 0);
    assert_eq!(watcher.step(Event::Launched), Action::PollStop);
}

#[test]
fn idle_stop_check_leads_to_enumeration() {
    let (_tx, mut watcher) = running_watcher();
    assert_eq!(watcher.step(Event::StopPolled { poll: Poll::Idle }), Action::Enumerate);
    assert_eq!(watcher.state(), WatcherState::Running);
}

#[test]
fn stop_request_ends_the_watcher() {
    let (_tx, mut watcher) = running_watcher();
    assert_eq!(watcher.step(Event::StopPolled { poll: Poll::Signalled }), Action::Exit);
    assert_eq!(watcher.state(), WatcherState::Stopped);
}

#[test]
fn lost_sender_does_not_end_the_watcher() {
    let (tx, mut watcher) = running_watcher();
    drop(tx);
    let poll = watcher.poll_stop();
    assert_eq!(poll, Poll::Disconnected);
    assert_eq!(watcher.step(Event::StopPolled { poll }), Action::Enumerate);
    assert_eq!(watcher.state(), WatcherState::Running);
    assert_eq!(
        watcher.step(Event::Enumerated { windows: vec![window(42, "Playwright")] }),
        Action::Measure { handle: 42 }
    );
}

#[test]
fn without_a_stop_request_the_watcher_keeps_running() {
    let (_tx, mut watcher) = running_watcher();
    for round in 0..50 {
        let actions = pass(&mut watcher, vec![window(round, "Playwright"), untitled(1000)]);
        assert!(!actions.contains(&Action::Exit));
        assert_eq!(watcher.step(Event::Slept), Action::PollStop);
        assert_eq!(watcher.state(), WatcherState::Running);
    }
    assert_eq!(watcher.processed_count(), 50);
}

#[test]
fn stopped_watcher_cannot_be_resumed() {
    let (_tx, mut watcher) = running_watcher();
    assert_eq!(watcher.step(Event::StopPolled { poll: Poll::Signalled }), Action::Exit);
    assert_eq!(watcher.step(Event::Launched), Action::Exit);
    assert_eq!(watcher.step(Event::StopPolled { poll: Poll::Idle }), Action::Exit);
    assert_eq!(watcher.step(Event::Slept), Action::Exit);
    assert_eq!(
        watcher.step(Event::Enumerated { windows: vec![window(1, "Playwright")] }),
        Action::Exit
    );
    assert_eq!(watcher.state(), WatcherState::Stopped);
}

#[test]
fn stopped_watcher_keeps_its_set() {
    let (_tx, mut watcher) = running_watcher();
    pass(&mut watcher, vec![window(5, "Playwright")]);
    assert_eq!(watcher.step(Event::StopPolled { poll: Poll::Signalled }), Action::Exit);
    assert!(watcher.is_processed(5));
    assert_eq!(watcher.step(measured(6)), Action::Exit);
    assert!(!watcher.is_processed(6));
}

#[test]
fn second_launch_of_a_running_watcher_changes_nothing() {
    let (_tx, mut watcher) = running_watcher();
    pass(&mut watcher, vec![window(5, "Playwright")]);
    assert_eq!(watcher.step(Event::Launched), Action::PollStop);
    assert_eq!(watcher.state(), WatcherState::Running);
    assert!(watcher.is_processed(5));
    assert_eq!(watcher.processed_count(), 1);
}

#[test]
fn sleep_is_followed_by_a_stop_check() {
    let (_tx, mut watcher) = running_watcher();
    assert_eq!(watcher.step(Event::Slept), Action::PollStop);
}

#[test]
fn move_is_followed_by_the_pause() {
    let (_tx, mut watcher) = running_watcher();
    assert_eq!(watcher.step(Event::Moved), pause());
}

#[test]
fn pass_without_windows_pauses() {
    let (_tx, mut watcher) = running_watcher();
    assert_eq!(pass(&mut watcher, vec![]), vec![Action::Enumerate, pause()]);
    assert_eq!(watcher.processed_count(), 0);
}

#[test]
fn pass_without_match_pauses() {
    let (_tx, mut watcher) = running_watcher();
    let windows = vec![window(1, "Notepad"), window(2, "My Playwright"), untitled(3)];
    assert_eq!(pass(&mut watcher, windows), vec![Action::Enumerate, pause()]);
    assert_eq!(watcher.processed_count(), 0);
}

#[test]
fn matching_window_is_measured_moved_and_recorded() {
    let (_tx, mut watcher) = running_watcher();
    assert_eq!(watcher.step(Event::StopPolled { poll: Poll::Idle }), Action::Enumerate);
    let windows = vec![window(7, "Notepad"), window(42, "PlaywrightTestRunner")];
    assert_eq!(watcher.step(Event::Enumerated { windows }), Action::Measure { handle: 42 });
    assert!(!watcher.is_processed(42));
    assert_eq!(watcher.step(measured(42)), Action::Move { handle: 42, target: placed() });
    assert!(!watcher.is_processed(42));
    assert_eq!(watcher.step(Event::Moved), pause());
    assert!(watcher.is_processed(42));
    assert_eq!(watcher.step(Event::Slept), Action::PollStop);
    assert_eq!(watcher.processed_count(), 1);
    assert!(!watcher.is_processed(7));
}

#[test]
fn move_is_recorded_by_whatever_event_follows_it() {
    let (_tx, mut watcher) = running_watcher();
    assert_eq!(
        watcher.step(Event::Enumerated { windows: vec![window(42, "Playwright")] }),
        Action::Measure { handle: 42 }
    );
    assert_eq!(watcher.step(measured(42)), Action::Move { handle: 42, target: placed() });
    assert_eq!(watcher.step(Event::Slept), Action::PollStop);
    assert!(watcher.is_processed(42));
    assert_eq!(
        pass(&mut watcher, vec![window(42, "Playwright")]),
        vec![Action::Enumerate, pause()]
    );
}

#[test]
fn move_is_recorded_when_the_stop_comes_first() {
    let (_tx, mut watcher) = running_watcher();
    assert_eq!(
        watcher.step(Event::Enumerated { windows: vec![window(42, "Playwright")] }),
        Action::Measure { handle: 42 }
    );
    assert_eq!(watcher.step(measured(42)), Action::Move { handle: 42, target: placed() });
    assert_eq!(watcher.step(Event::StopPolled { poll: Poll::Signalled }), Action::Exit);
    assert!(watcher.is_processed(42));
    assert_eq!(watcher.state(), WatcherState::Stopped);
}

#[test]
fn window_in_flight_is_not_picked_by_a_new_enumeration() {
    let (_tx, mut watcher) = running_watcher();
    assert_eq!(
        watcher.step(Event::Enumerated { windows: vec![window(42, "Playwright")] }),
        Action::Measure { handle: 42 }
    );
    assert_eq!(watcher.step(measured(42)), Action::Move { handle: 42, target: placed() });
    assert_eq!(
        watcher.step(Event::Enumerated { windows: vec![window(42, "Playwright")] }),
        pause()
    );
    assert!(watcher.is_processed(42));
    assert_eq!(watcher.processed_count(), 1);
}

#[test]
fn moved_window_is_not_moved_again_after_title_change() {
    let (_tx, mut watcher) = running_watcher();
    let first = pass(&mut watcher, vec![window(42, "PlaywrightTestRunner")]);
    assert_eq!(
        first,
        vec![
            Action::Enumerate,
            Action::Measure { handle: 42 },
            Action::Move { handle: 42, target: placed() },
            pause(),
        ]
    );
    assert_eq!(watcher.step(Event::Slept), Action::PollStop);
    let second = pass(&mut watcher, vec![window(42, "SomethingElse")]);
    assert_eq!(second, vec![Action::Enumerate, pause()]);
    assert_eq!(watcher.step(Event::Slept), Action::PollStop);
    let third = pass(&mut watcher, vec![window(42, "PlaywrightTestRunner")]);
    assert_eq!(third, vec![Action::Enumerate, pause()]);
    assert!(watcher.is_processed(42));
    assert_eq!(watcher.processed_count(), 1);
}

#[test]
fn repeated_passes_move_a_window_once() {
    let (_tx, mut watcher) = running_watcher();
    let mut moves = 0;
    for _ in 0..5 {
        for action in pass(&mut watcher, vec![window(9, "Playwright Inspector")]) {
            if matches!(action, Action::Move { handle: 9, .. }) {
                moves += 1;
            }
        }
        assert_eq!(watcher.step(Event::Slept), Action::PollStop);
    }
    assert_eq!(moves, 1);
    assert_eq!(watcher.processed_count(), 1);
}

#[test]
fn reused_handle_is_taken_for_the_window_already_moved() {
    let (_tx, mut watcher) = running_watcher();
    pass(&mut watcher, vec![window(42, "Playwright first")]);
    assert_eq!(watcher.step(Event::Slept), Action::PollStop);
    assert_eq!(pass(&mut watcher, vec![window(7, "Notepad")]), vec![Action::Enumerate, pause()]);
    assert_eq!(watcher.step(Event::Slept), Action::PollStop);
    let reused = pass(&mut watcher, vec![window(42, "Playwright second")]);
    assert_eq!(reused, vec![Action::Enumerate, pause()]);
    assert_eq!(watcher.processed_count(), 1);
}

#[test]
fn invisible_window_is_skipped() {
    let (_tx, mut watcher) = running_watcher();
    let windows = vec![hidden(1, "Playwright"), window(2, "Playwright")];
    assert_eq!(
        pass(&mut watcher, windows),
        vec![
            Action::Enumerate,
            Action::Measure { handle: 2 },
            Action::Move { handle: 2, target: placed() },
            pause(),
        ]
    );
    assert!(!watcher.is_processed(1));
    assert!(watcher.is_processed(2));
}

#[test]
fn untitled_window_is_skipped() {
    let (_tx, mut watcher) = running_watcher();
    let windows = vec![untitled(1), window(2, "Playwright")];
    assert_eq!(pass(&mut watcher, windows)[1], Action::Measure { handle: 2 });
}

#[test]
fn only_the_first_match_of_a_pass_is_placed() {
    let (_tx, mut watcher) = running_watcher();
    let windows = vec![window(1, "Playwright A"), window(2, "Playwright B")];
    assert_eq!(
        pass(&mut watcher, windows),
        vec![
            Action::Enumerate,
            Action::Measure { handle: 1 },
            Action::Move { handle: 1, target: placed() },
            pause(),
        ]
    );
    assert!(watcher.is_processed(1));
    assert!(!watcher.is_processed(2));
}

#[test]
fn pass_ends_at_the_first_match_even_when_it_was_handled() {
    let (_tx, mut watcher) = running_watcher();
    pass(&mut watcher, vec![window(1, "Playwright A"), window(2, "Playwright B")]);
    assert_eq!(watcher.step(Event::Slept), Action::PollStop);
    let again = pass(&mut watcher, vec![window(1, "Playwright A"), window(2, "Playwright B")]);
    assert_eq!(again, vec![Action::Enumerate, pause()]);
    assert!(!watcher.is_processed(2));
}

#[test]
fn second_match_is_placed_once_it_comes_first() {
    let (_tx, mut watcher) = running_watcher();
    pass(&mut watcher, vec![window(1, "Playwright A"), window(2, "Playwright B")]);
    assert_eq!(watcher.step(Event::Slept), Action::PollStop);
    let later = pass(&mut watcher, vec![window(2, "Playwright B"), window(1, "Playwright A")]);
    assert_eq!(later[1], Action::Measure { handle: 2 });
    assert!(watcher.is_processed(1));
    assert!(watcher.is_processed(2));
    assert_eq!(watcher.processed_count(), 2);
}

#[test]
fn measurement_nobody_asked_for_is_ignored() {
    let (_tx, mut watcher) = running_watcher();
    assert_eq!(watcher.step(measured(42)), pause());
    assert!(!watcher.is_processed(42));
    assert_eq!(watcher.processed_count(), 0);
}

#[test]
fn measurement_of_another_window_is_ignored() {
    let (_tx, mut watcher) = running_watcher();
    assert_eq!(
        watcher.step(Event::Enumerated { windows: vec![window(42, "Playwright")] }),
        Action::Measure { handle: 42 }
    );
    assert_eq!(watcher.step(measured(43)), pause());
    assert!(!watcher.is_processed(42));
    assert!(!watcher.is_processed(43));
    assert_eq!(watcher.step(measured(42)), pause());
    assert!(!watcher.is_processed(42));
}

#[test]
fn measurement_must_follow_its_enumeration() {
    let (_tx, mut watcher) = running_watcher();
    assert_eq!(
        watcher.step(Event::Enumerated { windows: vec![window(42, "Playwright")] }),
        Action::Measure { handle: 42 }
    );
    assert_eq!(watcher.step(Event::Slept), Action::PollStop);
    assert_eq!(watcher.step(measured(42)), pause());
    assert!(!watcher.is_processed(42));
}

#[test]
fn measurement_reported_twice_moves_once() {
    let (_tx, mut watcher) = running_watcher();
    assert_eq!(
        watcher.step(Event::Enumerated { windows: vec![window(42, "Playwright")] }),
        Action::Measure { handle: 42 }
    );
    assert_eq!(watcher.step(measured(42)), Action::Move { handle: 42, target: placed() });
    assert_eq!(watcher.step(measured(42)), pause());
    assert!(watcher.is_processed(42));
    assert_eq!(watcher.processed_count(), 1);
    assert_eq!(watcher.step(measured(42)), pause());
    assert_eq!(watcher.processed_count(), 1);
}

#[test]
fn window_that_cannot_be_placed_is_recorded_without_a_move() {
    let (_tx, mut watcher) = running_watcher();
    assert_eq!(
        watcher.step(Event::Enumerated { windows: vec![window(42, "Playwright")] }),
        Action::Measure { handle: 42 }
    );
    let unplaceable = Event::Measured {
        handle: 42,
        window: Rect { left: i32::MIN, top: 0, right: i32::MAX, bottom: 10 },
        work_area: work_area(),
        screen_width: 1920,
    };
    assert_eq!(watcher.step(unplaceable), pause());
    assert!(watcher.is_processed(42));
    assert_eq!(watcher.step(Event::Slept), Action::PollStop);
    assert_eq!(
        pass(&mut watcher, vec![window(42, "Playwright")]),
        vec![Action::Enumerate, pause()]
    );
}

#[test]
fn window_whose_target_is_too_tall_to_move_is_recorded_without_a_move() {
    let (_tx, mut watcher) = running_watcher();
    assert_eq!(
        watcher.step(Event::Enumerated { windows: vec![window(42, "Playwright")] }),
        Action::Measure { handle: 42 }
    );
    let too_tall = Event::Measured {
        handle: 42,
        window: Rect { left: 0, top: 0, right: 100, bottom: 100 },
        work_area: Rect { left: 0, top: i32::MIN, right: 1920, bottom: i32::MAX },
        screen_width: 1920,
    };
    assert_eq!(watcher.step(too_tall), pause());
    assert!(watcher.is_processed(42));
}

#[test]
fn unreadable_rectangle_is_placed_as_zero_rectangle() {
    let (_tx, mut watcher) = running_watcher();
    assert_eq!(
        watcher.step(Event::Enumerated { windows: vec![window(42, "Playwright")] }),
        Action::Measure { handle: 42 }
    );
    let event = Event::Measured {
        handle: 42,
        window: Rect::zero(),
        work_area: work_area(),
        screen_width: 1920,
    };
    assert_eq!(
        watcher.step(event),
        Action::Move {
            handle: 42,
            target: Rect { left: 1920, top: 0, right: 1920, bottom: 1040 },
        }
    );
}

#[test]
fn watcher_sees_the_stop_request_of_its_signal() {
    let (tx, watcher) = running_watcher();
    assert_eq!(watcher.poll_stop(), Poll::Idle);
    assert!(tx.request_stop());
    assert_eq!(watcher.poll_stop(), Poll::Signalled);
    assert_eq!(watcher.poll_stop(), Poll::Idle);
    drop(tx);
    assert_eq!(watcher.poll_stop(), Poll::Disconnected);
}

#[test]
fn polled_stop_request_drives_the_watcher_to_exit() {
    let (tx, mut watcher) = running_watcher();
    tx.request_stop();
    let poll = watcher.poll_stop();
    assert_eq!(watcher.step(Event::StopPolled { poll }), Action::Exit);
    assert_eq!(watcher.state(), WatcherState::Stopped);
}

#[test]
fn select_window_picks_first_eligible_unprocessed() {
    let processed = HashSet::new();
    let windows = vec![
        window(1, "Notepad"),
        hidden(2, "Playwright"),
        untitled(3),
        window(4, "Playwright"),
        window(5, "Playwright"),
    ];
    assert_eq!(select_window(&windows, &processed), Some(4));
}

#[test]
fn select_window_yields_nothing_when_first_eligible_was_processed() {
    let mut processed = HashSet::new();
    processed.insert(4);
    let windows = vec![window(1, "Notepad"), window(4, "Playwright"), window(5, "Playwright")];
    assert_eq!(select_window(&windows, &processed), None);
}

#[test]
fn select_window_yields_nothing_without_eligible_window() {
    let processed = HashSet::new();
    assert_eq!(select_window(&vec![], &processed), None);
    assert_eq!(select_window(&vec![window(1, "Notepad"), untitled(2)], &processed), None);
}

#[test]
fn window_eligibility() {
    assert!(window(1, "PlaywrightTestRunner").is_eligible());
    assert!(!window(1, "SomethingElse").is_eligible());
    assert!(!hidden(1, "PlaywrightTestRunner").is_eligible());
    assert!(!untitled(1).is_eligible());
}
