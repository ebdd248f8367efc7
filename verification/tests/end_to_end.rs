use focus_timer::router::{route, Key};
use focus_timer::state::{step, Command, TimerState};
use focus_timer::view::{project, Emphasis};

/// A stand-in for the editing widget: the core only ever reads its full
/// contents and clears them.
struct Buffer {
    contents: String,
}

impl Buffer {
    fn type_text(&mut self, text: &str) {
        self.contents.push_str(text);
    }
}

/// One loop iteration: route the event, apply the command, run the expiry
/// check, honour the clear-input effect. Returns whether to keep looping.
fn iterate(state: &mut TimerState, buffer: &mut Buffer, consumed: bool, key: Key, now_ms: u64) -> bool {
    let command = route(consumed, key, &buffer.contents);
    let t = step(*state, &command, now_ms);
    *state = t.next;
    if t.clear_input {
        buffer.contents.clear();
    }
    !t.quit
}

#[test]
fn typing_five_and_submitting_runs_to_the_alert() {
    let mut state = TimerState::Idle;
    let mut buffer = Buffer { contents: String::new() };
    let start: u64 = 40_000;

    // The user types "5": the widget consumes the keystroke.
    buffer.type_text("5");
    assert!(iterate(&mut state, &mut buffer, true, Key::Char('5'), start - 10));
    assert_eq!(state, TimerState::Idle);
    assert_eq!(buffer.contents, "5");

    // Enter at time T: a five-second countdown starts and the buffer clears.
    assert!(iterate(&mut state, &mut buffer, false, Key::Enter, start));
    assert_eq!(
        state,
        TimerState::Running { started_at_ms: start, duration_secs: 5 }
    );
    assert_eq!(buffer.contents, "");

    // Just before T + 5 s the countdown is still running.
    assert!(iterate(&mut state, &mut buffer, false, Key::Other, start + 4_999));
    assert!(matches!(state, TimerState::Running { .. }));

    // At exactly T + 5 s the tick finishes it and the view shows the alert.
    assert!(iterate(&mut state, &mut buffer, false, Key::Other, start + 5_000));
    assert_eq!(state, TimerState::Finished);
    let m = project(state, start + 5_000);
    assert_eq!(m.regions[1].text, "Time's up! Press 'r' to reset");
    assert_eq!(m.regions[1].emphasis, Emphasis::Alert);

    // 'r' at any later time returns to Idle; the buffer stays empty.
    assert!(iterate(&mut state, &mut buffer, false, Key::Char('r'), start + 60_000));
    assert_eq!(state, TimerState::Idle);
    assert_eq!(buffer.contents, "");

    // 'q' ends the loop.
    assert!(!iterate(&mut state, &mut buffer, false, Key::Char('q'), start + 61_000));
}

#[test]
fn a_malformed_submission_leaves_the_buffer_as_typed() {
    let mut state = TimerState::Idle;
    let mut buffer = Buffer { contents: String::new() };

    buffer.type_text("12.5");
    assert!(iterate(&mut state, &mut buffer, false, Key::Enter, 1_000));
    assert_eq!(state, TimerState::Idle);
    assert_eq!(buffer.contents, "12.5", "a rejected submission is not cleared");
}

#[test]
fn resubmitting_while_running_restarts_the_countdown() {
    let mut state = TimerState::Idle;
    let mut buffer = Buffer { contents: String::new() };

    buffer.type_text("5");
    assert!(iterate(&mut state, &mut buffer, false, Key::Enter, 1_000));
    buffer.type_text("90");
    assert!(iterate(&mut state, &mut buffer, false, Key::Enter, 3_000));
    assert_eq!(
        state,
        TimerState::Running { started_at_ms: 3_000, duration_secs: 90 }
    );
    assert_eq!(buffer.contents, "");
}
