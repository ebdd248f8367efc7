use focus_timer::state::{apply, step, tick, Command, TimerState, Transition};

fn running(started_at_ms: u64, duration_secs: u64) -> TimerState {
    TimerState::Running { started_at_ms, duration_secs }
}

#[test]
fn quit_signals_termination_from_any_state() {
    for s in [TimerState::Idle, running(500, 10), TimerState::Finished] {
        let t = apply(s, &Command::Quit, 1_000);
        assert!(t.quit);
        assert_eq!(t.next, s);
        assert!(!t.clear_input);
    }
}

#[test]
fn only_quit_signals_termination() {
    assert!(!apply(TimerState::Idle, &Command::Reset, 0).quit);
    assert!(!apply(TimerState::Idle, &Command::Noop, 0).quit);
    assert!(!apply(TimerState::Idle, &Command::SubmitDuration("5".to_string()), 0).quit);
}

#[test]
fn submit_valid_starts_running_and_clears_input() {
    for s in [TimerState::Idle, running(1, 2), TimerState::Finished] {
        let t = apply(s, &Command::SubmitDuration("25".to_string()), 7_000);
        assert_eq!(
            t,
            Transition { next: running(7_000, 25), quit: false, clear_input: true }
        );
    }
}

#[test]
fn submit_accepts_surrounding_whitespace_and_plus() {
    let t = apply(TimerState::Idle, &Command::SubmitDuration(" 90 ".to_string()), 3);
    assert_eq!(t.next, running(3, 90));
    assert!(t.clear_input);

    let t = apply(TimerState::Idle, &Command::SubmitDuration("+7".to_string()), 3);
    assert_eq!(t.next, running(3, 7));
    assert!(t.clear_input);

    let t = apply(TimerState::Idle, &Command::SubmitDuration("\t0\n".to_string()), 3);
    assert_eq!(t.next, running(3, 0));
    assert!(t.clear_input);
}

#[test]
fn submit_accepts_u64_max_but_not_more() {
    let t = apply(
        TimerState::Idle,
        &Command::SubmitDuration("18446744073709551615".to_string()),
        0,
    );
    assert_eq!(t.next, running(0, u64::MAX));

    let t = apply(
        TimerState::Idle,
        &Command::SubmitDuration("18446744073709551616".to_string()),
        0,
    );
    assert_eq!(t.next, TimerState::Idle);
    assert!(!t.clear_input);
}

#[test]
fn submit_malformed_is_silently_ignored() {
    let malformed = ["", "-3", "12.5", "abc", " ", "+", "2 5", "12a", "1e3"];
    for s in [TimerState::Idle, running(10, 20), TimerState::Finished] {
        for text in malformed {
            let t = apply(s, &Command::SubmitDuration(text.to_string()), 99);
            assert_eq!(
                t,
                Transition { next: s, quit: false, clear_input: false },
                "text {:?} should be rejected",
                text
            );
        }
    }
}

#[test]
fn reset_reaches_idle_and_is_idempotent() {
    for s in [TimerState::Idle, running(4, 4), TimerState::Finished] {
        let once = apply(s, &Command::Reset, 42).next;
        assert_eq!(once, TimerState::Idle);
        let twice = apply(once, &Command::Reset, 42).next;
        assert_eq!(twice, TimerState::Idle);
    }
}

#[test]
fn noop_changes_nothing() {
    for s in [TimerState::Idle, running(4, 4), TimerState::Finished] {
        let t = apply(s, &Command::Noop, 123);
        assert_eq!(t, Transition { next: s, quit: false, clear_input: false });
    }
}

#[test]
fn tick_finishes_exactly_at_the_boundary() {
    let s = running(1_000, 5);
    // 4.999 s elapsed: still running.
    assert_eq!(tick(s, 5_999), s);
    // 5.000 s elapsed: finished, not strictly-greater-only.
    assert_eq!(tick(s, 6_000), TimerState::Finished);
    assert_eq!(tick(s, 6_001), TimerState::Finished);
}

#[test]
fn tick_zero_duration_finishes_immediately() {
    let s = running(500, 0);
    assert_eq!(tick(s, 500), TimerState::Finished);
}

#[test]
fn tick_leaves_idle_and_finished_alone() {
    assert_eq!(tick(TimerState::Idle, 9_999), TimerState::Idle);
    assert_eq!(tick(TimerState::Finished, 9_999), TimerState::Finished);
}

#[test]
fn tick_clamps_a_clock_reading_before_the_start() {
    let s = running(5_000, 1);
    assert_eq!(tick(s, 0), s);
}

#[test]
fn expiry_is_monotonic() {
    let s = running(0, 2);
    assert_eq!(tick(s, 2_000), TimerState::Finished);
    for now in [2_001, 3_000, 1_000_000] {
        assert_eq!(tick(s, now), TimerState::Finished);
    }
}

#[test]
fn step_applies_then_ticks() {
    // A zero-second submission is running for no time at all: the expiry
    // check of the same iteration already finishes it.
    let t = step(TimerState::Idle, &Command::SubmitDuration("0".to_string()), 100);
    assert_eq!(t.next, TimerState::Finished);
    assert!(t.clear_input);
    assert!(!t.quit);

    let t = step(TimerState::Idle, &Command::SubmitDuration("5".to_string()), 100);
    assert_eq!(t.next, running(100, 5));
}
