//! The timer state machine: states, commands, the transition function
//! `apply`, and the time-driven expiry check `tick`.

use vstd::prelude::*;
use crate::parse::{parse_duration, parse_duration_spec};

verus! {

/// The lifecycle of the countdown. Exactly one variant holds at a time;
/// the start instant and the duration exist only while `Running`.
///
/// Instants are whole milliseconds on a monotonic clock; the duration is
/// the whole number of seconds the user asked for.
#[derive(Clone, Copy, Debug, PartialEq, Eq, Structural)]
pub enum TimerState {
    Idle,
    Running { started_at_ms: u64, duration_secs: u64 },
    Finished,
}

/// Milliseconds elapsed between the captured start instant and `now_ms`,
/// clamped at zero should the clock ever read earlier than the start.
pub open spec fn elapsed_ms(started_at_ms: u64, now_ms: u64) -> int {
    if now_ms >= started_at_ms {
        now_ms - started_at_ms
    } else {
        0
    }
}

/// A running countdown has expired exactly when the elapsed time has
/// reached the duration: at the boundary itself, not strictly beyond it.
pub open spec fn expired(started_at_ms: u64, duration_secs: u64, now_ms: u64) -> bool {
    elapsed_ms(started_at_ms, now_ms) >= duration_secs * 1000
}

/// The time-driven transition, re-evaluated on every loop iteration:
/// `Running` becomes `Finished` once expired; every other state, and a
/// still-running countdown, is left unchanged.
pub open spec fn spec_tick(s: TimerState, now_ms: u64) -> TimerState {
    match s {
        TimerState::Running { started_at_ms, duration_secs } => {
            if expired(started_at_ms, duration_secs, now_ms) {
                TimerState::Finished
            } else {
                s
            }
        },
        _ => s,
    }
}

/// Applies the expiry check to a state.
pub fn tick(s: TimerState, now_ms: u64) -> (t: TimerState)
    ensures
        t == spec_tick(s, now_ms),
{
    match s {
        TimerState::Running { started_at_ms, duration_secs } => {
            let elapsed: u64 = if now_ms >= started_at_ms {
                now_ms - started_at_ms
            } else {
                0
            };
            assert(elapsed / 1000 >= duration_secs <==> elapsed >= duration_secs * 1000)
                by (nonlinear_arith);
            if elapsed / 1000 >= duration_secs {
                TimerState::Finished
            } else {
                s
            }
        },
        _ => s,
    }
}

/// What the input router hands the state machine each iteration: produced
/// from one keyboard event, consumed in the same iteration.
#[derive(Debug)]
pub enum Command {
    /// Leave the event loop.
    Quit,
    /// The commit key was pressed: start a countdown from the submitted text.
    SubmitDuration(String),
    /// Return to `Idle`, whatever the current state.
    Reset,
    /// Nothing to do: the event was consumed by the editing widget or is
    /// not bound to anything.
    Noop,
}

/// The outcome of applying one command: the next state, whether the event
/// loop should terminate, and whether the input buffer is to be cleared.
#[derive(Clone, Copy, Debug, PartialEq, Eq, Structural)]
pub struct Transition {
    pub next: TimerState,
    pub quit: bool,
    pub clear_input: bool,
}

/// The command-driven transition. `Quit` only signals termination; `Reset`
/// returns to `Idle` from any state; a submission that parses starts a
/// countdown at `now_ms` and clears the input buffer; one that does not
/// parse is silently ignored — the state and the buffer are left alone.
pub open spec fn spec_apply(s: TimerState, c: Command, now_ms: u64) -> Transition {
    match c {
        Command::Quit => Transition { next: s, quit: true, clear_input: false },
        Command::Reset => Transition { next: TimerState::Idle, quit: false, clear_input: false },
        Command::SubmitDuration(text) => match parse_duration_spec(text@) {
            Some(n) => Transition {
                next: TimerState::Running { started_at_ms: now_ms, duration_secs: n },
                quit: false,
                clear_input: true,
            },
            None => Transition { next: s, quit: false, clear_input: false },
        },
        Command::Noop => Transition { next: s, quit: false, clear_input: false },
    }
}

/// Applies one command to the current state.
pub fn apply(s: TimerState, c: &Command, now_ms: u64) -> (t: Transition)
    ensures
        t == spec_apply(s, *c, now_ms),
{
    match c {
        Command::Quit => Transition { next: s, quit: true, clear_input: false },
        Command::Reset => Transition { next: TimerState::Idle, quit: false, clear_input: false },
        Command::SubmitDuration(text) => match parse_duration(text.as_str()) {
            Some(n) => Transition {
                next: TimerState::Running { started_at_ms: now_ms, duration_secs: n },
                quit: false,
                clear_input: true,
            },
            None => Transition { next: s, quit: false, clear_input: false },
        },
        Command::Noop => Transition { next: s, quit: false, clear_input: false },
    }
}

/// One full update of an event-loop iteration: the command is applied
/// first, then the expiry check runs on whatever state that produced.
pub fn step(s: TimerState, c: &Command, now_ms: u64) -> (t: Transition)
    ensures
        t.next == spec_tick(spec_apply(s, *c, now_ms).next, now_ms),
        t.quit == spec_apply(s, *c, now_ms).quit,
        t.clear_input == spec_apply(s, *c, now_ms).clear_input,
{
    let applied = apply(s, c, now_ms);
    Transition { next: tick(applied.next, now_ms), quit: applied.quit, clear_input: applied.clear_input }
}

/// `Quit`, and `Quit` alone, signals termination — whatever the state.
pub proof fn lemma_quit_signals_termination(s: TimerState, c: Command, now_ms: u64)
    ensures
        spec_apply(s, c, now_ms).quit <==> c is Quit,
{
}

/// A submission that parses to `n` seconds starts a countdown at `now_ms`
/// from any state, and asks for the input buffer to be cleared.
pub proof fn lemma_submit_starts_countdown(s: TimerState, text: String, n: u64, now_ms: u64)
    requires
        parse_duration_spec(text@) == Some(n),
    ensures
        spec_apply(s, Command::SubmitDuration(text), now_ms) == (Transition {
            next: TimerState::Running { started_at_ms: now_ms, duration_secs: n },
            quit: false,
            clear_input: true,
        }),
{
}

/// A submission that does not parse changes nothing: the state stays as it
/// was and the input buffer is not cleared.
pub proof fn lemma_submit_malformed_ignored(s: TimerState, text: String, now_ms: u64)
    requires
        parse_duration_spec(text@) is None,
    ensures
        spec_apply(s, Command::SubmitDuration(text), now_ms) == (Transition {
            next: s,
            quit: false,
            clear_input: false,
        }),
{
}

/// `Reset` is idempotent: from any state, one reset reaches `Idle` and a
/// second reset leaves it there.
pub proof fn lemma_reset_idempotent(s: TimerState, now_ms: u64)
    ensures
        spec_apply(s, Command::Reset, now_ms).next == TimerState::Idle,
        spec_apply(spec_apply(s, Command::Reset, now_ms).next, Command::Reset, now_ms).next
            == TimerState::Idle,
{
}

/// Expiry is monotonic in time: once a tick would finish a countdown, every
/// later tick would finish it too — a `Running` state is never resurrected.
pub proof fn lemma_tick_monotonic(s: TimerState, now1_ms: u64, now2_ms: u64)
    requires
        now1_ms <= now2_ms,
        spec_tick(s, now1_ms) == TimerState::Finished,
    ensures
        spec_tick(s, now2_ms) == TimerState::Finished,
{
}

/// The boundary is exact: a running countdown finishes on the tick whose
/// elapsed time is at least the duration, and on no earlier one.
pub proof fn lemma_tick_boundary(started_at_ms: u64, duration_secs: u64, now_ms: u64)
    ensures
        spec_tick(TimerState::Running { started_at_ms, duration_secs }, now_ms)
            == TimerState::Finished
            <==> elapsed_ms(started_at_ms, now_ms) >= duration_secs * 1000,
{
}

} // verus!
