//! The view projector: a pure derivation of the renderable regions from
//! the current timer state, including the `MM:SS` formatting of the time
//! remaining.

use vstd::prelude::*;
use vstd::string::StringExecFns;
use crate::digits::{dec_rep, digit_char};
use crate::state::{elapsed_ms, TimerState};

verus! {

/// How a rendered region is to be emphasised.
#[derive(Clone, Copy, Debug, PartialEq, Eq, Structural)]
pub enum Emphasis {
    Neutral,
    Success,
    Alert,
}

/// One renderable text region.
#[derive(Debug)]
pub struct Region {
    pub text: String,
    pub emphasis: Emphasis,
}

/// What one frame shows, in order: the prompt region, then the timer
/// region. The input region is the editing widget's own representation and
/// is appended by the caller.
#[derive(Debug)]
pub struct RenderModel {
    pub regions: Vec<Region>,
}

/// Milliseconds left on a countdown, clamped at zero.
pub open spec fn remaining_ms(started_at_ms: u64, duration_secs: u64, now_ms: u64) -> int {
    let e = elapsed_ms(started_at_ms, now_ms);
    if e >= duration_secs * 1000 {
        0
    } else {
        duration_secs * 1000 - e
    }
}

/// Whole seconds left on a countdown, rounded down, clamped at zero.
pub open spec fn remaining_secs(started_at_ms: u64, duration_secs: u64, now_ms: u64) -> int {
    remaining_ms(started_at_ms, duration_secs, now_ms) / 1000
}

/// Computes the whole seconds left on a countdown.
pub fn remaining_secs_at(started_at_ms: u64, duration_secs: u64, now_ms: u64) -> (r: u64)
    ensures
        r == remaining_secs(started_at_ms, duration_secs, now_ms),
{
    let e: u64 = if now_ms >= started_at_ms {
        now_ms - started_at_ms
    } else {
        0
    };
    let q: u64 = e / 1000;
    let rem: u64 = e % 1000;
    if q >= duration_secs {
        proof {
            assert(e >= duration_secs * 1000) by (nonlinear_arith)
                requires
                    e / 1000 >= duration_secs,
                    e == elapsed_ms(started_at_ms, now_ms),
                    e >= 0,
            ;
        }
        0
    } else if rem == 0 {
        proof {
            assert((duration_secs * 1000 - e) / 1000 == duration_secs - e / 1000)
                by (nonlinear_arith)
                requires
                    e % 1000 == 0,
                    e / 1000 < duration_secs,
                    e >= 0,
            ;
        }
        duration_secs - q
    } else {
        proof {
            assert((duration_secs * 1000 - e) / 1000 == duration_secs - e / 1000 - 1)
                by (nonlinear_arith)
                requires
                    e % 1000 != 0,
                    e / 1000 < duration_secs,
                    e >= 0,
            ;
        }
        duration_secs - q - 1
    }
}

/// A number below one hundred as two digits; a larger number in full.
pub open spec fn pad2(n: int) -> Seq<char> {
    if n < 10 {
        seq!['0'] + dec_rep(n)
    } else {
        dec_rep(n)
    }
}

/// Minutes and seconds of a whole-second count, zero-padded to two digits
/// each and separated by a colon.
pub open spec fn mmss(total_secs: int) -> Seq<char> {
    pad2(total_secs / 60) + seq![':'] + pad2(total_secs % 60)
}

fn digit_str(d: u64) -> (r: &'static str)
    requires
        d < 10,
    ensures
        r@ == seq![digit_char(d as int)],
{
    if d == 0 {
        proof {
            reveal_strlit("0");
            assert("0"@ =~= seq![digit_char(0)]);
        }
        "0"
    } else if d == 1 {
        proof {
            reveal_strlit("1");
            assert("1"@ =~= seq![digit_char(1)]);
        }
        "1"
    } else if d == 2 {
        proof {
            reveal_strlit("2");
            assert("2"@ =~= seq![digit_char(2)]);
        }
        "2"
    } else if d == 3 {
        proof {
            reveal_strlit("3");
            assert("3"@ =~= seq![digit_char(3)]);
        }
        "3"
    } else if d == 4 {
        proof {
            reveal_strlit("4");
            assert("4"@ =~= seq![digit_char(4)]);
        }
        "4"
    } else if d == 5 {
        proof {
            reveal_strlit("5");
            assert("5"@ =~= seq![digit_char(5)]);
        }
        "5"
    } else if d == 6 {
        proof {
            reveal_strlit("6");
            assert("6"@ =~= seq![digit_char(6)]);
        }
        "6"
    } else if d == 7 {
        proof {
            reveal_strlit("7");
            assert("7"@ =~= seq![digit_char(7)]);
        }
        "7"
    } else if d == 8 {
        proof {
            reveal_strlit("8");
            assert("8"@ =~= seq![digit_char(8)]);
        }
        "8"
    } else {
        proof {
            reveal_strlit("9");
            assert("9"@ =~= seq![digit_char(9)]);
        }
        "9"
    }
}

/// The decimal text of `n`, most significant digit first.
pub fn dec_string(n: u64) -> (r: String)
    ensures
        r@ == dec_rep(n as int),
    decreases n,
{
    if n < 10 {
        digit_str(n).to_owned()
    } else {
        assert(n / 10 < n);
        let mut s = dec_string(n / 10);
        s.append(digit_str(n % 10));
        proof {
            assert(dec_rep((n / 10) as int) + seq![digit_char((n % 10) as int)] =~= dec_rep(
                n as int,
            ));
        }
        s
    }
}

/// The decimal text of `n`, zero-padded to at least two digits.
pub fn pad2_string(n: u64) -> (r: String)
    ensures
        r@ == pad2(n as int),
{
    if n < 10 {
        let mut s = "0".to_owned();
        proof {
            reveal_strlit("0");
            assert("0"@ =~= seq!['0']);
        }
        s.append(digit_str(n));
        s
    } else {
        dec_string(n)
    }
}

/// Renders a whole-second count as zero-padded minutes and seconds.
pub fn format_mm_ss(total_secs: u64) -> (r: String)
    ensures
        r@ == mmss(total_secs as int),
{
    let mut s = pad2_string(total_secs / 60);
    s.append(":");
    proof {
        reveal_strlit(":");
        assert(":"@ =~= seq![':']);
    }
    let rest = pad2_string(total_secs % 60);
    s.append(rest.as_str());
    s
}

/// The static prompt shown above the timer.
pub open spec fn prompt_text() -> Seq<char> {
    "How long would you like to focus?"@
}

/// The timer region's text for a state: an invitation while idle, the time
/// remaining while running, the alert once finished.
pub open spec fn timer_text(s: TimerState, now_ms: u64) -> Seq<char> {
    match s {
        TimerState::Idle => "Ready to start..."@,
        TimerState::Running { started_at_ms, duration_secs } => "Time remaining: "@ + mmss(
            remaining_secs(started_at_ms, duration_secs, now_ms),
        ),
        TimerState::Finished => "Time's up! Press 'r' to reset"@,
    }
}

/// The timer region's emphasis for a state.
pub open spec fn timer_emphasis(s: TimerState) -> Emphasis {
    match s {
        TimerState::Idle => Emphasis::Neutral,
        TimerState::Running { .. } => Emphasis::Success,
        TimerState::Finished => Emphasis::Alert,
    }
}

/// Derives the renderable regions from the current state. Pure: it neither
/// mutates nor depends on anything but its arguments.
pub fn project(s: TimerState, now_ms: u64) -> (m: RenderModel)
    ensures
        m.regions@.len() == 2,
        m.regions@[0].text@ == prompt_text(),
        m.regions@[0].emphasis == Emphasis::Neutral,
        m.regions@[1].text@ == timer_text(s, now_ms),
        m.regions@[1].emphasis == timer_emphasis(s),
{
    let mut regions: Vec<Region> = Vec::new();
    regions.push(
        Region { text: "How long would you like to focus?".to_owned(), emphasis: Emphasis::Neutral },
    );
    let timer_region: Region = match s {
        TimerState::Idle => Region {
            text: "Ready to start...".to_owned(),
            emphasis: Emphasis::Neutral,
        },
        TimerState::Running { started_at_ms, duration_secs } => {
            let rem: u64 = remaining_secs_at(started_at_ms, duration_secs, now_ms);
            let mut text = "Time remaining: ".to_owned();
            let clock = format_mm_ss(rem);
            text.append(clock.as_str());
            Region { text, emphasis: Emphasis::Success }
        },
        TimerState::Finished => Region {
            text: "Time's up! Press 'r' to reset".to_owned(),
            emphasis: Emphasis::Alert,
        },
    };
    regions.push(timer_region);
    RenderModel { regions }
}

} // verus!
