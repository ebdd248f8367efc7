//! The input router: turns one decoded keyboard event into a command. The
//! editing widget sees every event first; a key it consumed is never also
//! interpreted as a binding.

use vstd::prelude::*;
use crate::state::Command;

verus! {

/// One decoded keyboard event, as far as the router reads it: a printable
/// character, the commit key, or anything else.
#[derive(Clone, Copy, Debug, PartialEq, Eq, Structural)]
pub enum Key {
    Char(char),
    Enter,
    Other,
}

/// Routes one keyboard event. `consumed` reports whether the editing
/// widget took the event as an editing keystroke; such an event is never
/// also a binding. Otherwise `q` quits, the commit key submits the input
/// buffer's text, `r` resets, and every other key does nothing.
pub fn route(consumed: bool, key: Key, input_text: &str) -> (c: Command)
    ensures
        consumed ==> c is Noop,
        !consumed && key == Key::Char('q') ==> c is Quit,
        !consumed && key is Enter ==> (c matches Command::SubmitDuration(t) && t@ == input_text@),
        !consumed && key == Key::Char('r') ==> c is Reset,
        !consumed && key is Other ==> c is Noop,
        !consumed ==> (key matches Key::Char(ch) && ch != 'q' && ch != 'r' ==> c is Noop),
{
    if consumed {
        Command::Noop
    } else {
        match key {
            Key::Char(ch) => {
                if ch == 'q' {
                    Command::Quit
                } else if ch == 'r' {
                    Command::Reset
                } else {
                    Command::Noop
                }
            },
            Key::Enter => Command::SubmitDuration(input_text.to_owned()),
            Key::Other => Command::Noop,
        }
    }
}

} // verus!
