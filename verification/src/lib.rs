//! Core logic of a single-screen countdown timer: the timer state machine,
//! the keyboard-command router, duration-text parsing, and the derivation of
//! the render model from the current state. Terminal I/O and the text-editing
//! widget live outside this crate; the logic here is pure and fully specified.

pub mod digits;
pub mod parse;
pub mod router;
pub mod state;
pub mod view;
