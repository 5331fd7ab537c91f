//! Core logic of an interactive serial-terminal session: rendering inbound
//! device bytes, cycling through the baud-rate ladder, classifying keyboard
//! input, and the mode state machine that dispatches commands.
//!
//! All I/O (the serial port, the terminal, the input thread) lives outside
//! this crate; the functions here decide, from plain values, what that I/O
//! layer must do next.

pub mod baud;
pub mod hex;
pub mod input;
pub mod render;
pub mod session;
pub mod text;

use vstd::prelude::*;

verus! {

/// A named keystroke macro, loaded once at startup from the optional macro
/// file. The session core only carries these; reading and parsing the file
/// is the I/O layer's work.
pub struct Macro {
    pub name: String,
    pub content: String,
}

} // verus!
