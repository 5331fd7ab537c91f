//! Session coordinator state and dispatch.
//!
//! The session holds the mode state machine (I/O pass-through, command,
//! hex-threshold entry), the baud ladder, the hex threshold and the pending
//! hex buffer. Each logical input character dispatched under the current
//! mode yields the next state plus one action for the I/O layer to perform;
//! each device-read outcome yields a display or control decision. The I/O
//! layer around this crate runs the poll loop, performs the actions, and
//! hands events back as plain values.

use vstd::prelude::*;
use crate::baud::BaudLadder;
use crate::baud::dec_index;
use crate::baud::inc_index;
use crate::baud::ladder;
use crate::hex::all_hex;
use crate::hex::hex_byte;
use crate::hex::parse_hex_byte;
use crate::render::render;
use crate::render::render_batch;

verus! {

/// The single arbiter of how a received input character is interpreted.
#[derive(Clone, Copy, PartialEq, Eq, Structural, Debug)]
pub enum SessionMode {
    /// Raw pass-through: characters go to the device verbatim.
    Io,
    /// The next character is exactly one command.
    Command,
    /// Characters accumulate in the pending hex buffer until return.
    HexEntry,
}

/// What the I/O layer must do after one dispatched input character.
#[derive(Clone, Copy, PartialEq, Eq, Structural, Debug)]
pub enum Action {
    /// Nothing to do.
    Idle,
    /// Write this byte to the device.
    Forward(u8),
    /// Terminate the session loop.
    Quit,
    /// Apply this baud rate to the device and print its status line.
    ApplyBaud(u32),
    /// Print the help text.
    Help,
    /// Print the hex-entry prompt.
    BeginHex,
    /// Echo this typed character to the screen.
    EchoHex(char),
    /// The threshold was set to this byte; print the closing line break.
    CommitHex(u8),
    /// The committed entry was not a valid hex byte; report it, threshold
    /// unchanged.
    RejectHex,
}

/// Outcome of one bounded device read, as plain values.
#[derive(Debug)]
pub enum ReadOutcome {
    /// The device produced this batch of bytes.
    Data(Vec<u8>),
    /// No data ready: a normal, frequent non-error.
    TimedOut,
    /// A spurious, recoverable read failure.
    Failed,
    /// The device is gone (disconnect, broken pipe).
    Gone,
}

/// The coordinator's decision on one device-read outcome.
#[derive(Debug)]
pub enum ReadAction {
    /// Flush these rendered bytes to the display.
    Display(Vec<u8>),
    /// Nothing ready; poll again after the fixed sleep.
    Wait,
    /// Report a recoverable error on the diagnostic stream and go on.
    Report,
    /// Fatal: stop the session.
    Stop,
}

/// Mode after one dispatched character: in I/O mode nothing moves; command
/// mode is non-sticky except for hex-entry-begin; hex entry ends on return.
pub open spec fn next_mode(m: SessionMode, key: char) -> SessionMode {
    match m {
        SessionMode::Io => SessionMode::Io,
        SessionMode::Command => if key == 'x' {
            SessionMode::HexEntry
        } else {
            SessionMode::Io
        },
        SessionMode::HexEntry => if key == '\r' {
            SessionMode::Io
        } else {
            SessionMode::HexEntry
        },
    }
}

/// Pending hex buffer after one dispatched character: reset on entering hex
/// entry and on commit, extended by every other character typed there.
pub open spec fn next_pending(m: SessionMode, pending: Seq<char>, key: char) -> Seq<char> {
    match m {
        SessionMode::Io => pending,
        SessionMode::Command => if key == 'x' {
            Seq::empty()
        } else {
            pending
        },
        SessionMode::HexEntry => if key == '\r' {
            Seq::empty()
        } else {
            pending.push(key)
        },
    }
}

/// Threshold after one dispatched character: it changes only when a
/// non-empty, all-hex pending buffer is committed, and then to its value
/// truncated to one byte.
pub open spec fn next_threshold(m: SessionMode, pending: Seq<char>, t: u8, key: char) -> u8 {
    if m is HexEntry && key == '\r' && pending.len() > 0 && all_hex(pending) {
        hex_byte(pending) as u8
    } else {
        t
    }
}

/// Ladder index after one dispatched character: only the two baud commands
/// move it, one step with wraparound.
pub open spec fn next_index(m: SessionMode, i: int, key: char) -> int {
    if m is Command && key == 'u' {
        inc_index(i)
    } else if m is Command && key == 'd' {
        dec_index(i)
    } else {
        i
    }
}

/// The action owed to the I/O layer for one dispatched character.
pub open spec fn action_of(m: SessionMode, pending: Seq<char>, i: int, key: char) -> Action {
    match m {
        SessionMode::Io => if (key as u32) < 128 {
            Action::Forward(key as u8)
        } else {
            Action::Idle
        },
        SessionMode::Command => if key == 'q' {
            Action::Quit
        } else if key == 'u' {
            Action::ApplyBaud(ladder()[inc_index(i)])
        } else if key == 'd' {
            Action::ApplyBaud(ladder()[dec_index(i)])
        } else if key == 'h' {
            Action::Help
        } else if key == 'x' {
            Action::BeginHex
        } else {
            Action::Idle
        },
        SessionMode::HexEntry => if key == '\r' {
            if pending.len() > 0 && all_hex(pending) {
                Action::CommitHex(hex_byte(pending) as u8)
            } else {
                Action::RejectHex
            }
        } else {
            Action::EchoHex(key)
        },
    }
}

/// From I/O mode no dispatched character changes the mode: only the prefix
/// chord, which arrives through `Session::enter_command_mode`, reaches
/// command mode.
pub proof fn lemma_io_mode_stable(key: char)
    ensures
        next_mode(SessionMode::Io, key) == SessionMode::Io,
{
}

/// Command mode is non-sticky: every command except hex-entry-begin returns
/// to I/O mode after exactly one dispatched character, and hex-entry-begin
/// reaches hex entry with the pending buffer reset to empty.
pub proof fn lemma_command_non_sticky(pending: Seq<char>, key: char)
    ensures
        key != 'x' ==> next_mode(SessionMode::Command, key) == SessionMode::Io,
        key == 'x' ==> next_mode(SessionMode::Command, key) == SessionMode::HexEntry,
        key == 'x' ==> next_pending(SessionMode::Command, pending, key) == Seq::<char>::empty(),
{
}

/// One interactive session's state, owned by the coordinator.
pub struct Session {
    /// The current interpretation rule for input characters.
    pub mode: SessionMode,
    /// The baud ladder and its current position.
    pub ladder: BaudLadder,
    /// Bytes strictly below this value are rendered as hex escapes.
    pub threshold: u8,
    /// Hex digits typed so far; live only during hex entry.
    pub pending: Vec<char>,
}

impl Session {
    /// The ladder index is valid, and no hex buffer exists outside hex
    /// entry.
    pub open spec fn wf(&self) -> bool {
        &&& self.ladder.wf()
        &&& !(self.mode is HexEntry) ==> self.pending@.len() == 0
    }

    /// A session starts in I/O mode, at the bottom of the baud ladder, with
    /// escaping disabled.
    pub fn new() -> (r: Session)
        ensures
            r.wf(),
            r.mode is Io,
            r.ladder.index == 0,
            r.threshold == 0,
            r.pending@ == Seq::<char>::empty(),
    {
        Session { mode: SessionMode::Io, ladder: BaudLadder::new(), threshold: 0, pending: Vec::new() }
    }

    /// The one mutation the input side performs: the prefix chord flips the
    /// mode to command, whatever it was. Leaving hex entry this way discards
    /// any pending digits.
    pub fn enter_command_mode(&mut self)
        requires
            old(self).wf(),
        ensures
            final(self).wf(),
            final(self).mode is Command,
            final(self).pending@ == Seq::<char>::empty(),
            final(self).threshold == old(self).threshold,
            final(self).ladder == old(self).ladder,
    {
        self.mode = SessionMode::Command;
        self.pending = Vec::new();
    }

    /// Dispatches one logical input character under the current mode and
    /// returns the action owed to the I/O layer.
    pub fn handle_key(&mut self, key: char) -> (a: Action)
        requires
            old(self).wf(),
        ensures
            final(self).wf(),
            final(self).mode == next_mode(old(self).mode, key),
            final(self).pending@ == next_pending(old(self).mode, old(self).pending@, key),
            final(self).threshold == next_threshold(
                old(self).mode,
                old(self).pending@,
                old(self).threshold,
                key,
            ),
            final(self).ladder.index == next_index(
                old(self).mode,
                old(self).ladder.index as int,
                key,
            ),
            a == action_of(old(self).mode, old(self).pending@, old(self).ladder.index as int, key),
    {
        match self.mode {
            SessionMode::Io => {
                if (key as u32) < 128 {
                    Action::Forward(key as u8)
                } else {
                    Action::Idle
                }
            },
            SessionMode::Command => {
                match key {
                    'q' => {
                        self.mode = SessionMode::Io;
                        Action::Quit
                    },
                    'u' => {
                        self.mode = SessionMode::Io;
                        self.ladder.increase();
                        Action::ApplyBaud(self.ladder.current_rate())
                    },
                    'd' => {
                        self.mode = SessionMode::Io;
                        self.ladder.decrease();
                        Action::ApplyBaud(self.ladder.current_rate())
                    },
                    'h' => {
                        self.mode = SessionMode::Io;
                        Action::Help
                    },
                    'x' => {
                        self.mode = SessionMode::HexEntry;
                        self.pending = Vec::new();
                        Action::BeginHex
                    },
                    _ => {
                        self.mode = SessionMode::Io;
                        Action::Idle
                    },
                }
            },
            SessionMode::HexEntry => {
                if key == '\r' {
                    let parsed = parse_hex_byte(&self.pending);
                    self.pending = Vec::new();
                    self.mode = SessionMode::Io;
                    match parsed {
                        Some(v) => {
                            self.threshold = v;
                            Action::CommitHex(v)
                        },
                        None => Action::RejectHex,
                    }
                } else {
                    self.pending.push(key);
                    Action::EchoHex(key)
                }
            },
        }
    }

    /// The coordinator's dispatch on one device-read outcome: data is
    /// rendered under the current threshold and flushed; a timeout is
    /// absorbed; a recoverable failure is reported and the loop goes on; a
    /// gone device stops the session. The session itself is untouched, so
    /// the display for a batch depends on the batch and the threshold alone.
    pub fn handle_device_read(&self, outcome: ReadOutcome) -> (a: ReadAction)
        ensures
            outcome matches ReadOutcome::Data(bytes) ==> a matches ReadAction::Display(out)
                && out@ == render_batch(bytes@, self.threshold),
            outcome is TimedOut ==> a is Wait,
            outcome is Failed ==> a is Report,
            outcome is Gone ==> a is Stop,
    {
        match outcome {
            ReadOutcome::Data(bytes) => ReadAction::Display(
                render(bytes.as_slice(), self.threshold),
            ),
            ReadOutcome::TimedOut => ReadAction::Wait,
            ReadOutcome::Failed => ReadAction::Report,
            ReadOutcome::Gone => ReadAction::Stop,
        }
    }
}

} // verus!
