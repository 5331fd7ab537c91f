//! Classification of keyboard events captured by the input activity.
//!
//! The input activity blocks on terminal key events; each event is reduced
//! to a plain key identity plus whether the control modifier (and it alone)
//! was held, and classified here. Only the prefix chord (control with the
//! letter `a`) flips the session into command mode; plain characters and the
//! return key are forwarded as logical characters; everything else is
//! ignored.

use vstd::prelude::*;

verus! {

/// A captured key event, reduced to what the session logic reads: a plain
/// character, the return key, or anything else.
#[derive(Clone, Copy, PartialEq, Eq, Structural, Debug)]
pub enum Key {
    Character(char),
    Enter,
    Other,
}

/// What the input activity does with one captured key.
#[derive(Clone, Copy, PartialEq, Eq, Structural, Debug)]
pub enum InputEvent {
    /// The prefix chord: flip the shared mode to Command.
    PrefixChord,
    /// Enqueue this logical character for the coordinator.
    Forward(char),
    /// Not a key the session understands.
    Unrecognized,
}

/// Classification rule: the prefix chord wins; otherwise a character is
/// forwarded as itself, return as carriage return, and the rest ignored.
pub open spec fn classify_spec(key: Key, ctrl: bool) -> InputEvent {
    if ctrl && key == Key::Character('a') {
        InputEvent::PrefixChord
    } else {
        match key {
            Key::Character(c) => InputEvent::Forward(c),
            Key::Enter => InputEvent::Forward('\r'),
            Key::Other => InputEvent::Unrecognized,
        }
    }
}

/// Classifies one captured key event. `ctrl` says whether the control
/// modifier, and no other, was held with it.
pub fn classify(key: Key, ctrl: bool) -> (r: InputEvent)
    ensures
        r == classify_spec(key, ctrl),
{
    match key {
        Key::Character(c) => {
            if ctrl && c == 'a' {
                InputEvent::PrefixChord
            } else {
                InputEvent::Forward(c)
            }
        },
        Key::Enter => InputEvent::Forward('\r'),
        Key::Other => InputEvent::Unrecognized,
    }
}

/// Exactly one key event reaches command mode: the prefix chord, control
/// held with the letter `a`.
pub proof fn lemma_prefix_chord_unique(key: Key, ctrl: bool)
    ensures
        classify_spec(key, ctrl) is PrefixChord <==> (ctrl && key == Key::Character('a')),
{
}

} // verus!
