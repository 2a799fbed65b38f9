//! Events that drive the application, and how terminal input becomes one.

use vstd::prelude::*;
use crate::keys::{KeyEvent, MouseEvent};

verus! {

/// Milliseconds the event source waits for input before it reports a tick.
pub const DEFAULT_TICK_RATE_MS: u64 = 250;

/// One entry of the event queue.
#[derive(Debug, Clone, Copy, PartialEq, Eq, Structural)]
pub enum Event {
    /// The tick interval passed without input.
    Tick,
    /// A key was pressed.
    Key(KeyEvent),
    /// The pointing device did something.
    Mouse(MouseEvent),
    /// The terminal now has this many columns and rows.
    Resize(u16, u16),
}

/// What the terminal handed over when it was read.
#[derive(Debug, Clone, Copy, PartialEq, Eq, Structural)]
pub enum TerminalInput {
    Key(KeyEvent),
    Mouse(MouseEvent),
    Resize(u16, u16),
    /// Input of a kind the application does not react to, such as a change
    /// of focus or pasted text.
    Other,
}

/// How one wait for terminal input ended.
#[derive(Debug, Clone, Copy, PartialEq, Eq, Structural)]
pub enum Polled {
    /// Nothing arrived within the tick interval, or the terminal could not
    /// be polled.
    Idle,
    /// Something arrived, but reading it failed.
    Unreadable,
    /// This input arrived and was read.
    Input(TerminalInput),
}

/// The event that stands for `input`, if it stands for one.
pub open spec fn spec_translate(input: TerminalInput) -> Option<Event> {
    match input {
        TerminalInput::Key(key) => Some(Event::Key(key)),
        TerminalInput::Mouse(mouse) => Some(Event::Mouse(mouse)),
        TerminalInput::Resize(width, height) => Some(Event::Resize(width, height)),
        TerminalInput::Other => None,
    }
}

/// The event to put on the queue after a wait that ended as `polled`: a tick
/// when nothing arrived, the translated input when one was read and the
/// application reacts to its kind, and nothing otherwise.
pub open spec fn spec_next_event(polled: Polled) -> Option<Event> {
    match polled {
        Polled::Idle => Some(Event::Tick),
        Polled::Unreadable => None,
        Polled::Input(input) => spec_translate(input),
    }
}

/// The event that stands for `input`, if it stands for one.
#[verifier::when_used_as_spec(spec_translate)]
pub fn translate(input: TerminalInput) -> (event: Option<Event>)
    ensures
        event == spec_translate(input),
{
    match input {
        TerminalInput::Key(key) => Some(Event::Key(key)),
        TerminalInput::Mouse(mouse) => Some(Event::Mouse(mouse)),
        TerminalInput::Resize(width, height) => Some(Event::Resize(width, height)),
        TerminalInput::Other => None,
    }
}

/// The event to put on the queue after a wait that ended as `polled`, if any.
#[verifier::when_used_as_spec(spec_next_event)]
pub fn next_event(polled: Polled) -> (event: Option<Event>)
    ensures
        event == spec_next_event(polled),
{
    match polled {
        Polled::Idle => Some(Event::Tick),
        Polled::Unreadable => None,
        Polled::Input(input) => translate(input),
    }
}

/// Every wait that ends without input yields exactly one tick, and no input
/// is ever turned into a tick.
pub proof fn lemma_tick_only_when_idle(polled: Polled)
    ensures
        spec_next_event(polled) == Some(Event::Tick) <==> polled == Polled::Idle,
{
}

} // verus!
