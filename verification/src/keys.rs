//! Keyboard and pointer input, as plain values.

use vstd::prelude::*;

verus! {

/// The key that was pressed.
#[derive(Debug, Clone, Copy, PartialEq, Eq, Structural)]
pub enum KeyCode {
    Backspace,
    Enter,
    Left,
    Right,
    Up,
    Down,
    Home,
    End,
    PageUp,
    PageDown,
    Tab,
    BackTab,
    Delete,
    Insert,
    /// A function key, `F(1)` for F1.
    F(u8),
    /// A key that produces a character.
    Char(char),
    Null,
    Esc,
    /// Any key the dashboard has no use for (lock, media and modifier keys).
    Other,
}

/// The modifier keys held down while an event happened.
#[derive(Debug, Clone, Copy, PartialEq, Eq, Structural)]
pub struct KeyModifiers {
    pub shift: bool,
    pub control: bool,
    pub alt: bool,
    pub super_key: bool,
    pub hyper: bool,
    pub meta: bool,
}

/// A key press together with its modifiers.
#[derive(Debug, Clone, Copy, PartialEq, Eq, Structural)]
pub struct KeyEvent {
    pub code: KeyCode,
    pub modifiers: KeyModifiers,
}

/// A button of the pointing device.
#[derive(Debug, Clone, Copy, PartialEq, Eq, Structural)]
pub enum MouseButton {
    Left,
    Right,
    Middle,
}

/// What the pointing device did.
#[derive(Debug, Clone, Copy, PartialEq, Eq, Structural)]
pub enum MouseEventKind {
    Down(MouseButton),
    Up(MouseButton),
    Drag(MouseButton),
    Moved,
    ScrollDown,
    ScrollUp,
    ScrollLeft,
    ScrollRight,
}

/// A pointer event and the cell it happened on.
#[derive(Debug, Clone, Copy, PartialEq, Eq, Structural)]
pub struct MouseEvent {
    pub kind: MouseEventKind,
    pub column: u16,
    pub row: u16,
    pub modifiers: KeyModifiers,
}

impl KeyModifiers {
    /// No modifier held.
    pub open spec fn spec_none() -> KeyModifiers {
        KeyModifiers {
            shift: false,
            control: false,
            alt: false,
            super_key: false,
            hyper: false,
            meta: false,
        }
    }

    /// Control alone.
    pub open spec fn spec_control() -> KeyModifiers {
        KeyModifiers { control: true, ..KeyModifiers::spec_none() }
    }

    /// No modifier held.
    #[verifier::when_used_as_spec(spec_none)]
    pub fn none() -> (m: KeyModifiers)
        ensures
            m == KeyModifiers::spec_none(),
    {
        KeyModifiers {
            shift: false,
            control: false,
            alt: false,
            super_key: false,
            hyper: false,
            meta: false,
        }
    }

    /// Control alone.
    #[verifier::when_used_as_spec(spec_control)]
    pub fn control() -> (m: KeyModifiers)
        ensures
            m == KeyModifiers::spec_control(),
    {
        KeyModifiers {
            shift: false,
            control: true,
            alt: false,
            super_key: false,
            hyper: false,
            meta: false,
        }
    }
}

impl KeyEvent {
    /// The event of `code` pressed with `modifiers` held.
    pub open spec fn spec_new(code: KeyCode, modifiers: KeyModifiers) -> KeyEvent {
        KeyEvent { code, modifiers }
    }

    /// The event of `code` pressed with `modifiers` held.
    #[verifier::when_used_as_spec(spec_new)]
    pub fn new(code: KeyCode, modifiers: KeyModifiers) -> (k: KeyEvent)
        ensures
            k == KeyEvent::spec_new(code, modifiers),
    {
        KeyEvent { code, modifiers }
    }

    /// Whether this is the character `c`, whatever modifiers are held.
    pub open spec fn is_char(&self, c: char) -> bool {
        self.code == KeyCode::Char(c)
    }

    /// Whether this is one of the two chords that end the program from any
    /// screen: Control with `q`, or Control with `c`.
    pub open spec fn spec_is_quit_chord(&self) -> bool {
        self.modifiers.control && (self.is_char('q') || self.is_char('c'))
    }

    /// Whether this is one of the two chords that end the program from any
    /// screen: Control with `q`, or Control with `c`.
    #[verifier::when_used_as_spec(spec_is_quit_chord)]
    pub fn is_quit_chord(&self) -> (b: bool)
        ensures
            b == self.spec_is_quit_chord(),
    {
        match self.code {
            KeyCode::Char(c) => self.modifiers.control && (c == 'q' || c == 'c'),
            _ => false,
        }
    }

    /// Whether the key moves a cursor up: the up arrow or `k`.
    pub open spec fn spec_is_up(&self) -> bool {
        self.code == KeyCode::Up || self.is_char('k')
    }

    /// Whether the key moves a cursor down: the down arrow or `j`.
    pub open spec fn spec_is_down(&self) -> bool {
        self.code == KeyCode::Down || self.is_char('j')
    }

    /// Whether the key moves a cursor up: the up arrow or `k`.
    #[verifier::when_used_as_spec(spec_is_up)]
    pub fn is_up(&self) -> (b: bool)
        ensures
            b == self.spec_is_up(),
    {
        match self.code {
            KeyCode::Up => true,
            KeyCode::Char(c) => c == 'k',
            _ => false,
        }
    }

    /// Whether the key moves a cursor down: the down arrow or `j`.
    #[verifier::when_used_as_spec(spec_is_down)]
    pub fn is_down(&self) -> (b: bool)
        ensures
            b == self.spec_is_down(),
    {
        match self.code {
            KeyCode::Down => true,
            KeyCode::Char(c) => c == 'j',
            _ => false,
        }
    }
}

} // verus!
