//! What the terminal reports: key strokes and everything else.

use vstd::prelude::*;

verus! {

/// No modifier key is held.
pub const NONE: u8 = 0b0000_0000;

/// The shift key is held.
pub const SHIFT: u8 = 0b0000_0001;

/// The control key is held.
pub const CONTROL: u8 = 0b0000_0010;

/// The alt key is held.
pub const ALT: u8 = 0b0000_0100;

/// The super key is held.
pub const SUPER: u8 = 0b0000_1000;

/// The hyper key is held.
pub const HYPER: u8 = 0b0001_0000;

/// The meta key is held.
pub const META: u8 = 0b0010_0000;

/// The key of a key stroke, as far as the menu tells keys apart.
#[derive(Clone, Copy, Debug, PartialEq, Eq, Structural)]
pub enum Key {
    /// A character key.
    Char(char),
    Enter,
    Up,
    Down,
    /// Any other key.
    Other,
}

/// What happened to the key.
#[derive(Clone, Copy, Debug, PartialEq, Eq, Structural)]
pub enum KeyKind {
    Press,
    Repeat,
    Release,
}

/// One key stroke.
#[derive(Clone, Copy, Debug, PartialEq, Eq, Structural)]
pub struct KeyInput {
    pub code: Key,
    /// The modifier keys held, one bit each: the sum of [`SHIFT`],
    /// [`CONTROL`] and the others, or [`NONE`].
    pub modifiers: u8,
    pub kind: KeyKind,
}

/// One report of the terminal.
#[derive(Clone, Copy, Debug, PartialEq, Eq, Structural)]
pub enum Input {
    Key(KeyInput),
    /// A report that is no key stroke: the window was resized, the mouse
    /// moved, the focus changed, text was pasted.
    Other,
}

/// The press of `code` with exactly the modifiers `modifiers`.
pub open spec fn pressed(code: Key, modifiers: u8) -> Input {
    Input::Key(KeyInput { code, modifiers, kind: KeyKind::Press })
}

/// Whether the input asks to leave without a choice: control and `c`.
pub open spec fn cancels(input: Input) -> bool {
    input == pressed(Key::Char('c'), CONTROL)
}

/// Whether the input takes the selected entry: enter, alone or with shift.
pub open spec fn confirms(input: Input) -> bool {
    input == pressed(Key::Enter, NONE) || input == pressed(Key::Enter, SHIFT)
}

/// Whether the input moves the selection up: the up arrow alone.
pub open spec fn moves_up(input: Input) -> bool {
    input == pressed(Key::Up, NONE)
}

/// Whether the input moves the selection down: the down arrow alone.
pub open spec fn moves_down(input: Input) -> bool {
    input == pressed(Key::Down, NONE)
}

impl Input {
    /// The press of `code` with exactly the modifiers `modifiers`.
    pub fn press(code: Key, modifiers: u8) -> (out: Input)
        ensures
            out == pressed(code, modifiers),
    {
        Input::Key(KeyInput { code, modifiers, kind: KeyKind::Press })
    }
}

} // verus!
