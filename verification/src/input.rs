//! Input events and the input state that a window keeps.

use vstd::prelude::*;
use iced_core::Point;

verus! {

/// The keyboard modifiers that are held down, as a set of bits.
///
/// The library keeps the bits as they arrive and gives them no meaning of its
/// own; the empty set stands for no modifier held.
#[derive(Clone, Copy, Debug, PartialEq, Eq, Structural, Hash)]
pub struct Modifiers {
    pub bits: u32,
}

impl Modifiers {
    /// No modifier held.
    pub fn empty() -> (m: Modifiers)
        ensures
            m.bits == 0,
    {
        Modifiers { bits: 0 }
    }

    /// The modifiers with the given bits.
    pub fn from_bits(bits: u32) -> (m: Modifiers)
        ensures
            m.bits == bits,
    {
        Modifiers { bits }
    }

    /// The bits of this set.
    pub fn bits(&self) -> (bits: u32)
        ensures
            bits == self.bits,
    {
        self.bits
    }

    /// Whether no modifier is held.
    pub fn is_empty(&self) -> (r: bool)
        ensures
            r == (self.bits == 0),
    {
        self.bits == 0
    }
}

impl Default for Modifiers {
    fn default() -> (m: Modifiers)
        ensures
            m.bits == 0,
    {
        Modifiers::empty()
    }
}

/// Where the pointer is, as far as one window knows.
#[derive(Clone, Copy, Debug, PartialEq)]
pub enum Cursor {
    /// The pointer is over the window, at this position in logical
    /// coordinates.
    Available(Point),
    /// The pointer is not over the window.
    Unavailable,
}

/// What the pointer is doing over a window, which decides the shape it is
/// drawn with.
#[derive(Clone, Copy, Debug, PartialEq, Eq, Structural, Hash)]
pub enum Interaction {
    Idle,
    Pointer,
    Grab,
    Text,
    Crosshair,
    Working,
    Grabbing,
    ResizingHorizontally,
    ResizingVertically,
    NotAllowed,
    ZoomIn,
}

impl Default for Interaction {
    fn default() -> (interaction: Interaction)
        ensures
            interaction == Interaction::Idle,
    {
        Interaction::Idle
    }
}

/// An event of a window's surface, as far as the state of the window is
/// concerned.
#[derive(Clone, Copy, Debug, PartialEq)]
pub enum WindowEvent {
    /// The pointer left the surface.
    CursorLeft,
    /// The pointer moved to a position on the surface, in logical
    /// coordinates.
    CursorMoved { position: Point },
    /// The set of held modifiers changed.
    ModifiersChanged(Modifiers),
    /// Any other event: the state of a window takes no notice of it.
    Other,
}

/// The cursor that a last known pointer position stands for.
pub open spec fn cursor_of(position: Option<Point>) -> Cursor {
    match position {
        Some(point) => Cursor::Available(point),
        None => Cursor::Unavailable,
    }
}

} // verus!
