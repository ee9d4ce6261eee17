//! The pointer events that an application consumes.
//!
//! A pointer is anything that produces positions on a window: the mouse
//! cursor, one finger on a touch screen, or a pen. The types are generic in
//! how a position (`P`) and a force (`F`) are represented, so that the same
//! model serves whatever numeric types the application draws with.

use vstd::prelude::*;

verus! {

/// Something that happened to one pointer.
#[derive(Debug, PartialEq)]
pub struct PointerEvent<P, F> {
    /// The pointer that the event belongs to.
    pub pointer: PointerId,
    /// What happened.
    pub event: PointerEventType<P, F>,
}

impl<P: Copy, F: Copy> Clone for PointerEvent<P, F> {
    fn clone(&self) -> (cloned: Self)
        ensures
            cloned == *self,
    {
        *self
    }
}

impl<P: Copy, F: Copy> Copy for PointerEvent<P, F> {}

/// Identifies a pointer. Two fingers are two pointers.
#[derive(Debug, Clone, Copy, PartialEq, Eq, Structural)]
pub enum PointerId {
    Mouse,
    Touch { finger: u64 },
    Pen { tool: Tool },
}

/// The end of a pen that touches the surface.
#[derive(Debug, Clone, Copy, PartialEq, Eq, Hash, Structural)]
pub enum Tool {
    Pen,
    Eraser,
}

/// What happened to a pointer.
///
/// Positions are in logical units, that is, physical pixels divided by the
/// window's scale factor. A force is normalized to the device's range.
#[derive(Debug, PartialEq)]
#[allow(inconsistent_fields)]
pub enum PointerEventType<P, F> {
    Entered,
    Left,
    Moved { position: P, force: Option<F> },
    Button { button: PointerButton, pressed: bool, position: Option<P>, force: Option<F> },
}

impl<P, F> PointerEventType<P, F> {
    /// The position that the event carries, if it carries one.
    pub open spec fn position(self) -> Option<P> {
        match self {
            PointerEventType::Moved { position, .. } => Some(position),
            PointerEventType::Button { position, .. } => position,
            _ => None,
        }
    }

    /// The force that the event carries, if it carries one.
    pub open spec fn force(self) -> Option<F> {
        match self {
            PointerEventType::Moved { force, .. } => force,
            PointerEventType::Button { force, .. } => force,
            _ => None,
        }
    }
}

impl<P: Copy, F: Copy> Clone for PointerEventType<P, F> {
    fn clone(&self) -> (cloned: Self)
        ensures
            cloned == *self,
    {
        *self
    }
}

impl<P: Copy, F: Copy> Copy for PointerEventType<P, F> {}

/// A button of a pointer.
#[derive(Debug, Clone, Copy, PartialEq, Eq, Structural)]
pub enum PointerButton {
    Mouse(MouseButton),
    /// A finger has no buttons of its own: touching is its one button.
    Touch,
    Pen(PenButton),
}

/// A button of a mouse.
#[derive(Debug, Clone, Copy, PartialEq, Eq, Structural)]
pub enum MouseButton {
    Left,
    Right,
    Middle,
    Back,
    Forward,
    Other(u16),
}

/// A button of a pen.
#[derive(Debug, Clone, Copy, PartialEq, Eq, Structural)]
pub enum PenButton {
    /// The tip touching the surface.
    Touch,
    /// The button on the barrel.
    Side,
}

} // verus!
