//! Pointer events as a windowing backend reports them.
//!
//! Positions are in physical pixels and forces are raw samples of the device.
//! Both are carried as they came: `P` is the backend's type for a position and
//! `F` its type for a force sample.

use vstd::prelude::*;

verus! {

/// A pointer as the backend identifies it.
#[derive(Debug, Clone, Copy, PartialEq, Eq, Structural)]
pub enum NativePointerId {
    /// The mouse cursor.
    Cursor,
    /// One finger on a touch surface.
    Touch { finger: u64 },
    /// A pen, by the end that is in use.
    Pen { tool: NativeTool },
}

/// The end of a pen that is in use, as the backend names it.
#[derive(Debug, Clone, Copy, PartialEq, Eq, Hash, Structural)]
pub enum NativeTool {
    Pen,
    Eraser,
}

/// A mouse button as the backend names it.
#[derive(Debug, Clone, Copy, PartialEq, Eq, Hash, Structural)]
pub enum NativeMouseButton {
    Left,
    Right,
    Middle,
    Back,
    Forward,
    Other(u16),
}

/// A button of a pointer as the backend names it.
#[derive(Debug, Clone, Copy, PartialEq, Eq, Structural)]
pub enum NativePointerButton {
    Mouse(NativeMouseButton),
    Touch,
    /// A button of a pen, with the backend's code for it. Backends do not
    /// agree on these codes, so they identify no particular button.
    Pen(u16),
}

/// One event of one pointer as the backend reports it.
#[derive(Debug, PartialEq)]
#[allow(inconsistent_fields)]
pub enum NativePointerEvent<P, F> {
    /// The pointer came over the window.
    Entered,
    /// The pointer went away from the window.
    Left,
    /// The pointer is at a new position.
    Moved { position: P, force: Option<F> },
    /// A button of the pointer went down or up.
    Button {
        button: NativePointerButton,
        state: winit::event::ElementState,
        position: Option<P>,
        force: Option<F>,
    },
    /// Any other event of the backend. There is no pointer event for it.
    Unrecognized,
}

impl<P: Copy, F: Copy> Clone for NativePointerEvent<P, F> {
    fn clone(&self) -> (cloned: Self)
        ensures
            cloned == *self,
    {
        *self
    }
}

impl<P: Copy, F: Copy> Copy for NativePointerEvent<P, F> {}

} // verus!
