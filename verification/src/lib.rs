//! Pointer input for a windowing front end.
//!
//! [`pointer`] holds the pointer events that the rest of an application
//! consumes. [`native`] describes pointer events as a windowing backend
//! reports them. [`converters`] turns the backend's values into the
//! application's, and window settings into the backend's. [`backend`] lists
//! what is taken from the backend's crates, and what is believed of it.

pub mod backend;
pub mod converters;
pub mod laws;
pub mod native;
pub mod pointer;

use vstd::prelude::*;

verus! {

/// Whether a button or a key is held down.
#[derive(Debug, Clone, Copy, PartialEq, Eq, Hash, Structural)]
pub enum ButtonState {
    /// It is held down.
    Pressed,
    /// It is not held down.
    Released,
}

} // verus!
