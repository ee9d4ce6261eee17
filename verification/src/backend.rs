//! What this crate takes from `winit` and `bevy_window`.
//!
//! The enums and the settings struct below are read by Verus as their crates
//! define them, so nothing is assumed of them. The set of window buttons is
//! opaque: what is said of it here is believed, not proved.

use vstd::prelude::*;

verus! {

/// `winit::event::ElementState`: `Pressed` or `Released`.
#[verifier::external_type_specification]
pub struct ExElementState(winit::event::ElementState);

/// `winit::window::WindowLevel`: `AlwaysOnBottom`, `Normal` or `AlwaysOnTop`.
#[verifier::external_type_specification]
pub struct ExBackendWindowLevel(winit::window::WindowLevel);

/// `winit::window::Theme`: `Light` or `Dark`.
#[verifier::external_type_specification]
pub struct ExTheme(winit::window::Theme);

/// `bevy_window::WindowLevel`: `AlwaysOnBottom`, `Normal` or `AlwaysOnTop`.
#[verifier::external_type_specification]
pub struct ExWindowLevel(bevy_window::WindowLevel);

/// `bevy_window::WindowTheme`: `Light` or `Dark`.
#[verifier::external_type_specification]
pub struct ExWindowTheme(bevy_window::WindowTheme);

/// `bevy_window::EnabledButtons`: one flag each for the minimize, the maximize
/// and the close button.
#[verifier::external_type_specification]
pub struct ExEnabledButtons(bevy_window::EnabledButtons);

/// `winit::window::WindowButtons`, a set of flags in 32 bits.
#[verifier::external_type_specification]
#[verifier::external_body]
pub struct ExWindowButtons(winit::window::WindowButtons);

/// The bits of a set of window buttons, as `WindowButtons::bits` returns them.
pub uninterp spec fn window_button_bits(buttons: winit::window::WindowButtons) -> u32;

/// The bit of the close button.
pub const CLOSE_BIT: u32 = 1;

/// The bit of the minimize button.
pub const MINIMIZE_BIT: u32 = 2;

/// The bit of the maximize button.
pub const MAXIMIZE_BIT: u32 = 4;

/// `WindowButtons::empty` returns the set with no bit set.
pub assume_specification[ winit::window::WindowButtons::empty ]() -> (buttons:
    winit::window::WindowButtons)
    ensures
        window_button_bits(buttons) == 0,
;

/// `WindowButtons::insert` sets in `buttons` the bits of `other` and leaves
/// the bits that were set before.
pub assume_specification[ winit::window::WindowButtons::insert ](
    buttons: &mut winit::window::WindowButtons,
    other: winit::window::WindowButtons,
)
    ensures
        window_button_bits(*final(buttons)) == window_button_bits(*old(buttons))
            | window_button_bits(other),
;

/// `WindowButtons::CLOSE` is the set that holds the close button alone.
#[verifier::external_body]
pub(crate) fn close_button() -> (buttons: winit::window::WindowButtons)
    ensures
        window_button_bits(buttons) == CLOSE_BIT,
{
    winit::window::WindowButtons::CLOSE
}

/// `WindowButtons::MINIMIZE` is the set that holds the minimize button alone.
#[verifier::external_body]
pub(crate) fn minimize_button() -> (buttons: winit::window::WindowButtons)
    ensures
        window_button_bits(buttons) == MINIMIZE_BIT,
{
    winit::window::WindowButtons::MINIMIZE
}

/// `WindowButtons::MAXIMIZE` is the set that holds the maximize button alone.
#[verifier::external_body]
pub(crate) fn maximize_button() -> (buttons: winit::window::WindowButtons)
    ensures
        window_button_bits(buttons) == MAXIMIZE_BIT,
{
    winit::window::WindowButtons::MAXIMIZE
}

} // verus!
