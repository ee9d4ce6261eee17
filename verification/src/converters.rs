//! Conversions between the backend's values and the application's.
//!
//! Every conversion is a total mapping written out case by case. What each
//! one returns is given by a spec function of the same shape. The laws that
//! hold of the mappings are in [`crate::laws`].

use vstd::prelude::*;
use crate::backend::{
    close_button, maximize_button, minimize_button, window_button_bits, CLOSE_BIT, MAXIMIZE_BIT,
    MINIMIZE_BIT,
};
use crate::laws::lemma_enabled_buttons_are_exact;
use crate::native::{
    NativeMouseButton, NativePointerButton, NativePointerEvent, NativePointerId, NativeTool,
};
use crate::pointer::{
    MouseButton, PenButton, PointerButton, PointerEvent, PointerEventType, PointerId, Tool,
};
use crate::ButtonState;

verus! {

/// The button state for a state of the backend.
pub open spec fn button_state_of(element_state: winit::event::ElementState) -> ButtonState {
    match element_state {
        winit::event::ElementState::Pressed => ButtonState::Pressed,
        winit::event::ElementState::Released => ButtonState::Released,
    }
}

/// Converts the backend's state of a key or button.
pub fn convert_element_state(element_state: winit::event::ElementState) -> (state: ButtonState)
    ensures
        state == button_state_of(element_state),
{
    match element_state {
        winit::event::ElementState::Pressed => ButtonState::Pressed,
        winit::event::ElementState::Released => ButtonState::Released,
    }
}

/// The mouse button for a mouse button of the backend: the one of the same
/// name, and for any other button the same code.
pub open spec fn mouse_button_of(mouse_button: NativeMouseButton) -> MouseButton {
    match mouse_button {
        NativeMouseButton::Left => MouseButton::Left,
        NativeMouseButton::Right => MouseButton::Right,
        NativeMouseButton::Middle => MouseButton::Middle,
        NativeMouseButton::Back => MouseButton::Back,
        NativeMouseButton::Forward => MouseButton::Forward,
        NativeMouseButton::Other(val) => MouseButton::Other(val),
    }
}

/// Converts the backend's mouse button.
pub fn convert_mouse_button(mouse_button: NativeMouseButton) -> (button: MouseButton)
    ensures
        button == mouse_button_of(mouse_button),
{
    match mouse_button {
        NativeMouseButton::Left => MouseButton::Left,
        NativeMouseButton::Right => MouseButton::Right,
        NativeMouseButton::Middle => MouseButton::Middle,
        NativeMouseButton::Back => MouseButton::Back,
        NativeMouseButton::Forward => MouseButton::Forward,
        NativeMouseButton::Other(val) => MouseButton::Other(val),
    }
}

/// The pointer for a pointer of the backend: the cursor is the mouse, a
/// finger keeps its number, and a pen keeps the end in use.
pub open spec fn pointer_id_of(pointer_id: NativePointerId) -> PointerId {
    match pointer_id {
        NativePointerId::Cursor => PointerId::Mouse,
        NativePointerId::Touch { finger } => PointerId::Touch { finger },
        NativePointerId::Pen { tool } => PointerId::Pen { tool: tool_of(tool) },
    }
}

/// The end of a pen for the backend's.
pub open spec fn tool_of(tool: NativeTool) -> Tool {
    match tool {
        NativeTool::Pen => Tool::Pen,
        NativeTool::Eraser => Tool::Eraser,
    }
}

/// The pointer button for a pointer button of the backend. Whatever code
/// the backend gives for a button of a pen, the button is `PenButton::Touch`:
/// the code does not say which button it was.
pub open spec fn pointer_button_of(button: NativePointerButton) -> PointerButton {
    match button {
        NativePointerButton::Mouse(mouse) => PointerButton::Mouse(mouse_button_of(mouse)),
        NativePointerButton::Touch => PointerButton::Touch,
        NativePointerButton::Pen(_) => PointerButton::Pen(PenButton::Touch),
    }
}

/// Whether a state of the backend means that the button is down.
pub open spec fn is_pressed(state: winit::event::ElementState) -> bool {
    match state {
        winit::event::ElementState::Pressed => true,
        winit::event::ElementState::Released => false,
    }
}

/// `position` is what `descale` gives for `raw` and the scale factor `sf`,
/// and there is none where there is no `raw`.
pub open spec fn is_descaled<RP, S, P, D: FnOnce(RP, S) -> P>(
    descale: D,
    raw: Option<RP>,
    sf: S,
    position: Option<P>,
) -> bool {
    match raw {
        Some(raw) => position matches Some(p) && call_ensures(descale, (raw, sf), p),
        None => position is None,
    }
}

/// `force` is what `normalize` gives for `raw`, and there is none where
/// there is no `raw`.
pub open spec fn is_normalized<RF, F, N: FnOnce(&RF) -> F>(
    normalize: N,
    raw: Option<RF>,
    force: Option<F>,
) -> bool {
    match raw {
        Some(raw) => force matches Some(f) && call_ensures(normalize, (&raw,), f),
        None => force is None,
    }
}

/// `descale` and `normalize` accept what `event` carries.
pub open spec fn can_convert<
    RP,
    RF,
    S,
    P,
    F,
    D: FnOnce(RP, S) -> P,
    N: FnOnce(&RF) -> F,
>(
    event: NativePointerEvent<RP, RF>,
    sf: S,
    descale: D,
    normalize: N,
) -> bool {
    match event {
        NativePointerEvent::Moved { position, force } => {
            &&& call_requires(descale, (position, sf))
            &&& force matches Some(raw) ==> call_requires(normalize, (&raw,))
        },
        NativePointerEvent::Button { position, force, .. } => {
            &&& position matches Some(raw) ==> call_requires(descale, (raw, sf))
            &&& force matches Some(raw) ==> call_requires(normalize, (&raw,))
        },
        _ => true,
    }
}

/// `result` is the pointer event for the backend's `event` of the pointer
/// `pointer_id`, in a window with the scale factor `sf`.
///
/// - The pointer is `pointer_id_of(pointer_id)`.
/// - `Entered` and `Left` stay what they are.
/// - `Moved` carries the position that `descale` gives for the backend's
///   position and `sf`, and the force that `normalize` gives for the
///   backend's force, if it has one.
/// - `Button` carries `pointer_button_of` its button, whether the button is
///   down, and position and force as `Moved` does, each if it has one.
/// - For any other event there is no pointer event.
pub open spec fn is_pointer_event_for<
    RP,
    RF,
    S,
    P,
    F,
    D: FnOnce(RP, S) -> P,
    N: FnOnce(&RF) -> F,
>(
    event: NativePointerEvent<RP, RF>,
    pointer_id: NativePointerId,
    sf: S,
    descale: D,
    normalize: N,
    result: Option<PointerEvent<P, F>>,
) -> bool {
    match event {
        NativePointerEvent::Entered => {
            &&& result matches Some(converted)
            &&& converted.pointer == pointer_id_of(pointer_id)
            &&& converted.event is Entered
        },
        NativePointerEvent::Left => {
            &&& result matches Some(converted)
            &&& converted.pointer == pointer_id_of(pointer_id)
            &&& converted.event is Left
        },
        NativePointerEvent::Moved { position: raw_position, force: raw_force } => {
            &&& result matches Some(converted)
            &&& converted.pointer == pointer_id_of(pointer_id)
            &&& converted.event matches PointerEventType::Moved { position, force }
            &&& call_ensures(descale, (raw_position, sf), position)
            &&& is_normalized(normalize, raw_force, force)
        },
        NativePointerEvent::Button {
            button: raw_button,
            state,
            position: raw_position,
            force: raw_force,
        } => {
            &&& result matches Some(converted)
            &&& converted.pointer == pointer_id_of(pointer_id)
            &&& converted.event matches PointerEventType::Button {
                button,
                pressed,
                position,
                force,
            }
            &&& button == pointer_button_of(raw_button)
            &&& pressed == is_pressed(state)
            &&& is_descaled(descale, raw_position, sf, position)
            &&& is_normalized(normalize, raw_force, force)
        },
        NativePointerEvent::Unrecognized => result is None,
    }
}

/// Converts one event of the backend's pointer `pointer_id` into a pointer
/// event, or into none where the backend's event is not one of a pointer.
///
/// The backend gives positions in physical pixels; `descale` makes of such a
/// position and the window's scale factor `sf` the position in logical
/// units. `normalize` makes of a force sample of the backend the normalized
/// force. Both are called only on what `event` carries, and what they return
/// is carried as it is.
///
/// `RP` and `RF` are the backend's types of a position and of a force sample,
/// `S` is the type of the scale factor, and `P` and `F` are the types of a
/// position in logical units and of a normalized force.
pub fn convert_pointer_input<
    RP,
    RF,
    S,
    P,
    F,
    D: FnOnce(RP, S) -> P,
    N: FnOnce(&RF) -> F,
>(
    event: NativePointerEvent<RP, RF>,
    pointer_id: NativePointerId,
    sf: S,
    descale: D,
    normalize: N,
) -> (result: Option<PointerEvent<P, F>>)
    requires
        can_convert(event, sf, descale, normalize),
    ensures
        is_pointer_event_for(event, pointer_id, sf, descale, normalize, result),
        result is None <==> event is Unrecognized,
        event is Entered || event is Left ==> (result matches Some(converted)
            && converted.event.position() is None && converted.event.force() is None),
{
    let pointer = match pointer_id {
        NativePointerId::Cursor => PointerId::Mouse,
        NativePointerId::Touch { finger } => PointerId::Touch { finger },
        NativePointerId::Pen { tool } => PointerId::Pen {
            tool: match tool {
                NativeTool::Pen => Tool::Pen,
                NativeTool::Eraser => Tool::Eraser,
            },
        },
    };
    let event = match event {
        NativePointerEvent::Entered => PointerEventType::Entered,
        NativePointerEvent::Left => PointerEventType::Left,
        NativePointerEvent::Moved { position, force } => PointerEventType::Moved {
            position: descale(position, sf),
            force: match force {
                Some(raw) => Some(normalize(&raw)),
                None => None,
            },
        },
        NativePointerEvent::Button { button, state, position, force } => PointerEventType::Button {
            button: match button {
                NativePointerButton::Mouse(mouse) => PointerButton::Mouse(
                    convert_mouse_button(mouse),
                ),
                NativePointerButton::Touch => PointerButton::Touch,
                NativePointerButton::Pen(_) => PointerButton::Pen(PenButton::Touch),
            },
            pressed: match state {
                winit::event::ElementState::Pressed => true,
                winit::event::ElementState::Released => false,
            },
            position: match position {
                Some(raw) => Some(descale(raw, sf)),
                None => None,
            },
            force: match force {
                Some(raw) => Some(normalize(&raw)),
                None => None,
            },
        },
        NativePointerEvent::Unrecognized => return None,
    };
    Some(PointerEvent { pointer, event })
}

/// The backend's window level for a window level.
pub open spec fn backend_window_level(
    window_level: bevy_window::WindowLevel,
) -> winit::window::WindowLevel {
    match window_level {
        bevy_window::WindowLevel::AlwaysOnBottom => winit::window::WindowLevel::AlwaysOnBottom,
        bevy_window::WindowLevel::Normal => winit::window::WindowLevel::Normal,
        bevy_window::WindowLevel::AlwaysOnTop => winit::window::WindowLevel::AlwaysOnTop,
    }
}

/// Converts a window level to the backend's.
pub fn convert_window_level(window_level: bevy_window::WindowLevel) -> (level:
    winit::window::WindowLevel)
    ensures
        level == backend_window_level(window_level),
{
    match window_level {
        bevy_window::WindowLevel::AlwaysOnBottom => winit::window::WindowLevel::AlwaysOnBottom,
        bevy_window::WindowLevel::Normal => winit::window::WindowLevel::Normal,
        bevy_window::WindowLevel::AlwaysOnTop => winit::window::WindowLevel::AlwaysOnTop,
    }
}

/// The window theme for a theme of the backend.
pub open spec fn window_theme_of(theme: winit::window::Theme) -> bevy_window::WindowTheme {
    match theme {
        winit::window::Theme::Light => bevy_window::WindowTheme::Light,
        winit::window::Theme::Dark => bevy_window::WindowTheme::Dark,
    }
}

/// Converts the backend's theme.
pub fn convert_winit_theme(theme: winit::window::Theme) -> (window_theme: bevy_window::WindowTheme)
    ensures
        window_theme == window_theme_of(theme),
{
    match theme {
        winit::window::Theme::Light => bevy_window::WindowTheme::Light,
        winit::window::Theme::Dark => bevy_window::WindowTheme::Dark,
    }
}

/// The backend's theme for a window theme.
pub open spec fn backend_theme(theme: bevy_window::WindowTheme) -> winit::window::Theme {
    match theme {
        bevy_window::WindowTheme::Light => winit::window::Theme::Light,
        bevy_window::WindowTheme::Dark => winit::window::Theme::Dark,
    }
}

/// Converts a window theme to the backend's.
pub fn convert_window_theme(theme: bevy_window::WindowTheme) -> (backend: winit::window::Theme)
    ensures
        backend == backend_theme(theme),
{
    match theme {
        bevy_window::WindowTheme::Light => winit::window::Theme::Light,
        bevy_window::WindowTheme::Dark => winit::window::Theme::Dark,
    }
}

/// Whether `bits` hold the button with the bit `button_bit`.
pub open spec fn has_button(bits: u32, button_bit: u32) -> bool {
    bits & button_bit == button_bit
}

/// The bits of the buttons that `enabled_buttons` switches on.
pub open spec fn enabled_button_bits(enabled_buttons: bevy_window::EnabledButtons) -> u32 {
    (if enabled_buttons.minimize { MINIMIZE_BIT } else { 0 })
        | (if enabled_buttons.maximize { MAXIMIZE_BIT } else { 0 })
        | (if enabled_buttons.close { CLOSE_BIT } else { 0 })
}

/// Makes the backend's set of window buttons: a button is in the set exactly
/// if `enabled_buttons` switches it on.
pub fn convert_enabled_buttons(enabled_buttons: bevy_window::EnabledButtons) -> (window_buttons:
    winit::window::WindowButtons)
    ensures
        window_button_bits(window_buttons) == enabled_button_bits(enabled_buttons),
        has_button(window_button_bits(window_buttons), MINIMIZE_BIT) <==> enabled_buttons.minimize,
        has_button(window_button_bits(window_buttons), MAXIMIZE_BIT) <==> enabled_buttons.maximize,
        has_button(window_button_bits(window_buttons), CLOSE_BIT) <==> enabled_buttons.close,
{
    let mut window_buttons = winit::window::WindowButtons::empty();
    if enabled_buttons.minimize {
        window_buttons.insert(minimize_button());
    }
    if enabled_buttons.maximize {
        window_buttons.insert(maximize_button());
    }
    if enabled_buttons.close {
        window_buttons.insert(close_button());
    }
    proof {
        // A button that is switched off adds no bit.
        assert(forall|bits: u32| #[trigger] (bits | 0) == bits) by (bit_vector);
        assert(forall|bits: u32| #[trigger] (0 | bits) == bits) by (bit_vector);
        lemma_enabled_buttons_are_exact(enabled_buttons);
    }
    window_buttons
}

} // verus!
