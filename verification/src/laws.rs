//! Laws of the conversions.

use vstd::prelude::*;
use crate::backend::{CLOSE_BIT, MAXIMIZE_BIT, MINIMIZE_BIT};
use crate::converters::{
    backend_theme, button_state_of, enabled_button_bits, has_button, is_pointer_event_for,
    is_pressed, pointer_button_of, pointer_id_of, tool_of, window_theme_of,
};
use crate::ButtonState;
use crate::native::{NativePointerButton, NativePointerEvent, NativePointerId, NativeTool};
use crate::pointer::{PointerEvent, PointerId, Tool};

verus! {

/// Each kind of pointer of the backend has its own kind of pointer id, which
/// keeps what identifies the pointer: the cursor is the mouse, a finger is the
/// touch with the same number, and a pen is the pen with the same end in use.
pub proof fn lemma_pointer_id_keeps_identity(pointer_id: NativePointerId)
    ensures
        pointer_id is Cursor <==> pointer_id_of(pointer_id) is Mouse,
        pointer_id is Touch <==> pointer_id_of(pointer_id) is Touch,
        pointer_id is Pen <==> pointer_id_of(pointer_id) is Pen,
        pointer_id matches NativePointerId::Touch { finger } ==> pointer_id_of(pointer_id) == (
        PointerId::Touch { finger }),
        pointer_id matches NativePointerId::Pen { tool } ==> pointer_id_of(pointer_id) == (
        PointerId::Pen { tool: tool_of(tool) }),
        tool_of(NativeTool::Pen) == Tool::Pen,
        tool_of(NativeTool::Eraser) == Tool::Eraser,
{
}

/// Two pointers of the backend have the same pointer id exactly if they are
/// the same pointer.
pub proof fn lemma_pointer_id_is_one_to_one(a: NativePointerId, b: NativePointerId)
    ensures
        pointer_id_of(a) == pointer_id_of(b) <==> a == b,
{
}

/// Every pointer id is the pointer id of a pointer of the backend.
pub proof fn lemma_pointer_id_is_onto(id: PointerId)
    ensures
        exists|pointer_id: NativePointerId| pointer_id_of(pointer_id) == id,
{
    let source = match id {
        PointerId::Mouse => NativePointerId::Cursor,
        PointerId::Touch { finger } => NativePointerId::Touch { finger },
        PointerId::Pen { tool: Tool::Pen } => NativePointerId::Pen { tool: NativeTool::Pen },
        PointerId::Pen { tool: Tool::Eraser } => NativePointerId::Pen { tool: NativeTool::Eraser },
    };
    assert(pointer_id_of(source) == id);
}

/// The two states of a button correspond one to one to the two truth values
/// of "it is down": `Pressed` is true, `Released` is false, two states with
/// the same truth value are the same state, and each truth value is that of a
/// state.
pub proof fn lemma_pressed_is_one_to_one(
    a: winit::event::ElementState,
    b: winit::event::ElementState,
    pressed: bool,
)
    ensures
        is_pressed(winit::event::ElementState::Pressed),
        !is_pressed(winit::event::ElementState::Released),
        is_pressed(a) == is_pressed(b) <==> a == b,
        exists|state: winit::event::ElementState| is_pressed(state) == pressed,
{
    let state = if pressed {
        winit::event::ElementState::Pressed
    } else {
        winit::event::ElementState::Released
    };
    assert(is_pressed(state) == pressed);
}

/// A button is down exactly if its button state is `Pressed`.
pub proof fn lemma_pressed_agrees_with_button_state(state: winit::event::ElementState)
    ensures
        is_pressed(state) <==> button_state_of(state) == ButtonState::Pressed,
        !is_pressed(state) <==> button_state_of(state) == ButtonState::Released,
{
}

/// There is no pointer event exactly for the events of the backend that are
/// none of a pointer entering, leaving, moving or changing a button.
pub proof fn lemma_none_exactly_for_unrecognized<
    RP,
    RF,
    S,
    P,
    F,
    D: FnOnce(RP, S) -> P,
    N: FnOnce(&RF) -> F,
>(
    event: NativePointerEvent<RP, RF>,
    pointer_id: NativePointerId,
    sf: S,
    descale: D,
    normalize: N,
    result: Option<PointerEvent<P, F>>,
)
    requires
        is_pointer_event_for(event, pointer_id, sf, descale, normalize, result),
    ensures
        result is None <==> event is Unrecognized,
        result is None <==> !(event is Entered || event is Left || event is Moved
            || event is Button),
{
}

/// A pointer that enters or leaves gives an event of the same kind, for the
/// same pointer, that carries neither a position nor a force.
pub proof fn lemma_entered_and_left_carry_nothing<
    RP,
    RF,
    S,
    P,
    F,
    D: FnOnce(RP, S) -> P,
    N: FnOnce(&RF) -> F,
>(
    event: NativePointerEvent<RP, RF>,
    pointer_id: NativePointerId,
    sf: S,
    descale: D,
    normalize: N,
    result: Option<PointerEvent<P, F>>,
)
    requires
        is_pointer_event_for(event, pointer_id, sf, descale, normalize, result),
        event is Entered || event is Left,
    ensures
        (result matches Some(converted) && converted.pointer == pointer_id_of(pointer_id)
            && converted.event.position() is None && converted.event.force() is None),
        event is Entered <==> result->0.event is Entered,
        event is Left <==> result->0.event is Left,
{
}

/// A pointer that moves gives a move, whose position is what `descale` gives
/// for the backend's position and the scale factor.
pub proof fn lemma_moved_carries_descaled_position<
    RP,
    RF,
    S,
    P,
    F,
    D: FnOnce(RP, S) -> P,
    N: FnOnce(&RF) -> F,
>(
    event: NativePointerEvent<RP, RF>,
    pointer_id: NativePointerId,
    sf: S,
    descale: D,
    normalize: N,
    result: Option<PointerEvent<P, F>>,
)
    requires
        is_pointer_event_for(event, pointer_id, sf, descale, normalize, result),
        event is Moved,
    ensures
        result is Some,
        result->0.event is Moved,
        call_ensures(descale, (event->Moved_position, sf), result->0.event->Moved_position),
{
}

/// Every pointer event is for the pointer that the backend named.
pub proof fn lemma_event_keeps_pointer<
    RP,
    RF,
    S,
    P,
    F,
    D: FnOnce(RP, S) -> P,
    N: FnOnce(&RF) -> F,
>(
    event: NativePointerEvent<RP, RF>,
    pointer_id: NativePointerId,
    sf: S,
    descale: D,
    normalize: N,
    result: Option<PointerEvent<P, F>>,
)
    requires
        is_pointer_event_for(event, pointer_id, sf, descale, normalize, result),
    ensures
        (result matches Some(converted) ==> converted.pointer == pointer_id_of(pointer_id)),
{
}

/// The buttons of a pen are not told apart: whatever the backend's code, the
/// pointer button is the same.
pub proof fn lemma_pen_buttons_are_not_told_apart(a: u16, b: u16)
    ensures
        pointer_button_of(NativePointerButton::Pen(a)) == pointer_button_of(
            NativePointerButton::Pen(b),
        ),
{
}

/// Converting a theme to the backend's and back, or from the backend's and
/// back, gives the theme that one began with.
pub proof fn lemma_theme_round_trip(theme: bevy_window::WindowTheme, backend: winit::window::Theme)
    ensures
        window_theme_of(backend_theme(theme)) == theme,
        backend_theme(window_theme_of(backend)) == backend,
{
}

/// The bits for a choice of window buttons hold a button exactly if the
/// choice switches it on, and they hold nothing else.
pub proof fn lemma_enabled_buttons_are_exact(enabled: bevy_window::EnabledButtons)
    ensures
        has_button(enabled_button_bits(enabled), MINIMIZE_BIT) <==> enabled.minimize,
        has_button(enabled_button_bits(enabled), MAXIMIZE_BIT) <==> enabled.maximize,
        has_button(enabled_button_bits(enabled), CLOSE_BIT) <==> enabled.close,
        enabled_button_bits(enabled) & !(MINIMIZE_BIT | MAXIMIZE_BIT | CLOSE_BIT) == 0,
{
    let m: u32 = if enabled.minimize { 2 } else { 0 };
    let x: u32 = if enabled.maximize { 4 } else { 0 };
    let c: u32 = if enabled.close { 1 } else { 0 };
    assert((m == 0 || m == 2) && (x == 0 || x == 4) && (c == 0 || c == 1) ==> {
        &&& ((m | x | c) & 2 == 2 <==> m == 2)
        &&& ((m | x | c) & 4 == 4 <==> x == 4)
        &&& ((m | x | c) & 1 == 1 <==> c == 1)
        &&& (m | x | c) & !(2u32 | 4u32 | 1u32) == 0
    }) by (bit_vector);
}

} // verus!
