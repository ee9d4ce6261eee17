use bevy_math::{DVec2, Vec2};
use pointer_input::converters::convert_pointer_input;
use pointer_input::native::{
    NativeMouseButton, NativePointerButton, NativePointerEvent, NativePointerId, NativeTool,
};
use pointer_input::pointer::{
    MouseButton, PenButton, PointerButton, PointerEvent, PointerEventType, PointerId, Tool,
};
use winit::dpi::PhysicalPosition;
use winit::event::{ElementState, Force};

type Native = NativePointerEvent<PhysicalPosition<f64>, Force>;

fn descale(position: PhysicalPosition<f64>, sf: f64) -> Vec2 {
    (DVec2::new(position.x, position.y) / sf).as_vec2()
}

fn normalize(force: &Force) -> f64 {
    force.normalized()
}

fn convert(event: Native, pointer_id: NativePointerId, sf: f64) -> Option<PointerEvent<Vec2, f64>> {
    convert_pointer_input(event, pointer_id, sf, descale, normalize)
}

#[test]
fn moved_position_is_divided_by_the_scale_factor() {
    let event = Native::Moved { position: PhysicalPosition::new(200.0, 100.0), force: None };
    let converted = convert(event, NativePointerId::Cursor, 2.0);
    assert_eq!(
        converted,
        Some(PointerEvent {
            pointer: PointerId::Mouse,
            event: PointerEventType::Moved { position: Vec2::new(100.0, 50.0), force: None },
        })
    );
}

#[test]
fn left_mouse_button_pressed_at_scale_one() {
    let event = Native::Button {
        button: NativePointerButton::Mouse(NativeMouseButton::Left),
        state: ElementState::Pressed,
        position: Some(PhysicalPosition::new(10.0, 20.0)),
        force: None,
    };
    let converted = convert(event, NativePointerId::Cursor, 1.0).unwrap();
    assert_eq!(
        converted.event,
        PointerEventType::Button {
            button: PointerButton::Mouse(MouseButton::Left),
            pressed: true,
            position: Some(Vec2::new(10.0, 20.0)),
            force: None,
        }
    );
    assert_eq!(converted.pointer, PointerId::Mouse);
}

#[test]
fn unrecognized_event_gives_none() {
    assert_eq!(convert(Native::Unrecognized, NativePointerId::Cursor, 1.0), None);
    assert_eq!(convert(Native::Unrecognized, NativePointerId::Touch { finger: 3 }, 2.0), None);
    let pen = NativePointerId::Pen { tool: NativeTool::Eraser };
    assert_eq!(convert(Native::Unrecognized, pen, 0.5), None);
}

#[test]
fn recognized_events_give_some() {
    let position = PhysicalPosition::new(1.0, 2.0);
    let events = vec![
        Native::Entered,
        Native::Left,
        Native::Moved { position, force: None },
        Native::Button {
            button: NativePointerButton::Touch,
            state: ElementState::Released,
            position: None,
            force: None,
        },
    ];
    for event in events {
        assert!(convert(event, NativePointerId::Cursor, 1.0).is_some());
    }
}

#[test]
fn entered_stays_entered() {
    let converted = convert(Native::Entered, NativePointerId::Cursor, 2.0);
    assert_eq!(
        converted,
        Some(PointerEvent { pointer: PointerId::Mouse, event: PointerEventType::Entered })
    );
}

#[test]
fn left_stays_left() {
    let converted = convert(Native::Left, NativePointerId::Touch { finger: 9 }, 2.0);
    assert_eq!(
        converted,
        Some(PointerEvent {
            pointer: PointerId::Touch { finger: 9 },
            event: PointerEventType::Left,
        })
    );
}

#[test]
fn entered_and_left_do_not_use_position_or_force() {
    fn no_position(_: PhysicalPosition<f64>, _: f64) -> Vec2 {
        panic!("no position to descale")
    }
    fn no_force(_: &Force) -> f64 {
        panic!("no force to normalize")
    }
    let entered: Option<PointerEvent<Vec2, f64>> =
        convert_pointer_input(Native::Entered, NativePointerId::Cursor, 3.0, no_position, no_force);
    assert!(matches!(entered, Some(PointerEvent { event: PointerEventType::Entered, .. })));
    let left: Option<PointerEvent<Vec2, f64>> =
        convert_pointer_input(Native::Left, NativePointerId::Cursor, 3.0, no_position, no_force);
    assert!(matches!(left, Some(PointerEvent { event: PointerEventType::Left, .. })));
}

#[test]
fn absent_position_and_force_stay_absent() {
    fn no_position(_: PhysicalPosition<f64>, _: f64) -> Vec2 {
        panic!("no position to descale")
    }
    fn no_force(_: &Force) -> f64 {
        panic!("no force to normalize")
    }
    let event = Native::Button {
        button: NativePointerButton::Touch,
        state: ElementState::Pressed,
        position: None,
        force: None,
    };
    let converted: Option<PointerEvent<Vec2, f64>> = convert_pointer_input(
        event,
        NativePointerId::Touch { finger: 1 },
        2.0,
        no_position,
        no_force,
    );
    assert_eq!(
        converted,
        Some(PointerEvent {
            pointer: PointerId::Touch { finger: 1 },
            event: PointerEventType::Button {
                button: PointerButton::Touch,
                pressed: true,
                position: None,
                force: None,
            },
        })
    );
}

#[test]
fn cursor_is_the_mouse() {
    let converted = convert(Native::Entered, NativePointerId::Cursor, 1.0).unwrap();
    assert_eq!(converted.pointer, PointerId::Mouse);
}

#[test]
fn finger_keeps_its_number() {
    for finger in [0, 1, 7, 1 << 40, u64::MAX] {
        let converted = convert(Native::Entered, NativePointerId::Touch { finger }, 1.0).unwrap();
        assert_eq!(converted.pointer, PointerId::Touch { finger });
    }
}

#[test]
fn pen_keeps_its_tool() {
    let pen = convert(Native::Left, NativePointerId::Pen { tool: NativeTool::Pen }, 1.0).unwrap();
    assert_eq!(pen.pointer, PointerId::Pen { tool: Tool::Pen });
    let eraser =
        convert(Native::Left, NativePointerId::Pen { tool: NativeTool::Eraser }, 1.0).unwrap();
    assert_eq!(eraser.pointer, PointerId::Pen { tool: Tool::Eraser });
}

#[test]
fn different_pointers_get_different_ids() {
    let ids = [
        NativePointerId::Cursor,
        NativePointerId::Touch { finger: 0 },
        NativePointerId::Touch { finger: 1 },
        NativePointerId::Pen { tool: NativeTool::Pen },
        NativePointerId::Pen { tool: NativeTool::Eraser },
    ];
    for a in ids {
        for b in ids {
            let id_a = convert(Native::Entered, a, 1.0).unwrap().pointer;
            let id_b = convert(Native::Entered, b, 1.0).unwrap().pointer;
            assert_eq!(id_a == id_b, a == b);
        }
    }
}

#[test]
fn pressed_is_true_and_released_is_false() {
    for (state, expected) in [(ElementState::Pressed, true), (ElementState::Released, false)] {
        let event = Native::Button {
            button: NativePointerButton::Touch,
            state,
            position: None,
            force: None,
        };
        let converted = convert(event, NativePointerId::Touch { finger: 2 }, 1.0).unwrap();
        match converted.event {
            PointerEventType::Button { pressed, .. } => {
                assert_eq!(pressed, expected);
                assert_eq!(pressed, state.is_pressed());
            }
            other => panic!("not a button event: {:?}", other),
        }
    }
}

#[test]
fn moved_position_for_several_scale_factors() {
    let cases = [
        (640.0, 480.0, 1.0, 640.0, 480.0),
        (640.0, 480.0, 2.0, 320.0, 240.0),
        (300.0, 150.0, 1.5, 200.0, 100.0),
        (100.0, 50.0, 0.5, 200.0, 100.0),
        (-30.0, 0.0, 3.0, -10.0, 0.0),
        (1.0, 3.0, 4.0, 0.25, 0.75),
    ];
    for (x, y, sf, expected_x, expected_y) in cases {
        let event = Native::Moved { position: PhysicalPosition::new(x, y), force: None };
        let converted = convert(event, NativePointerId::Cursor, sf).unwrap();
        match converted.event {
            PointerEventType::Moved { position, force } => {
                assert!((position.x - expected_x).abs() < 1e-6);
                assert!((position.y - expected_y).abs() < 1e-6);
                assert_eq!(position.x, (x / sf) as f32);
                assert_eq!(position.y, (y / sf) as f32);
                assert_eq!(force, None);
            }
            other => panic!("not a move: {:?}", other),
        }
    }
}

#[test]
fn button_position_is_divided_like_a_move() {
    let event = Native::Button {
        button: NativePointerButton::Mouse(NativeMouseButton::Right),
        state: ElementState::Released,
        position: Some(PhysicalPosition::new(300.0, 90.0)),
        force: None,
    };
    let converted = convert(event, NativePointerId::Cursor, 3.0).unwrap();
    assert_eq!(
        converted.event,
        PointerEventType::Button {
            button: PointerButton::Mouse(MouseButton::Right),
            pressed: false,
            position: Some(Vec2::new(100.0, 30.0)),
            force: None,
        }
    );
}

#[test]
fn normalized_force_is_kept() {
    let event = Native::Moved {
        position: PhysicalPosition::new(4.0, 8.0),
        force: Some(Force::Normalized(0.25)),
    };
    let converted = convert(event, NativePointerId::Touch { finger: 5 }, 2.0).unwrap();
    assert_eq!(
        converted.event,
        PointerEventType::Moved { position: Vec2::new(2.0, 4.0), force: Some(0.25) }
    );
}

#[test]
fn calibrated_force_is_divided_by_the_greatest_force() {
    let force = Force::Calibrated { force: 1.5, max_possible_force: 6.0, altitude_angle: None };
    let event = Native::Button {
        button: NativePointerButton::Pen(0),
        state: ElementState::Pressed,
        position: Some(PhysicalPosition::new(50.0, 60.0)),
        force: Some(force),
    };
    let pen = NativePointerId::Pen { tool: NativeTool::Pen };
    let converted = convert(event, pen, 2.0).unwrap();
    assert_eq!(
        converted,
        PointerEvent {
            pointer: PointerId::Pen { tool: Tool::Pen },
            event: PointerEventType::Button {
                button: PointerButton::Pen(PenButton::Touch),
                pressed: true,
                position: Some(Vec2::new(25.0, 30.0)),
                force: Some(0.25),
            },
        }
    );
}

#[test]
fn every_pen_button_is_touch() {
    for code in [0, 1, 2, 255, u16::MAX] {
        let event = Native::Button {
            button: NativePointerButton::Pen(code),
            state: ElementState::Pressed,
            position: None,
            force: None,
        };
        let pen = NativePointerId::Pen { tool: NativeTool::Eraser };
        let converted = convert(event, pen, 1.0).unwrap();
        match converted.event {
            PointerEventType::Button { button, .. } => {
                assert_eq!(button, PointerButton::Pen(PenButton::Touch));
                assert_ne!(button, PointerButton::Pen(PenButton::Side));
            }
            other => panic!("not a button event: {:?}", other),
        }
    }
}

#[test]
fn touch_button_stays_touch() {
    let event = Native::Button {
        button: NativePointerButton::Touch,
        state: ElementState::Pressed,
        position: Some(PhysicalPosition::new(0.0, 0.0)),
        force: Some(Force::Normalized(1.0)),
    };
    let converted = convert(event, NativePointerId::Touch { finger: 0 }, 1.0).unwrap();
    assert_eq!(
        converted.event,
        PointerEventType::Button {
            button: PointerButton::Touch,
            pressed: true,
            position: Some(Vec2::new(0.0, 0.0)),
            force: Some(1.0),
        }
    );
}

#[test]
fn every_mouse_button_of_a_button_event() {
    let buttons = [
        (NativeMouseButton::Left, MouseButton::Left),
        (NativeMouseButton::Right, MouseButton::Right),
        (NativeMouseButton::Middle, MouseButton::Middle),
        (NativeMouseButton::Back, MouseButton::Back),
        (NativeMouseButton::Forward, MouseButton::Forward),
        (NativeMouseButton::Other(17), MouseButton::Other(17)),
    ];
    for (native, expected) in buttons {
        let event = Native::Button {
            button: NativePointerButton::Mouse(native),
            state: ElementState::Pressed,
            position: None,
            force: None,
        };
        let converted = convert(event, NativePointerId::Cursor, 1.0).unwrap();
        match converted.event {
            PointerEventType::Button { button, .. } => {
                assert_eq!(button, PointerButton::Mouse(expected))
            }
            other => panic!("not a button event: {:?}", other),
        }
    }
}

#[test]
fn conversion_works_with_other_number_types() {
    let event: NativePointerEvent<(i32, i32), u8> =
        NativePointerEvent::Moved { position: (30, -12), force: Some(200) };
    let converted = convert_pointer_input(
        event,
        NativePointerId::Cursor,
        3,
        |position: (i32, i32), sf: i32| (position.0 / sf, position.1 / sf),
        |force: &u8| u16::from(*force) * 4,
    );
    assert_eq!(
        converted,
        Some(PointerEvent {
            pointer: PointerId::Mouse,
            event: PointerEventType::Moved { position: (10, -4), force: Some(800) },
        })
    );
}

#[test]
fn events_can_be_copied() {
    let event = Native::Moved { position: PhysicalPosition::new(2.0, 4.0), force: None };
    let copy = event;
    assert_eq!(event.clone(), copy);
    let converted = convert(event, NativePointerId::Cursor, 2.0).unwrap();
    let converted_copy = converted;
    assert_eq!(converted.clone(), converted_copy);
    assert_eq!(converted.event.clone(), converted_copy.event);
}
