use std::cmp::Ordering;

use scene_projection::events::{
    does_event_bubble, does_event_move_cursor, is_leave_event, is_pointer_event_name, Coordinates,
    DomEvent, DomEventData, Force, RawInputEvent, KeyboardData, MouseButton, MouseData, Point,
    PointerData, PointerType, Position, PotentialEvent, TouchData, TouchPhase, WheelData,
};
use scene_projection::ids::{ElementId, NodeId};
use scene_projection::ordering::dispatch_order;

fn point(x: f64, y: f64) -> Point {
    Point { x: x.to_bits(), y: y.to_bits() }
}

const FORCE: Option<Force> = Some(Force::Normalized(0x3FE0_0000_0000_0000));

fn at() -> Position {
    Position { screen: point(60.0, 40.0), element: point(40.0, 30.0) }
}

fn mouse(name: &str, button: Option<MouseButton>) -> RawInputEvent {
    RawInputEvent::Mouse { name: name.to_string(), cursor: point(120.0, 80.0), button }
}

fn touch(name: &str) -> RawInputEvent {
    RawInputEvent::Touch {
        name: name.to_string(),
        location: point(60.0, 40.0),
        finger_id: 4,
        phase: TouchPhase::Moved,
        force: FORCE,
    }
}

fn wheel() -> RawInputEvent {
    RawInputEvent::Wheel { name: "wheel".to_string(), scroll: point(0.0, -3.5), cursor: point(1.0, 2.0) }
}

fn on(node: usize, layer: Option<i16>, event: RawInputEvent) -> PotentialEvent {
    PotentialEvent { node_id: NodeId(node), layer, event }
}

fn named(name: &str, node: usize) -> DomEvent {
    DomEvent::new(on(node, None, mouse(name, None)), ElementId(node), at())
}

#[test]
fn a_mouse_event_becomes_a_mouse_shaped_element_event() {
    let event = DomEvent::new(
        on(3, Some(2), mouse("click", Some(MouseButton::Left))),
        ElementId(7), at());
    assert_eq!(
        event,
        DomEvent {
            name: "click".to_string(),
            node_id: NodeId(3),
            element_id: ElementId(7),
            data: DomEventData::Mouse(MouseData {
                screen_coordinates: point(60.0, 40.0),
                element_coordinates: point(40.0, 30.0),
                trigger_button: Some(MouseButton::Left),
            }),
            bubbles: true,
            layer: Some(2),
        }
    );
}

#[test]
fn a_mouse_event_under_a_pointer_name_takes_the_pointer_shape() {
    let event = DomEvent::new(
        on(3, None, mouse("pointerdown", Some(MouseButton::Other(9)))),
        ElementId(0), at());
    assert_eq!(
        event.data,
        DomEventData::Pointer(PointerData {
            screen_coordinates: point(60.0, 40.0),
            element_coordinates: point(40.0, 30.0),
            point_type: PointerType::Mouse { trigger_button: Some(MouseButton::Other(9)) },
        })
    );
    assert_eq!(event.name, "pointerdown");
    assert!(event.bubbles);
    assert_eq!(event.layer, None);
}

#[test]
fn one_raw_movement_gives_both_shapes() {
    let as_mouse = DomEvent::new(on(1, Some(0), mouse("mouseover", None)), ElementId(1), at());
    let as_pointer = DomEvent::new(on(1, Some(0), mouse("pointerover", None)), ElementId(1), at());
    assert_eq!(
        as_mouse.data,
        DomEventData::Mouse(MouseData {
            screen_coordinates: point(60.0, 40.0),
            element_coordinates: point(40.0, 30.0),
            trigger_button: None,
        })
    );
    assert_eq!(
        as_pointer.data,
        DomEventData::Pointer(PointerData {
            screen_coordinates: point(60.0, 40.0),
            element_coordinates: point(40.0, 30.0),
            point_type: PointerType::Mouse { trigger_button: None },
        })
    );
}

#[test]
fn a_touch_event_keeps_finger_and_phase() {
    let event = DomEvent::new(on(5, Some(-1), touch("touchmove")), ElementId(6), at());
    assert_eq!(
        event,
        DomEvent {
            name: "touchmove".to_string(),
            node_id: NodeId(5),
            element_id: ElementId(6),
            data: DomEventData::Touch(TouchData {
                screen_coordinates: point(60.0, 40.0),
                element_coordinates: point(40.0, 30.0),
                finger_id: 4,
                phase: TouchPhase::Moved,
                force: FORCE,
            }),
            bubbles: true,
            layer: Some(-1),
        }
    );
    let pointer = DomEvent::new(on(5, None, touch("pointermove")), ElementId(6), at());
    assert_eq!(
        pointer.data,
        DomEventData::Pointer(PointerData {
            screen_coordinates: point(60.0, 40.0),
            element_coordinates: point(40.0, 30.0),
            point_type: PointerType::Touch { finger_id: 4, phase: TouchPhase::Moved, force: FORCE },
        })
    );
}

#[test]
fn a_keyboard_event_carries_key_code_and_modifiers() {
    let raw = RawInputEvent::Keyboard {
        name: "keydown".to_string(),
        key: "a".to_string(),
        code: "KeyA".to_string(),
        modifiers: 0b101,
    };
    let event = DomEvent::new(on(2, None, raw), ElementId(9), at());
    assert_eq!(
        event.data,
        DomEventData::Keyboard(KeyboardData {
            key: "a".to_string(),
            code: "KeyA".to_string(),
            modifiers: 0b101,
        })
    );
    assert!(event.bubbles);
}

#[test]
fn a_keyboard_event_has_one_shape_whatever_its_name() {
    let raw = RawInputEvent::Keyboard {
        name: "pointerkey".to_string(),
        key: "Enter".to_string(),
        code: "Enter".to_string(),
        modifiers: 0,
    };
    let event = DomEvent::new(on(2, None, raw), ElementId(9), at());
    assert!(matches!(event.data, DomEventData::Keyboard(_)));
}

#[test]
fn a_wheel_event_has_the_wheel_shape() {
    let event = DomEvent::new(on(2, Some(1), wheel()), ElementId(2), at());
    assert_eq!(
        event.data,
        DomEventData::Wheel(WheelData { delta_x: 0.0f64.to_bits(), delta_y: (-3.5f64).to_bits() })
    );
    assert_eq!(event.name, "wheel");
}

#[test]
fn leave_events_do_not_bubble() {
    assert!(!named("mouseleave", 1).bubbles);
    assert!(!named("pointerleave", 1).bubbles);
    assert!(named("mouseenter", 1).bubbles);
    assert!(named("click", 1).bubbles);
    assert!(!does_event_bubble("mouseleave"));
    assert!(!does_event_bubble("pointerleave"));
    assert!(does_event_bubble("mouseleav"));
    assert!(does_event_bubble("mouseleave "));
    assert!(does_event_bubble("Mouseleave"));
    assert!(does_event_bubble(""));
    assert!(does_event_bubble("keydown"));
}

#[test]
fn the_raw_event_answers_for_its_name() {
    let raw = mouse("pointerleave", None);
    assert_eq!(raw.get_name(), "pointerleave");
    assert!(raw.is_pointer_event());
    assert!(!raw.does_bubble());
    let raw = touch("touchstart");
    assert_eq!(raw.get_name(), "touchstart");
    assert!(!raw.is_pointer_event());
    assert!(raw.does_bubble());
}

#[test]
fn pointer_names_begin_with_pointer() {
    assert!(is_pointer_event_name("pointerdown"));
    assert!(is_pointer_event_name("pointer"));
    assert!(is_pointer_event_name("pointerleave"));
    assert!(!is_pointer_event_name("pointe"));
    assert!(!is_pointer_event_name("mousepointer"));
    assert!(!is_pointer_event_name("Pointerdown"));
    assert!(!is_pointer_event_name(""));
    assert!(!is_pointer_event_name("click"));
}

#[test]
fn the_leave_family_has_two_names() {
    assert!(is_leave_event("mouseleave"));
    assert!(is_leave_event("pointerleave"));
    assert!(!is_leave_event("touchleave"));
    assert!(!is_leave_event("leave"));
    assert!(!is_leave_event("mouseenter"));
}

#[test]
fn four_names_tell_that_the_pointer_came_over_a_node() {
    for name in ["pointerover", "pointerenter", "mouseover", "mouseenter"] {
        assert!(does_event_move_cursor(name));
        assert!(named(name, 1).does_move_cursor());
        assert!(named(name, 1).can_change_element_hover_state());
    }
    for name in ["mouseleave", "pointerleave", "click", "mousedown", "pointerdown", "wheel", ""] {
        assert!(!does_event_move_cursor(name));
        assert!(!named(name, 1).does_move_cursor());
        assert!(!named(name, 1).can_change_element_hover_state());
    }
}

#[test]
fn mouse_input_is_scaled_and_touch_input_is_taken_as_reported() {
    assert_eq!(mouse("click", None).coordinates(), Coordinates::Scaled);
    assert_eq!(mouse("pointerup", None).coordinates(), Coordinates::Scaled);
    assert_eq!(touch("touchend").coordinates(), Coordinates::Reported);
    assert_eq!(touch("pointerup").coordinates(), Coordinates::Reported);
    assert_eq!(wheel().coordinates(), Coordinates::Absent);
    let key = RawInputEvent::Keyboard {
        name: "keydown".to_string(),
        key: "a".to_string(),
        code: "KeyA".to_string(),
        modifiers: 0,
    };
    assert_eq!(key.coordinates(), Coordinates::Absent);
    assert_eq!(key.device_position(), None);
    assert_eq!(wheel().device_position(), None);
    assert_eq!(mouse("click", None).device_position(), Some(point(120.0, 80.0)));
    assert_eq!(touch("touchend").device_position(), Some(point(60.0, 40.0)));
}

#[test]
fn the_resolved_position_is_put_into_the_event() {
    let position = Position { screen: point(1.5, -2.0), element: point(0.25, 8.0) };
    let event = DomEvent::new(on(1, None, mouse("mousedown", None)), ElementId(1), position);
    assert_eq!(
        event.data,
        DomEventData::Mouse(MouseData {
            screen_coordinates: point(1.5, -2.0),
            element_coordinates: point(0.25, 8.0),
            trigger_button: None,
        })
    );
}

#[test]
fn a_leave_event_ranks_below_every_other_event() {
    let leave = named("pointerleave", 1);
    let click = named("click", 2);
    assert_eq!(leave.cmp(&click), Ordering::Less);
    assert_eq!(click.cmp(&leave), Ordering::Greater);
    assert_eq!(leave.partial_cmp(&click), Some(Ordering::Less));
}

#[test]
fn a_leave_event_is_level_with_a_leave_event_of_its_name_only() {
    let pointer = named("pointerleave", 1);
    let other_pointer = named("pointerleave", 2);
    let mouse_leave = named("mouseleave", 3);
    assert_eq!(pointer.cmp(&other_pointer), Ordering::Equal);
    assert_eq!(pointer.cmp(&pointer), Ordering::Equal);
    assert_eq!(pointer.cmp(&mouse_leave), Ordering::Less);
    assert_eq!(mouse_leave.cmp(&pointer), Ordering::Less);
}

#[test]
fn other_events_are_above_whatever_they_are_held_against() {
    let click = named("click", 1);
    let down = named("mousedown", 2);
    assert_eq!(click.cmp(&down), Ordering::Greater);
    assert_eq!(down.cmp(&click), Ordering::Greater);
    assert_eq!(click.cmp(&click), Ordering::Greater);
    assert_eq!(click.partial_cmp(&click), Some(Ordering::Greater));
}

#[test]
fn an_unrelated_event_is_dispatched_before_a_leave_event() {
    let batch = vec![named("pointerleave", 1), named("click", 2)];
    let ordered = dispatch_order(batch);
    assert_eq!(ordered, vec![named("click", 2), named("pointerleave", 1)]);

    let batch = vec![named("click", 2), named("pointerleave", 1)];
    let ordered = dispatch_order(batch);
    assert_eq!(ordered, vec![named("click", 2), named("pointerleave", 1)]);
}

#[test]
fn each_run_of_a_batch_keeps_the_order_of_arrival() {
    let batch = vec![
        named("mouseleave", 1),
        named("mousedown", 2),
        named("pointerleave", 3),
        named("click", 4),
        named("mouseleave", 5),
        named("mouseenter", 6),
    ];
    let ordered = dispatch_order(batch);
    let names: Vec<(&str, usize)> =
        ordered.iter().map(|event| (event.name.as_str(), event.node_id.0)).collect();
    assert_eq!(
        names,
        vec![
            ("mousedown", 2),
            ("click", 4),
            ("mouseenter", 6),
            ("mouseleave", 1),
            ("pointerleave", 3),
            ("mouseleave", 5),
        ]
    );
}

#[test]
fn an_empty_batch_stays_empty() {
    assert_eq!(dispatch_order(Vec::new()), Vec::new());
}

#[test]
fn a_copy_of_an_event_equals_the_event() {
    let raw = RawInputEvent::Keyboard {
        name: "keyup".to_string(),
        key: "ß".to_string(),
        code: "Minus".to_string(),
        modifiers: 3,
    };
    let event = DomEvent::new(on(2, Some(7), raw), ElementId(9), at());
    assert_eq!(event.clone(), event);
}
