//! Synthesis of element events from raw platform input.
//!
//! A raw event that hit-testing paired with a node becomes an element event:
//! the name decides whether it bubbles and whether it takes the pointer
//! shape, the kind of input decides what it carries and how its coordinates
//! are resolved. The classifications by name are fixed tables.
//!
//! Positions are not whole numbers. The library holds each coordinate as
//! the bit pattern of a 64-bit IEEE 754 number and never computes with it:
//! it names the rule by which the position of an event is resolved
//! ([`RawInputEvent::coordinates`]) and puts the resolved position into the
//! event.

use vstd::prelude::*;
use crate::ids::{ElementId, NodeId};
use crate::text::{is_prefix, starts_with, str_eq};

verus! {

/// A button of the mouse.
#[derive(Clone, Copy, Debug, PartialEq, Eq, Hash, Structural)]
pub enum MouseButton {
    Left,
    Right,
    Middle,
    Other(u16),
}

/// The phase of a touch.
#[derive(Clone, Copy, Debug, PartialEq, Eq, Hash, Structural)]
pub enum TouchPhase {
    Started,
    Moved,
    Ended,
    Cancelled,
}

/// A position or a distance in two dimensions, each coordinate held as the
/// bit pattern of a 64-bit IEEE 754 number.
#[derive(Clone, Copy, Debug, PartialEq, Eq, Hash, Structural)]
pub struct Point {
    pub x: u64,
    pub y: u64,
}

/// The pressure of a touch, each measure held as the bit pattern of a
/// 64-bit IEEE 754 number.
#[derive(Clone, Copy, Debug, PartialEq, Eq, Hash, Structural)]
pub enum Force {
    Calibrated { force: u64, max_possible_force: u64, altitude_angle: Option<u64> },
    Normalized(u64),
}

/// Where an event happened: on the screen, and within its element.
#[derive(Clone, Copy, Debug, PartialEq, Eq, Hash, Structural)]
pub struct Position {
    pub screen: Point,
    pub element: Point,
}

/// How the position of an event is resolved from that on the device.
#[derive(Clone, Copy, Debug, PartialEq, Eq, Hash, Structural)]
pub enum Coordinates {
    /// The position on the screen is the position on the device divided by
    /// the scale factor; the position within the element is the position
    /// on the screen less the origin of the node.
    Scaled,
    /// The position on the screen is the position on the device as it was
    /// reported; the position within the element is this less the origin
    /// of the node.
    Reported,
    /// The event has no position.
    Absent,
}

/// Raw input from the platform, under the name of the event it may become.
#[derive(Debug, PartialEq, Eq)]
pub enum RawInputEvent {
    /// The mouse moved or a button changed, with the cursor at a position
    /// on the device.
    Mouse { name: String, cursor: Point, button: Option<MouseButton> },
    /// The wheel turned by a distance, with the cursor at a position.
    Wheel { name: String, scroll: Point, cursor: Point },
    /// A key changed: the literal key, the code of the physical key, and
    /// the set of active modifiers as bits.
    Keyboard { name: String, key: String, code: String, modifiers: u32 },
    /// A finger touched the surface at a location.
    Touch { name: String, location: Point, finger_id: u64, phase: TouchPhase, force: Option<Force> },
}

/// What a raw event is, as plain mathematics.
pub enum RawInputModel {
    Mouse { name: Seq<char>, cursor: Point, button: Option<MouseButton> },
    Wheel { name: Seq<char>, scroll: Point, cursor: Point },
    Keyboard { name: Seq<char>, key: Seq<char>, code: Seq<char>, modifiers: u32 },
    Touch {
        name: Seq<char>,
        location: Point,
        finger_id: u64,
        phase: TouchPhase,
        force: Option<Force>,
    },
}

impl View for RawInputEvent {
    type V = RawInputModel;

    open spec fn view(&self) -> RawInputModel {
        match self {
            RawInputEvent::Mouse { name, cursor, button } => RawInputModel::Mouse {
                name: name@,
                cursor: *cursor,
                button: *button,
            },
            RawInputEvent::Wheel { name, scroll, cursor } => RawInputModel::Wheel {
                name: name@,
                scroll: *scroll,
                cursor: *cursor,
            },
            RawInputEvent::Keyboard { name, key, code, modifiers } => RawInputModel::Keyboard {
                name: name@,
                key: key@,
                code: code@,
                modifiers: *modifiers,
            },
            RawInputEvent::Touch { name, location, finger_id, phase, force } => RawInputModel::Touch {
                name: name@,
                location: *location,
                finger_id: *finger_id,
                phase: *phase,
                force: *force,
            },
        }
    }
}

impl RawInputModel {
    /// The name of the event.
    pub open spec fn name(self) -> Seq<char> {
        match self {
            RawInputModel::Mouse { name, .. } => name,
            RawInputModel::Wheel { name, .. } => name,
            RawInputModel::Keyboard { name, .. } => name,
            RawInputModel::Touch { name, .. } => name,
        }
    }

    /// The rule by which the position of the event is resolved: input of
    /// the mouse is scaled, input of a touch is taken as reported, the
    /// wheel and the keyboard give events without a position.
    pub open spec fn coordinates(self) -> Coordinates {
        match self {
            RawInputModel::Mouse { .. } => Coordinates::Scaled,
            RawInputModel::Touch { .. } => Coordinates::Reported,
            RawInputModel::Wheel { .. } => Coordinates::Absent,
            RawInputModel::Keyboard { .. } => Coordinates::Absent,
        }
    }

    /// The position on the device from which the position of the event is
    /// resolved.
    pub open spec fn device_position(self) -> Option<Point> {
        match self {
            RawInputModel::Mouse { cursor, .. } => Some(cursor),
            RawInputModel::Touch { location, .. } => Some(location),
            RawInputModel::Wheel { .. } => None,
            RawInputModel::Keyboard { .. } => None,
        }
    }
}

/// The name belongs to the leave family: the pointer left a node.
pub open spec fn is_leave_name(name: Seq<char>) -> bool {
    name == "mouseleave"@ || name == "pointerleave"@
}

/// An event of this name is delivered to the ancestors of its target too.
/// Events of the leave family are not; every other event is.
pub open spec fn bubbles_by_name(name: Seq<char>) -> bool {
    !is_leave_name(name)
}

/// An event of this name takes the pointer shape.
pub open spec fn is_pointer_name(name: Seq<char>) -> bool {
    is_prefix("pointer"@, name)
}

/// An event of this name tells that the pointer came over a node.
pub open spec fn moves_cursor_by_name(name: Seq<char>) -> bool {
    name == "pointerover"@ || name == "pointerenter"@ || name == "mouseover"@ || name
        == "mouseenter"@
}

/// Whether the name belongs to the leave family.
pub fn is_leave_event(event_name: &str) -> (leave: bool)
    ensures
        leave == is_leave_name(event_name@),
{
    str_eq(event_name, "mouseleave") || str_eq(event_name, "pointerleave")
}

/// Whether an event of this name is delivered to ancestors too.
pub fn does_event_bubble(event_name: &str) -> (bubbles: bool)
    ensures
        bubbles == bubbles_by_name(event_name@),
{
    !is_leave_event(event_name)
}

/// Whether an event of this name takes the pointer shape.
pub fn is_pointer_event_name(event_name: &str) -> (pointer: bool)
    ensures
        pointer == is_pointer_name(event_name@),
{
    starts_with(event_name, "pointer")
}

/// Whether an event of this name tells that the pointer came over a node.
pub fn does_event_move_cursor(event_name: &str) -> (moves: bool)
    ensures
        moves == moves_cursor_by_name(event_name@),
{
    str_eq(event_name, "pointerover") || str_eq(event_name, "pointerenter") || str_eq(
        event_name,
        "mouseover",
    ) || str_eq(event_name, "mouseenter")
}

impl RawInputEvent {
    /// The name of the event.
    pub fn get_name(&self) -> (name: &str)
        ensures
            name@ == self@.name(),
    {
        match self {
            RawInputEvent::Mouse { name, .. } => name.as_str(),
            RawInputEvent::Wheel { name, .. } => name.as_str(),
            RawInputEvent::Keyboard { name, .. } => name.as_str(),
            RawInputEvent::Touch { name, .. } => name.as_str(),
        }
    }

    /// Whether the event takes the pointer shape.
    pub fn is_pointer_event(&self) -> (pointer: bool)
        ensures
            pointer == is_pointer_name(self@.name()),
    {
        is_pointer_event_name(self.get_name())
    }

    /// Whether the event is delivered to ancestors too.
    pub fn does_bubble(&self) -> (bubbles: bool)
        ensures
            bubbles == bubbles_by_name(self@.name()),
    {
        does_event_bubble(self.get_name())
    }

    /// The rule by which the position of the event is resolved.
    pub fn coordinates(&self) -> (rule: Coordinates)
        ensures
            rule == self@.coordinates(),
    {
        match self {
            RawInputEvent::Mouse { .. } => Coordinates::Scaled,
            RawInputEvent::Touch { .. } => Coordinates::Reported,
            RawInputEvent::Wheel { .. } => Coordinates::Absent,
            RawInputEvent::Keyboard { .. } => Coordinates::Absent,
        }
    }

    /// The position on the device from which the position of the event is
    /// resolved.
    pub fn device_position(&self) -> (position: Option<Point>)
        ensures
            position == self@.device_position(),
    {
        match self {
            RawInputEvent::Mouse { cursor, .. } => Some(*cursor),
            RawInputEvent::Touch { location, .. } => Some(*location),
            RawInputEvent::Wheel { .. } => None,
            RawInputEvent::Keyboard { .. } => None,
        }
    }
}

/// A raw event paired with a node that it may be for.
#[derive(Debug, PartialEq, Eq)]
pub struct PotentialEvent {
    pub node_id: NodeId,
    pub layer: Option<i16>,
    pub event: RawInputEvent,
}

/// The device behind a pointer event.
#[derive(Clone, Copy, Debug, PartialEq, Eq, Hash, Structural)]
pub enum PointerType {
    Mouse { trigger_button: Option<MouseButton> },
    Touch { finger_id: u64, phase: TouchPhase, force: Option<Force> },
}

/// What a mouse event carries.
#[derive(Clone, Copy, Debug, PartialEq, Eq, Hash, Structural)]
pub struct MouseData {
    pub screen_coordinates: Point,
    pub element_coordinates: Point,
    pub trigger_button: Option<MouseButton>,
}

/// What a pointer event carries.
#[derive(Clone, Copy, Debug, PartialEq, Eq, Hash, Structural)]
pub struct PointerData {
    pub screen_coordinates: Point,
    pub element_coordinates: Point,
    pub point_type: PointerType,
}

/// What a touch event carries.
#[derive(Clone, Copy, Debug, PartialEq, Eq, Hash, Structural)]
pub struct TouchData {
    pub screen_coordinates: Point,
    pub element_coordinates: Point,
    pub finger_id: u64,
    pub phase: TouchPhase,
    pub force: Option<Force>,
}

/// What a wheel event carries: the distance turned.
#[derive(Clone, Copy, Debug, PartialEq, Eq, Hash, Structural)]
pub struct WheelData {
    pub delta_x: u64,
    pub delta_y: u64,
}

/// What a keyboard event carries.
#[derive(Debug, PartialEq, Eq)]
pub struct KeyboardData {
    pub key: String,
    pub code: String,
    pub modifiers: u32,
}

/// What an element event carries.
#[derive(Debug, PartialEq, Eq)]
pub enum DomEventData {
    Mouse(MouseData),
    Keyboard(KeyboardData),
    Wheel(WheelData),
    Touch(TouchData),
    Pointer(PointerData),
}

/// What the data of an element event is, as plain mathematics.
pub enum DomEventDataModel {
    Mouse(MouseData),
    Keyboard { key: Seq<char>, code: Seq<char>, modifiers: u32 },
    Wheel(WheelData),
    Touch(TouchData),
    Pointer(PointerData),
}

impl View for DomEventData {
    type V = DomEventDataModel;

    open spec fn view(&self) -> DomEventDataModel {
        match self {
            DomEventData::Mouse(data) => DomEventDataModel::Mouse(*data),
            DomEventData::Keyboard(data) => DomEventDataModel::Keyboard {
                key: data.key@,
                code: data.code@,
                modifiers: data.modifiers,
            },
            DomEventData::Wheel(data) => DomEventDataModel::Wheel(*data),
            DomEventData::Touch(data) => DomEventDataModel::Touch(*data),
            DomEventData::Pointer(data) => DomEventDataModel::Pointer(*data),
        }
    }
}

impl Clone for DomEventData {
    fn clone(&self) -> (copy: DomEventData)
        ensures
            copy@ == self@,
    {
        match self {
            DomEventData::Mouse(data) => DomEventData::Mouse(*data),
            DomEventData::Keyboard(data) => DomEventData::Keyboard(
                KeyboardData {
                    key: data.key.clone(),
                    code: data.code.clone(),
                    modifiers: data.modifiers,
                },
            ),
            DomEventData::Wheel(data) => DomEventData::Wheel(*data),
            DomEventData::Touch(data) => DomEventData::Touch(*data),
            DomEventData::Pointer(data) => DomEventData::Pointer(*data),
        }
    }
}

/// An event for an element of the application.
#[derive(Debug, PartialEq, Eq)]
pub struct DomEvent {
    pub name: String,
    pub node_id: NodeId,
    pub element_id: ElementId,
    pub data: DomEventData,
    pub bubbles: bool,
    pub layer: Option<i16>,
}

/// What an element event is, as plain mathematics.
pub struct DomEventModel {
    pub name: Seq<char>,
    pub node_id: NodeId,
    pub element_id: ElementId,
    pub data: DomEventDataModel,
    pub bubbles: bool,
    pub layer: Option<i16>,
}

impl View for DomEvent {
    type V = DomEventModel;

    open spec fn view(&self) -> DomEventModel {
        DomEventModel {
            name: self.name@,
            node_id: self.node_id,
            element_id: self.element_id,
            data: self.data@,
            bubbles: self.bubbles,
            layer: self.layer,
        }
    }
}

impl Clone for DomEvent {
    fn clone(&self) -> (copy: DomEvent)
        ensures
            copy@ == self@,
    {
        DomEvent {
            name: self.name.clone(),
            node_id: self.node_id,
            element_id: self.element_id,
            data: self.data.clone(),
            bubbles: self.bubbles,
            layer: self.layer,
        }
    }
}

/// What an event carries, by the kind of the raw input, its name and its
/// resolved position: input of the mouse or of a touch takes the pointer
/// shape under a pointer name and the shape of its kind under any other,
/// and carries the position in either. The wheel carries the distance it
/// turned and the keyboard its key; neither carries a position.
pub open spec fn data_of(event: RawInputModel, position: Position) -> DomEventDataModel {
    match event {
        RawInputModel::Mouse { name, button, .. } => if is_pointer_name(name) {
            DomEventDataModel::Pointer(
                PointerData {
                    screen_coordinates: position.screen,
                    element_coordinates: position.element,
                    point_type: PointerType::Mouse { trigger_button: button },
                },
            )
        } else {
            DomEventDataModel::Mouse(
                MouseData {
                    screen_coordinates: position.screen,
                    element_coordinates: position.element,
                    trigger_button: button,
                },
            )
        },
        RawInputModel::Wheel { scroll, .. } => DomEventDataModel::Wheel(
            WheelData { delta_x: scroll.x, delta_y: scroll.y },
        ),
        RawInputModel::Keyboard { key, code, modifiers, .. } => DomEventDataModel::Keyboard {
            key,
            code,
            modifiers,
        },
        RawInputModel::Touch { name, finger_id, phase, force, .. } => if is_pointer_name(name) {
            DomEventDataModel::Pointer(
                PointerData {
                    screen_coordinates: position.screen,
                    element_coordinates: position.element,
                    point_type: PointerType::Touch { finger_id, phase, force },
                },
            )
        } else {
            DomEventDataModel::Touch(
                TouchData {
                    screen_coordinates: position.screen,
                    element_coordinates: position.element,
                    finger_id,
                    phase,
                    force,
                },
            )
        },
    }
}

/// The element event that a raw event becomes for a node and its element,
/// at its resolved position.
pub open spec fn synthesized(
    node_id: NodeId,
    layer: Option<i16>,
    event: RawInputModel,
    element_id: ElementId,
    position: Position,
) -> DomEventModel {
    DomEventModel {
        name: event.name(),
        node_id,
        element_id,
        data: data_of(event, position),
        bubbles: bubbles_by_name(event.name()),
        layer,
    }
}

impl DomEvent {
    /// The element event for a raw event that was paired with a node. The
    /// position is the one resolved for the event by the rule that the raw
    /// event names; an event without a position takes none from it.
    pub fn new(potential: PotentialEvent, element_id: ElementId, position: Position) -> (event:
        DomEvent)
        ensures
            event@ == synthesized(
                potential.node_id,
                potential.layer,
                potential.event@,
                element_id,
                position,
            ),
    {
        let PotentialEvent { node_id, layer, event } = potential;
        let is_pointer_event = event.is_pointer_event();
        let bubbles = event.does_bubble();
        let screen_coordinates = position.screen;
        let element_coordinates = position.element;
        match event {
            RawInputEvent::Mouse { name, button, .. } => {
                let data = if is_pointer_event {
                    DomEventData::Pointer(
                        PointerData {
                            screen_coordinates,
                            element_coordinates,
                            point_type: PointerType::Mouse { trigger_button: button },
                        },
                    )
                } else {
                    DomEventData::Mouse(
                        MouseData { screen_coordinates, element_coordinates, trigger_button: button },
                    )
                };
                DomEvent { name, node_id, element_id, data, bubbles, layer }
            },
            RawInputEvent::Wheel { name, scroll, .. } => DomEvent {
                name,
                node_id,
                element_id,
                data: DomEventData::Wheel(WheelData { delta_x: scroll.x, delta_y: scroll.y }),
                bubbles,
                layer,
            },
            RawInputEvent::Keyboard { name, key, code, modifiers } => DomEvent {
                name,
                node_id,
                element_id,
                data: DomEventData::Keyboard(KeyboardData { key, code, modifiers }),
                bubbles,
                layer,
            },
            RawInputEvent::Touch { name, finger_id, phase, force, .. } => {
                let data = if is_pointer_event {
                    DomEventData::Pointer(
                        PointerData {
                            screen_coordinates,
                            element_coordinates,
                            point_type: PointerType::Touch { finger_id, phase, force },
                        },
                    )
                } else {
                    DomEventData::Touch(
                        TouchData {
                            screen_coordinates,
                            element_coordinates,
                            finger_id,
                            phase,
                            force,
                        },
                    )
                };
                DomEvent { name, node_id, element_id, data, bubbles, layer }
            },
        }
    }

    /// Whether the event tells that the pointer came over a node.
    pub fn does_move_cursor(&self) -> (moves: bool)
        ensures
            moves == moves_cursor_by_name(self@.name),
    {
        does_event_move_cursor(self.name.as_str())
    }

    /// Whether the event can change the hover state of an element: the
    /// events by which the pointer comes over a node can.
    pub fn can_change_element_hover_state(&self) -> (can: bool)
        ensures
            can == moves_cursor_by_name(self@.name),
    {
        does_event_move_cursor(self.name.as_str())
    }

    /// Whether the event belongs to the leave family.
    pub fn is_leave(&self) -> (leave: bool)
        ensures
            leave == is_leave_name(self@.name),
    {
        is_leave_event(self.name.as_str())
    }
}

} // verus!
