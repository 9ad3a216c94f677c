//! The nodes of the accessibility tree and the updates that carry them to
//! the platform adapter.

use vstd::prelude::*;
use crate::ids::AccessibilityId;
use crate::role::Role;

verus! {

/// A rectangle in the coordinate space of the platform adapter. Each edge is
/// held as the bit pattern of a 64-bit IEEE 754 number; the library copies
/// edges and never computes with them.
#[derive(Clone, Copy, Debug, PartialEq, Eq, Hash, Structural)]
pub struct Rect {
    pub x0: u64,
    pub y0: u64,
    pub x1: u64,
    pub y1: u64,
}

impl Default for Rect {
    fn default() -> (rect: Rect)
        ensures
            rect == (Rect { x0: 0, y0: 0, x1: 0, y1: 0 }),
    {
        Rect { x0: 0, y0: 0, x1: 0, y1: 0 }
    }
}

/// What a node offers to do when assistive technology asks.
#[derive(Clone, Copy, Debug, PartialEq, Eq, Hash, Structural)]
pub enum Action {
    /// Take keyboard focus.
    Focus,
    /// The generic default action, a click.
    Activate,
}

/// The characters of an optional string.
pub open spec fn text_of(text: Option<String>) -> Option<Seq<char>> {
    match text {
        Some(s) => Some(s@),
        None => None,
    }
}

/// One node of the accessibility tree.
#[derive(Debug, PartialEq, Eq)]
pub struct AccessibilityNode {
    pub id: AccessibilityId,
    pub role: Role,
    pub bounds: Option<Rect>,
    pub name: Option<String>,
    pub value: Option<String>,
    pub children: Vec<AccessibilityId>,
    pub focusable: bool,
}

/// What a node is, as plain mathematics.
pub struct NodeModel {
    pub id: AccessibilityId,
    pub role: Role,
    pub bounds: Option<Rect>,
    pub name: Option<Seq<char>>,
    pub value: Option<Seq<char>>,
    pub children: Seq<AccessibilityId>,
    pub focusable: bool,
}

impl View for AccessibilityNode {
    type V = NodeModel;

    open spec fn view(&self) -> NodeModel {
        NodeModel {
            id: self.id,
            role: self.role,
            bounds: self.bounds,
            name: text_of(self.name),
            value: text_of(self.value),
            children: self.children@,
            focusable: self.focusable,
        }
    }
}

impl NodeModel {
    /// The action that the node exposes: focus for a focusable node, the
    /// default action for any other.
    pub open spec fn action(self) -> Action {
        if self.focusable {
            Action::Focus
        } else {
            Action::Activate
        }
    }
}

/// A copy of an optional string.
pub fn clone_text(text: &Option<String>) -> (copy: Option<String>)
    ensures
        text_of(copy) == text_of(*text),
{
    match text {
        Some(s) => Some(s.clone()),
        None => None,
    }
}

impl Clone for AccessibilityNode {
    fn clone(&self) -> (copy: AccessibilityNode)
        ensures
            copy@ == self@,
    {
        AccessibilityNode {
            id: self.id,
            role: self.role,
            bounds: self.bounds,
            name: clone_text(&self.name),
            value: clone_text(&self.value),
            children: self.children.clone(),
            focusable: self.focusable,
        }
    }
}

impl AccessibilityNode {
    /// The action that the node exposes.
    pub fn action(&self) -> (action: Action)
        ensures
            action == self@.action(),
    {
        if self.focusable {
            Action::Focus
        } else {
            Action::Activate
        }
    }
}

} // verus!
