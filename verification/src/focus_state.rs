//! The focus that the application and the navigator share.
//!
//! The shared focus is a single slot: it holds the latest value and counts
//! its writes, so that an observer can tell that there was a write since it
//! last looked. An observer sees the latest value only, never the values
//! that were overwritten before it looked.

use vstd::prelude::*;
use crate::ids::AccessibilityId;
use crate::role::Role;

verus! {

/// The shared focus: at most one node is focused at a time.
#[derive(Debug)]
pub struct FocusState {
    value: Option<AccessibilityId>,
    writes: u64,
}

/// What the shared focus is, as plain mathematics.
pub struct FocusStateModel {
    /// The focused node.
    pub value: Option<AccessibilityId>,
    /// The number of writes so far, counted round the 64-bit numbers.
    pub writes: u64,
}

impl View for FocusState {
    type V = FocusStateModel;

    closed spec fn view(&self) -> FocusStateModel {
        FocusStateModel { value: self.value, writes: self.writes }
    }
}

/// The count that follows `writes`.
pub open spec fn next_count(writes: u64) -> u64 {
    if writes == u64::MAX {
        0
    } else {
        (writes + 1) as u64
    }
}

impl FocusState {
    /// The shared focus at the start: nothing is focused and nothing was
    /// written.
    pub fn new() -> (state: FocusState)
        ensures
            state@.value is None,
            state@.writes == 0,
    {
        FocusState { value: None, writes: 0 }
    }

    /// The focused node.
    pub fn get(&self) -> (value: Option<AccessibilityId>)
        ensures
            value == self@.value,
    {
        self.value
    }

    /// The number of writes so far.
    pub fn writes(&self) -> (writes: u64)
        ensures
            writes == self@.writes,
    {
        self.writes
    }

    /// Writes the focus. The value before is lost; the write is counted,
    /// whether or not the value differs from it.
    pub fn send(&mut self, value: Option<AccessibilityId>)
        ensures
            final(self)@.value == value,
            final(self)@.writes == next_count(old(self)@.writes),
    {
        self.value = value;
        self.writes = if self.writes == u64::MAX {
            0
        } else {
            self.writes + 1
        };
    }
}

impl Default for FocusState {
    fn default() -> (state: FocusState)
        ensures
            state@.value is None,
            state@.writes == 0,
    {
        FocusState::new()
    }
}

/// One observer of the shared focus: it remembers the count of writes at
/// which it last looked.
#[derive(Clone, Copy, Debug, PartialEq, Eq, Hash, Structural)]
pub struct FocusObserver {
    pub seen: u64,
}

impl FocusObserver {
    /// An observer that has seen the shared focus as it is now.
    pub fn new(state: &FocusState) -> (observer: FocusObserver)
        ensures
            observer.seen == state@.writes,
    {
        FocusObserver { seen: state.writes() }
    }

    /// Whether the shared focus was written since the observer last looked.
    pub fn has_changed(&self, state: &FocusState) -> (changed: bool)
        ensures
            changed == (state@.writes != self.seen),
    {
        state.writes() != self.seen
    }

    /// Looks at the shared focus: the latest value, after which nothing is
    /// new to this observer.
    pub fn observe(&mut self, state: &FocusState) -> (value: Option<AccessibilityId>)
        ensures
            value == state@.value,
            final(self).seen == state@.writes,
    {
        self.seen = state.writes();
        state.get()
    }
}

/// What happened to the focus.
#[derive(Clone, Copy, Debug, PartialEq, Eq, Hash, Structural)]
pub enum FocusChange {
    /// The application wrote the shared focus.
    Requested(Option<AccessibilityId>),
    /// The navigator moved the focus of the accessibility tree.
    Navigated(Option<AccessibilityId>),
}

/// What is to be done about a change of the focus.
#[derive(Clone, Copy, Debug, PartialEq, Eq, Hash, Structural)]
pub enum FocusAction {
    /// Ask the accessibility tree to focus the node.
    FocusNode(AccessibilityId),
    /// Write the value to the shared focus.
    Publish(Option<AccessibilityId>),
    /// Nothing.
    Nothing,
}

/// The action that carries a change of the focus to the other side.
pub open spec fn propagated(change: FocusChange) -> FocusAction {
    match change {
        FocusChange::Requested(Some(id)) => FocusAction::FocusNode(id),
        FocusChange::Requested(None) => FocusAction::Nothing,
        FocusChange::Navigated(focus) => FocusAction::Publish(focus),
    }
}

/// Carries changes of the focus from the application to the accessibility
/// tree and back: a node that the application focused is to be focused in
/// the tree, and a focus that the navigator chose is to be written to the
/// shared focus. That the application focused nothing asks for nothing.
#[allow(non_snake_case)]
pub fn AccessibilityFocusProvider(change: FocusChange) -> (action: FocusAction)
    ensures
        action == propagated(change),
{
    match change {
        FocusChange::Requested(Some(id)) => FocusAction::FocusNode(id),
        FocusChange::Requested(None) => FocusAction::Nothing,
        FocusChange::Navigated(focus) => FocusAction::Publish(focus),
    }
}

/// The handle by which a component of the application reads and moves the
/// focus of its node.
#[derive(Clone, Copy, Debug, PartialEq, Eq, Hash, Structural)]
pub struct UseAccessibility {
    pub id: AccessibilityId,
    pub role: Role,
}

impl UseAccessibility {
    /// The identity of the node.
    pub fn id(&self) -> (id: AccessibilityId)
        ensures
            id == self.id,
    {
        self.id
    }

    /// The role of the node.
    pub fn role(&self) -> (role: Role)
        ensures
            role == self.role,
    {
        self.role
    }

    /// Whether the node is the focused one.
    pub fn is_focused(&self, shared: &FocusState) -> (focused: bool)
        ensures
            focused == (shared@.value == Some(self.id)),
    {
        match shared.get() {
            Some(id) => id == self.id,
            None => false,
        }
    }

    /// Focuses the node.
    pub fn focus(&self, shared: &mut FocusState)
        ensures
            final(shared)@.value == Some(self.id),
            final(shared)@.writes == next_count(old(shared)@.writes),
    {
        shared.send(Some(self.id));
    }

    /// Takes the focus from whatever node has it.
    pub fn unfocus(&self, shared: &mut FocusState)
        ensures
            final(shared)@.value is None,
            final(shared)@.writes == next_count(old(shared)@.writes),
    {
        shared.send(None);
    }
}

} // verus!
