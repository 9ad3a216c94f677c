//! The one interface through which the accessibility tree is built, focused,
//! navigated and handed to the adapter.

use vstd::prelude::*;
use crate::accessibility::{
    focus_after_request, focus_update, offered, snapshot, AccessibilityState, TreeModel,
    TreeUpdate,
};
use crate::focus::{next_focus, AccessibilityFocusDirection};
use crate::focus_state::{next_count, FocusState};
use crate::ids::{AccessibilityId, NodeId};
use crate::node::Rect;
use crate::projector::candidate;
use crate::scene::RenderTree;

verus! {

/// What a holder of the accessibility tree can do.
pub trait AccessibilityProvider {
    /// The tree that is held.
    spec fn tree(&self) -> TreeModel;

    /// The tree keeps its promises at all times.
    fn attest(&self)
        ensures
            self.tree().wf(),
    ;

    /// Removes every node, and the focus with them.
    fn clear(&mut self)
        ensures
            final(self).tree().nodes.len() == 0,
            final(self).tree().focus is None,
            final(self).tree().wf(),
    ;

    /// Adds the accessibility node of a render-tree node after the nodes
    /// that are there, if the render-tree node is accessible and its
    /// identity may enter the tree.
    fn add_node(&mut self, rdom: &RenderTree, node: NodeId, bounds: Option<Rect>)
        ensures
            final(self).tree().nodes == offered(
                old(self).tree().nodes,
                candidate(rdom@, node, bounds),
            ),
            final(self).tree().focus == old(self).tree().focus,
            final(self).tree().wf(),
    ;

    /// The identity of the focused node.
    fn focus_id(&self) -> (focus: Option<AccessibilityId>)
        ensures
            focus == self.tree().focus,
    ;

    /// Sets the focus: a node that is in the tree is focused and the update
    /// for the adapter is handed out; a request for a node that is not in
    /// the tree is dropped; a request for no focus clears it. Only the
    /// first hands out an update.
    fn set_focus_with_update(&mut self, new_focus_id: Option<AccessibilityId>) -> (update: Option<
        TreeUpdate,
    >)
        ensures
            final(self).tree().nodes == old(self).tree().nodes,
            final(self).tree().focus == focus_after_request(
                old(self).tree().ids(),
                old(self).tree().focus,
                new_focus_id,
            ),
            match update {
                Some(update) => new_focus_id matches Some(target) && old(self).tree().ids().contains(
                    target,
                ) && update@ == focus_update(new_focus_id),
                None => new_focus_id matches Some(target) ==> !old(self).tree().ids().contains(
                    target,
                ),
            },
            final(self).tree().wf(),
    ;

    /// Moves the focus one node further in the given direction, writes the
    /// new focus to the shared focus, and hands out the update for the
    /// adapter; with no node in the tree nothing is focused, nothing is
    /// written and there is no update.
    fn set_focus_on_next_node(
        &mut self,
        direction: AccessibilityFocusDirection,
        focus_sender: &mut FocusState,
    ) -> (update: Option<TreeUpdate>)
        ensures
            final(self).tree().nodes == old(self).tree().nodes,
            final(self).tree().focus == next_focus(
                old(self).tree().ids(),
                old(self).tree().focus,
                direction,
            ),
            match update {
                Some(update) => {
                    &&& old(self).tree().nodes.len() > 0
                    &&& update@ == focus_update(final(self).tree().focus)
                    &&& final(focus_sender)@.value == final(self).tree().focus
                    &&& final(focus_sender)@.writes == next_count(old(focus_sender)@.writes)
                },
                None => {
                    &&& old(self).tree().nodes.len() == 0
                    &&& final(self).tree().focus is None
                    &&& final(focus_sender)@ == old(focus_sender)@
                },
            },
            final(self).tree().wf(),
    ;

    /// The full snapshot of the tree for the adapter.
    fn process(&self, root_name: &str) -> (update: TreeUpdate)
        ensures
            update@ == snapshot(self.tree().nodes, self.tree().focus, root_name@),
    ;
}

impl AccessibilityProvider for AccessibilityState {
    open spec fn tree(&self) -> TreeModel {
        self@
    }

    fn attest(&self) {
        AccessibilityState::attest(self)
    }

    fn clear(&mut self) {
        AccessibilityState::clear(self)
    }

    fn add_node(&mut self, rdom: &RenderTree, node: NodeId, bounds: Option<Rect>) {
        self.add_element(rdom, node, bounds)
    }

    fn focus_id(&self) -> (focus: Option<AccessibilityId>) {
        AccessibilityState::focus_id(self)
    }

    fn set_focus_with_update(&mut self, new_focus_id: Option<AccessibilityId>) -> (update: Option<
        TreeUpdate,
    >) {
        self.set_focus(new_focus_id)
    }

    fn set_focus_on_next_node(
        &mut self,
        direction: AccessibilityFocusDirection,
        focus_sender: &mut FocusState,
    ) -> (update: Option<TreeUpdate>) {
        AccessibilityState::set_focus_on_next_node(self, direction, focus_sender)
    }

    fn process(&self, root_name: &str) -> (update: TreeUpdate) {
        AccessibilityState::process(self, root_name)
    }
}

} // verus!
