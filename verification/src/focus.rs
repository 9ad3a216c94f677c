//! Focus navigation over the ordered list of node identities.
//!
//! The order of navigation is the order of the list, which is paint order.
//! Forward moves to the next position and wraps from the last to the first;
//! backward moves to the previous position and wraps from the first to the
//! last. With nothing focused, either direction selects the first node.

use vstd::prelude::*;
use crate::ids::AccessibilityId;

verus! {

/// Direction for the next node to be focused.
#[derive(Clone, Copy, Debug, PartialEq, Eq, Hash, Structural)]
pub enum AccessibilityFocusDirection {
    Forward,
    Backward,
}

/// The position that follows `index` in a list of `len` nodes, in the given
/// direction, with wraparound.
pub open spec fn target_index(len: int, index: int, direction: AccessibilityFocusDirection) -> int {
    match direction {
        AccessibilityFocusDirection::Forward => if index + 1 == len {
            0
        } else {
            index + 1
        },
        AccessibilityFocusDirection::Backward => if index == 0 {
            len - 1
        } else {
            index - 1
        },
    }
}

/// The focus that one step of navigation leaves, given the node list and the
/// focus before it. Over an empty list nothing can be focused. With no focus,
/// or with a focus that is not in the list, the first node is selected.
pub open spec fn next_focus(
    ids: Seq<AccessibilityId>,
    focus: Option<AccessibilityId>,
    direction: AccessibilityFocusDirection,
) -> Option<AccessibilityId> {
    if ids.len() == 0 {
        None
    } else {
        match focus {
            None => Some(ids[0]),
            Some(current) => match ids.index_of_first(current) {
                Some(index) => Some(ids[target_index(ids.len() as int, index, direction)]),
                None => Some(ids[0]),
            },
        }
    }
}

/// The focus after `steps` steps of navigation in one direction.
pub open spec fn focus_after(
    ids: Seq<AccessibilityId>,
    focus: Option<AccessibilityId>,
    direction: AccessibilityFocusDirection,
    steps: nat,
) -> Option<AccessibilityId>
    decreases steps,
{
    if steps == 0 {
        focus
    } else {
        next_focus(ids, focus_after(ids, focus, direction, (steps - 1) as nat), direction)
    }
}

/// In a list without duplicates, the position of an identity is the one
/// place where it stands.
proof fn lemma_position_of(ids: Seq<AccessibilityId>, index: int)
    requires
        ids.no_duplicates(),
        0 <= index < ids.len(),
    ensures
        ids.index_of_first(ids[index]) == Some(index),
{
    ids.index_of_first_ensures(ids[index]);
}

/// One step from the node at `index` leads to the node at the target
/// position.
proof fn lemma_step_from(
    ids: Seq<AccessibilityId>,
    index: int,
    direction: AccessibilityFocusDirection,
)
    requires
        ids.no_duplicates(),
        0 <= index < ids.len(),
    ensures
        0 <= target_index(ids.len() as int, index, direction) < ids.len(),
        next_focus(ids, Some(ids[index]), direction) == Some(
            ids[target_index(ids.len() as int, index, direction)],
        ),
{
    lemma_position_of(ids, index);
}

/// Navigation never leaves the list: what it selects is one of the nodes,
/// and it selects nothing only where there is no node.
pub proof fn lemma_next_focus_is_present(
    ids: Seq<AccessibilityId>,
    focus: Option<AccessibilityId>,
    direction: AccessibilityFocusDirection,
)
    ensures
        ids.len() == 0 ==> next_focus(ids, focus, direction) is None,
        ids.len() > 0 ==> next_focus(ids, focus, direction) is Some && ids.contains(
            next_focus(ids, focus, direction).unwrap(),
        ),
{
    if ids.len() > 0 {
        match focus {
            None => {},
            Some(current) => {
                ids.index_of_first_ensures(current);
            },
        }
    }
}

/// Round trip: from a focused node, a step forward followed by a step
/// backward returns to that node, and so does a step backward followed by a
/// step forward. It holds of every list without duplicates in which the
/// focused node stands. It does not hold from "nothing focused", where both
/// directions select the first node.
pub proof fn lemma_round_trip(ids: Seq<AccessibilityId>, focused: AccessibilityId)
    requires
        ids.no_duplicates(),
        ids.contains(focused),
    ensures
        next_focus(
            ids,
            next_focus(ids, Some(focused), AccessibilityFocusDirection::Forward),
            AccessibilityFocusDirection::Backward,
        ) == Some(focused),
        next_focus(
            ids,
            next_focus(ids, Some(focused), AccessibilityFocusDirection::Backward),
            AccessibilityFocusDirection::Forward,
        ) == Some(focused),
{
    ids.index_of_first_ensures(focused);
    let index = ids.index_of_first(focused).unwrap();
    let len = ids.len() as int;
    lemma_step_from(ids, index, AccessibilityFocusDirection::Forward);
    lemma_step_from(ids, index, AccessibilityFocusDirection::Backward);
    lemma_step_from(
        ids,
        target_index(len, index, AccessibilityFocusDirection::Forward),
        AccessibilityFocusDirection::Backward,
    );
    lemma_step_from(
        ids,
        target_index(len, index, AccessibilityFocusDirection::Backward),
        AccessibilityFocusDirection::Forward,
    );
}

/// The position reached from `index` after `steps` forward steps, for at
/// most `len` steps.
pub open spec fn forward_index(len: int, index: int, steps: int) -> int {
    if index + steps < len {
        index + steps
    } else {
        index + steps - len
    }
}

/// After `steps` forward steps from the node at `index`, the focus is on the
/// node `steps` positions further, counted round the list.
proof fn lemma_forward_steps(ids: Seq<AccessibilityId>, index: int, steps: nat)
    requires
        ids.no_duplicates(),
        0 <= index < ids.len(),
        steps <= ids.len(),
    ensures
        0 <= forward_index(ids.len() as int, index, steps as int) < ids.len(),
        focus_after(ids, Some(ids[index]), AccessibilityFocusDirection::Forward, steps) == Some(
            ids[forward_index(ids.len() as int, index, steps as int)],
        ),
    decreases steps,
{
    if steps > 0 {
        let before = (steps - 1) as nat;
        lemma_forward_steps(ids, index, before);
        lemma_step_from(
            ids,
            forward_index(ids.len() as int, index, before as int),
            AccessibilityFocusDirection::Forward,
        );
    }
}

/// Full cycle: in a list of `n` nodes without duplicates, `n` forward steps
/// from a focused node return to that node.
pub proof fn lemma_full_cycle(ids: Seq<AccessibilityId>, focused: AccessibilityId)
    requires
        ids.no_duplicates(),
        ids.contains(focused),
    ensures
        focus_after(ids, Some(focused), AccessibilityFocusDirection::Forward, ids.len())
            == Some(focused),
{
    ids.index_of_first_ensures(focused);
    let index = ids.index_of_first(focused).unwrap();
    lemma_forward_steps(ids, index, ids.len());
}

/// With no node, navigation selects nothing, however often it is asked.
pub proof fn lemma_no_nodes_no_focus(
    focus: Option<AccessibilityId>,
    direction: AccessibilityFocusDirection,
    steps: nat,
)
    requires
        steps > 0,
    ensures
        focus_after(Seq::<AccessibilityId>::empty(), focus, direction, steps) is None,
{
}

} // verus!
