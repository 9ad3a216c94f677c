use scene_projection::accessibility::{AccessibilityState, TreeUpdate};
use scene_projection::focus::AccessibilityFocusDirection;
use scene_projection::focus_state::{FocusObserver, FocusState};
use scene_projection::ids::AccessibilityId;
use scene_projection::node::AccessibilityNode;
use scene_projection::role::Role;

const A: AccessibilityId = AccessibilityId(10);
const B: AccessibilityId = AccessibilityId(20);
const C: AccessibilityId = AccessibilityId(30);

fn node(id: AccessibilityId) -> AccessibilityNode {
    AccessibilityNode {
        id,
        role: Role::Button,
        bounds: None,
        name: None,
        value: None,
        children: Vec::new(),
        focusable: true,
    }
}

fn flat_list(ids: &[AccessibilityId]) -> AccessibilityState {
    let mut state = AccessibilityState::new();
    for id in ids {
        state.push_node(node(*id));
    }
    state
}

fn step(
    state: &mut AccessibilityState,
    direction: AccessibilityFocusDirection,
) -> Option<TreeUpdate> {
    let mut shared = FocusState::new();
    let update = state.set_focus_on_next_node(direction, &mut shared);
    if update.is_some() {
        assert_eq!(shared.get(), state.focus_id());
        assert_eq!(shared.writes(), 1);
    } else {
        assert_eq!(shared.writes(), 0);
    }
    update
}

fn focus_only(focus: Option<AccessibilityId>) -> TreeUpdate {
    TreeUpdate { nodes: Vec::new(), tree: None, focus }
}

#[test]
fn forward_walks_the_list_and_wraps() {
    let mut state = flat_list(&[A, B, C]);
    assert_eq!(state.focus_id(), None);
    step(&mut state, AccessibilityFocusDirection::Forward);
    assert_eq!(state.focus_id(), Some(A));
    step(&mut state, AccessibilityFocusDirection::Forward);
    assert_eq!(state.focus_id(), Some(B));
    step(&mut state, AccessibilityFocusDirection::Forward);
    assert_eq!(state.focus_id(), Some(C));
    step(&mut state, AccessibilityFocusDirection::Forward);
    assert_eq!(state.focus_id(), Some(A));
}

#[test]
fn backward_walks_the_list_and_wraps() {
    let mut state = flat_list(&[A, B, C]);
    assert!(state.set_focus(Some(B)).is_some());
    step(&mut state, AccessibilityFocusDirection::Backward);
    assert_eq!(state.focus_id(), Some(A));
    step(&mut state, AccessibilityFocusDirection::Backward);
    assert_eq!(state.focus_id(), Some(C));
    step(&mut state, AccessibilityFocusDirection::Backward);
    assert_eq!(state.focus_id(), Some(B));
}

#[test]
fn with_nothing_focused_both_directions_select_the_first_node() {
    let mut forward = flat_list(&[A, B, C]);
    step(&mut forward, AccessibilityFocusDirection::Forward);
    assert_eq!(forward.focus_id(), Some(A));

    let mut backward = flat_list(&[A, B, C]);
    step(&mut backward, AccessibilityFocusDirection::Backward);
    assert_eq!(backward.focus_id(), Some(A));
}

#[test]
fn from_nothing_focused_forward_then_backward_does_not_return() {
    let mut state = flat_list(&[A, B, C]);
    step(&mut state, AccessibilityFocusDirection::Forward);
    step(&mut state, AccessibilityFocusDirection::Backward);
    assert_eq!(state.focus_id(), Some(C));
}

#[test]
fn forward_then_backward_returns_to_the_start() {
    for start in [A, B, C] {
        let mut state = flat_list(&[A, B, C]);
        state.set_focus(Some(start));
        step(&mut state, AccessibilityFocusDirection::Forward);
        assert_ne!(state.focus_id(), Some(start));
        step(&mut state, AccessibilityFocusDirection::Backward);
        assert_eq!(state.focus_id(), Some(start));
    }
}

#[test]
fn backward_then_forward_returns_to_the_start() {
    for start in [A, B] {
        let mut state = flat_list(&[A, B]);
        state.set_focus(Some(start));
        step(&mut state, AccessibilityFocusDirection::Backward);
        step(&mut state, AccessibilityFocusDirection::Forward);
        assert_eq!(state.focus_id(), Some(start));
    }
}

#[test]
fn as_many_forward_steps_as_nodes_return_to_the_start() {
    let ids: Vec<AccessibilityId> = (1..=7).map(|n| AccessibilityId(100 + n)).collect();
    for start in &ids {
        let mut state = flat_list(&ids);
        state.set_focus(Some(*start));
        for taken in 1..=ids.len() {
            step(&mut state, AccessibilityFocusDirection::Forward);
            if taken < ids.len() {
                assert_ne!(state.focus_id(), Some(*start));
            }
        }
        assert_eq!(state.focus_id(), Some(*start));
    }
}

#[test]
fn a_single_node_keeps_the_focus() {
    let mut state = flat_list(&[A]);
    step(&mut state, AccessibilityFocusDirection::Forward);
    assert_eq!(state.focus_id(), Some(A));
    step(&mut state, AccessibilityFocusDirection::Forward);
    assert_eq!(state.focus_id(), Some(A));
    step(&mut state, AccessibilityFocusDirection::Backward);
    assert_eq!(state.focus_id(), Some(A));
}

#[test]
fn without_nodes_navigation_focuses_nothing_and_makes_no_update() {
    let mut state = AccessibilityState::new();
    assert_eq!(step(&mut state, AccessibilityFocusDirection::Forward), None);
    assert_eq!(state.focus_id(), None);
    assert_eq!(step(&mut state, AccessibilityFocusDirection::Backward), None);
    assert_eq!(state.focus_id(), None);
}

#[test]
fn navigation_hands_out_a_focus_only_update() {
    let mut state = flat_list(&[A, B]);
    let update = step(&mut state, AccessibilityFocusDirection::Forward);
    assert_eq!(update, Some(focus_only(Some(A))));
    let update = step(&mut state, AccessibilityFocusDirection::Forward);
    assert_eq!(update, Some(focus_only(Some(B))));
}

#[test]
fn set_focus_on_a_present_node_commits_and_updates() {
    let mut state = flat_list(&[A, B, C]);
    let update = state.set_focus(Some(C));
    assert_eq!(update, Some(focus_only(Some(C))));
    assert_eq!(state.focus_id(), Some(C));
}

#[test]
fn set_focus_on_an_absent_node_is_dropped() {
    let mut state = flat_list(&[A, B]);
    assert_eq!(state.set_focus(Some(C)), None);
    assert_eq!(state.focus_id(), None);
    state.set_focus(Some(B));
    assert_eq!(state.set_focus(Some(AccessibilityId(999))), None);
    assert_eq!(state.focus_id(), Some(B));
    assert_eq!(state.len(), 2);
}

#[test]
fn set_focus_on_an_empty_tree_is_dropped() {
    let mut state = AccessibilityState::new();
    assert_eq!(state.set_focus(Some(A)), None);
    assert_eq!(state.focus_id(), None);
}

#[test]
fn the_focus_is_always_a_node_of_the_tree() {
    let mut state = flat_list(&[A, B, C]);
    let requests = [A, AccessibilityId(5), C, AccessibilityId(0), B, AccessibilityId(1)];
    for id in requests {
        state.set_focus(Some(id));
        if let Some(focused) = state.focus_id() {
            assert!(state.contains(focused));
        }
    }
    assert_eq!(state.focus_id(), Some(B));
}

#[test]
fn navigation_writes_the_new_focus_to_the_shared_focus() {
    let mut state = flat_list(&[A, B]);
    let mut shared = FocusState::new();
    let mut observer = FocusObserver::new(&shared);
    state.set_focus_on_next_node(AccessibilityFocusDirection::Forward, &mut shared);
    assert!(observer.has_changed(&shared));
    assert_eq!(observer.observe(&shared), Some(A));
    state.set_focus_on_next_node(AccessibilityFocusDirection::Forward, &mut shared);
    state.set_focus_on_next_node(AccessibilityFocusDirection::Forward, &mut shared);
    assert_eq!(observer.observe(&shared), Some(A));
    assert_eq!(shared.writes(), 3);
}

#[test]
fn without_nodes_navigation_writes_nothing_to_the_shared_focus() {
    let mut state = AccessibilityState::new();
    let mut shared = FocusState::new();
    shared.send(Some(C));
    let update = state.set_focus_on_next_node(AccessibilityFocusDirection::Forward, &mut shared);
    assert_eq!(update, None);
    assert_eq!(shared.get(), Some(C));
    assert_eq!(shared.writes(), 1);
}

#[test]
fn setting_no_focus_clears_it_without_an_update() {
    let mut state = flat_list(&[A, B]);
    state.set_focus(Some(B));
    assert_eq!(state.set_focus(None), None);
    assert_eq!(state.focus_id(), None);
    assert_eq!(state.set_focus(None), None);
    assert_eq!(state.len(), 2);
}
