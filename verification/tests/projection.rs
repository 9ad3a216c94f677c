use scene_projection::accessibility::AccessibilityState;
use scene_projection::focus_state::FocusState;
use scene_projection::ids::{AccessibilityId, NodeId};
use scene_projection::layers::Layers;
use scene_projection::node::{AccessibilityNode, Rect};
use scene_projection::projector::{build_node, process_accessibility, project};
use scene_projection::role::Role;
use scene_projection::scene::{Accessibility, Layout, RenderTree, SceneNode};

fn plain(children: &[usize]) -> SceneNode {
    SceneNode {
        accessibility: Accessibility::default(),
        text: None,
        children: children.iter().map(|c| NodeId(*c)).collect(),
    }
}

fn text(literal: &str) -> SceneNode {
    SceneNode {
        accessibility: Accessibility::default(),
        text: Some(literal.to_string()),
        children: Vec::new(),
    }
}

fn accessible(id: u128, role: Option<Role>, focusable: bool, children: &[usize]) -> SceneNode {
    SceneNode {
        accessibility: Accessibility { role, id: Some(AccessibilityId(id)), focusable, name: None, alt: None },
        text: None,
        children: children.iter().map(|c| NodeId(*c)).collect(),
    }
}

fn rebuild(layers: &Layers, layout: &Layout, tree: &RenderTree, state: &mut AccessibilityState) {
    let mut shared = FocusState::new();
    process_accessibility(layers, layout, tree, state, &mut shared);
}

fn rect(x0: f64, y0: f64, x1: f64, y1: f64) -> Rect {
    Rect { x0: x0.to_bits(), y0: y0.to_bits(), x1: x1.to_bits(), y1: y1.to_bits() }
}

/// 0 root
/// ├─ 1 button (id 100, focusable)
/// │   └─ 2 text "Save"
/// ├─ 3 group (no id)
/// │   └─ 4 label (id 200, alt "Alternative")
/// │       └─ 5 text "Hidden"
/// └─ 6 panel (id 300)
///     ├─ 7 wrapper (no id)
///     │   └─ 8 text "Deep"
///     └─ 9 image (id 400, named)
fn scene() -> RenderTree {
    let mut label = accessible(200, Some(Role::Text), false, &[5]);
    label.accessibility.alt = Some("Alternative".to_string());
    let mut image = accessible(400, Some(Role::Image), false, &[]);
    image.accessibility.name = Some("Logo".to_string());
    RenderTree::from_nodes(vec![
        plain(&[1, 3, 6]),
        accessible(100, Some(Role::Button), true, &[2]),
        text("Save"),
        plain(&[4]),
        label,
        text("Hidden"),
        accessible(300, None, false, &[7, 9]),
        plain(&[8]),
        text("Deep"),
        image,
    ])
    .unwrap()
}

fn layout() -> Layout {
    let mut areas = vec![None; 10];
    areas[1] = Some(rect(20.0, 10.0, 120.0, 40.0));
    areas[4] = Some(rect(0.0, 50.0, 80.0, 70.0));
    areas[6] = Some(rect(0.0, 80.0, 200.0, 180.0));
    Layout { areas }
}

fn layers() -> Layers {
    let mut layers = Layers::new();
    for node in 0..10 {
        layers.add_element(NodeId(node), 0);
    }
    layers
}

fn button() -> AccessibilityNode {
    AccessibilityNode {
        id: AccessibilityId(100),
        role: Role::Button,
        bounds: Some(rect(20.0, 10.0, 120.0, 40.0)),
        name: None,
        value: Some("Save".to_string()),
        children: Vec::new(),
        focusable: true,
    }
}

fn label() -> AccessibilityNode {
    AccessibilityNode {
        id: AccessibilityId(200),
        role: Role::Text,
        bounds: Some(rect(0.0, 50.0, 80.0, 70.0)),
        name: None,
        value: Some("Alternative".to_string()),
        children: Vec::new(),
        focusable: false,
    }
}

fn panel() -> AccessibilityNode {
    AccessibilityNode {
        id: AccessibilityId(300),
        role: Role::Unknown,
        bounds: Some(rect(0.0, 80.0, 200.0, 180.0)),
        name: None,
        value: Some("Deep".to_string()),
        children: vec![AccessibilityId(400)],
        focusable: false,
    }
}

fn image() -> AccessibilityNode {
    AccessibilityNode {
        id: AccessibilityId(400),
        role: Role::Image,
        bounds: None,
        name: Some("Logo".to_string()),
        value: None,
        children: Vec::new(),
        focusable: false,
    }
}

#[test]
fn a_tree_needs_parents_before_children() {
    assert!(RenderTree::from_nodes(Vec::new()).is_some());
    assert!(RenderTree::from_nodes(vec![plain(&[1]), plain(&[])]).is_some());
    assert!(RenderTree::from_nodes(vec![plain(&[1]), plain(&[0])]).is_none());
    assert!(RenderTree::from_nodes(vec![plain(&[0])]).is_none());
    assert!(RenderTree::from_nodes(vec![plain(&[2]), plain(&[])]).is_none());
    assert_eq!(RenderTree::new().len(), 0);
    assert_eq!(scene().len(), 10);
}

#[test]
fn a_node_is_found_by_its_position() {
    let tree = scene();
    assert_eq!(tree.get(NodeId(2)), Some(&text("Save")));
    assert_eq!(tree.get(NodeId(10)), None);
}

#[test]
fn the_inner_text_is_that_of_the_first_text_bearing_descendant() {
    let tree = scene();
    assert_eq!(tree.get_inner_texts(NodeId(1)), Some("Save".to_string()));
    assert_eq!(tree.get_inner_texts(NodeId(0)), Some("Save".to_string()));
    assert_eq!(tree.get_inner_texts(NodeId(3)), Some("Hidden".to_string()));
    assert_eq!(tree.get_inner_texts(NodeId(6)), Some("Deep".to_string()));
    assert_eq!(tree.get_inner_texts(NodeId(9)), None);
    assert_eq!(tree.get_inner_texts(NodeId(2)), None);
    assert_eq!(tree.get_inner_texts(NodeId(10)), None);
}

#[test]
fn the_accessible_children_are_the_children_that_carry_an_identity() {
    let tree = scene();
    assert_eq!(
        tree.get_accessibility_children(NodeId(0)),
        vec![AccessibilityId(100), AccessibilityId(300)]
    );
    assert_eq!(tree.get_accessibility_children(NodeId(3)), vec![AccessibilityId(200)]);
    assert_eq!(tree.get_accessibility_children(NodeId(6)), vec![AccessibilityId(400)]);
    assert_eq!(tree.get_accessibility_children(NodeId(1)), Vec::new());
    assert_eq!(tree.get_accessibility_children(NodeId(10)), Vec::new());
}

#[test]
fn a_node_is_built_from_its_attributes_bounds_and_subtree() {
    let tree = scene();
    let layout = layout();
    assert_eq!(build_node(&tree, NodeId(1), layout.get(NodeId(1))), Some(button()));
    assert_eq!(build_node(&tree, NodeId(4), layout.get(NodeId(4))), Some(label()));
    assert_eq!(build_node(&tree, NodeId(6), layout.get(NodeId(6))), Some(panel()));
    assert_eq!(build_node(&tree, NodeId(9), layout.get(NodeId(9))), Some(image()));
    assert_eq!(build_node(&tree, NodeId(0), None), None);
    assert_eq!(build_node(&tree, NodeId(10), None), None);
}

#[test]
fn the_layout_holds_bounds_by_position() {
    let layout = layout();
    assert_eq!(layout.get(NodeId(1)), Some(rect(20.0, 10.0, 120.0, 40.0)));
    assert_eq!(layout.get(NodeId(0)), None);
    assert_eq!(layout.get(NodeId(99)), None);
    assert_eq!(Layout::new().get(NodeId(0)), None);
}

#[test]
fn the_projection_holds_the_accessible_nodes_in_paint_order() {
    let mut state = AccessibilityState::new();
    rebuild(&layers(), &layout(), &scene(), &mut state);
    assert_eq!(state.len(), 4);
    assert_eq!(state.node(0), Some(&button()));
    assert_eq!(state.node(1), Some(&label()));
    assert_eq!(state.node(2), Some(&panel()));
    assert_eq!(state.node(3), Some(&image()));
    assert_eq!(state.focus_id(), None);
}

#[test]
fn the_layers_decide_the_order_of_the_projection() {
    let mut layers = Layers::new();
    layers.add_element(NodeId(1), 5);
    layers.add_element(NodeId(9), -3);
    layers.add_element(NodeId(6), 5);
    layers.add_element(NodeId(4), 0);
    let mut state = AccessibilityState::new();
    rebuild(&layers, &layout(), &scene(), &mut state);
    let ids: Vec<AccessibilityId> =
        (0..state.len()).map(|i| state.node(i).unwrap().id).collect();
    assert_eq!(
        ids,
        vec![AccessibilityId(400), AccessibilityId(200), AccessibilityId(100), AccessibilityId(300)]
    );
}

#[test]
fn a_node_that_the_layers_do_not_list_is_not_projected() {
    let mut layers = Layers::new();
    layers.add_element(NodeId(1), 0);
    layers.add_element(NodeId(6), 0);
    layers.add_element(NodeId(42), 0);
    let mut state = AccessibilityState::new();
    rebuild(&layers, &layout(), &scene(), &mut state);
    assert_eq!(state.len(), 2);
    assert!(!state.contains(AccessibilityId(400)));
    assert_eq!(state.node(1), Some(&panel()));
}

#[test]
fn the_root_lists_the_projected_nodes_that_no_projected_node_claims() {
    let mut state = AccessibilityState::new();
    rebuild(&layers(), &layout(), &scene(), &mut state);
    let update = state.process("Window");
    assert_eq!(
        update.nodes[0].1.children,
        vec![AccessibilityId(100), AccessibilityId(200), AccessibilityId(300)]
    );
    let ids: Vec<AccessibilityId> = update.nodes.iter().map(|pair| pair.0).collect();
    assert_eq!(
        ids,
        vec![
            AccessibilityId(1),
            AccessibilityId(400),
            AccessibilityId(300),
            AccessibilityId(200),
            AccessibilityId(100)
        ]
    );
}

#[test]
fn a_rebuild_replaces_the_nodes() {
    let mut state = AccessibilityState::new();
    rebuild(&layers(), &layout(), &scene(), &mut state);
    rebuild(&layers(), &layout(), &scene(), &mut state);
    assert_eq!(state.len(), 4);
    rebuild(&Layers::new(), &layout(), &scene(), &mut state);
    assert_eq!(state.len(), 0);
}

#[test]
fn the_focus_survives_a_rebuild_that_keeps_its_node() {
    let mut state = AccessibilityState::new();
    rebuild(&layers(), &layout(), &scene(), &mut state);
    state.set_focus(Some(AccessibilityId(300)));
    rebuild(&layers(), &layout(), &scene(), &mut state);
    assert_eq!(state.focus_id(), Some(AccessibilityId(300)));
    assert_eq!(state.process("w").focus, Some(AccessibilityId(300)));
}

#[test]
fn the_focus_is_cleared_when_its_node_left_the_scene() {
    let mut state = AccessibilityState::new();
    rebuild(&layers(), &layout(), &scene(), &mut state);
    state.set_focus(Some(AccessibilityId(100)));
    let without_button = RenderTree::from_nodes(vec![
        plain(&[1]),
        accessible(300, None, false, &[]),
    ])
    .unwrap();
    let mut layers = Layers::new();
    layers.add_element(NodeId(0), 0);
    layers.add_element(NodeId(1), 0);
    rebuild(&layers, &Layout::new(), &without_button, &mut state);
    assert_eq!(state.focus_id(), None);
    assert_eq!(state.process("w").focus, None);
    assert_eq!(state.len(), 1);
}

#[test]
fn identities_persist_when_other_attributes_change() {
    let mut before = AccessibilityState::new();
    rebuild(&layers(), &layout(), &scene(), &mut before);

    let mut label = accessible(200, Some(Role::Button), true, &[5]);
    label.accessibility.name = Some("Renamed".to_string());
    let changed = RenderTree::from_nodes(vec![
        plain(&[1, 3, 6]),
        accessible(100, None, false, &[2]),
        text("Store"),
        plain(&[4]),
        label,
        text("Shown"),
        accessible(300, Some(Role::Other(7)), true, &[7, 9]),
        plain(&[8]),
        text("Deeper"),
        accessible(400, None, false, &[]),
    ])
    .unwrap();
    let mut after = AccessibilityState::new();
    rebuild(&layers(), &Layout::new(), &changed, &mut after);

    assert_eq!(after.len(), before.len());
    for i in 0..before.len() {
        assert_eq!(after.node(i).unwrap().id, before.node(i).unwrap().id);
    }
    assert_eq!(after.node(1).unwrap().name, Some("Renamed".to_string()));
    assert_eq!(after.node(0).unwrap().bounds, None);
}

#[test]
fn an_identity_that_two_nodes_carry_is_projected_once() {
    let tree = RenderTree::from_nodes(vec![
        accessible(10, Some(Role::Text), false, &[]),
        accessible(10, Some(Role::Image), false, &[]),
        accessible(0, None, false, &[]),
        accessible(1, None, false, &[]),
        accessible(11, None, false, &[]),
    ])
    .unwrap();
    let mut layers = Layers::new();
    for node in [0usize, 1, 2, 3, 4, 0, 4] {
        layers.add_element(NodeId(node), 0);
    }
    let mut state = AccessibilityState::new();
    rebuild(&layers, &Layout::new(), &tree, &mut state);
    assert_eq!(state.len(), 2);
    assert_eq!(state.node(0).unwrap().role, Role::Text);
    assert_eq!(state.node(1).unwrap().id, AccessibilityId(11));
}

#[test]
fn add_element_adds_one_projected_node() {
    let tree = scene();
    let mut state = AccessibilityState::new();
    state.add_element(&tree, NodeId(9), None);
    state.add_element(&tree, NodeId(0), None);
    state.add_element(&tree, NodeId(77), None);
    state.add_element(&tree, NodeId(9), None);
    assert_eq!(state.len(), 1);
    assert_eq!(state.node(0), Some(&image()));
}

#[test]
fn the_shared_focus_is_cleared_with_the_focus_of_the_tree() {
    let mut state = AccessibilityState::new();
    let mut shared = FocusState::new();
    process_accessibility(&layers(), &layout(), &scene(), &mut state, &mut shared);
    assert_eq!(shared.writes(), 0);
    state.set_focus(Some(AccessibilityId(100)));
    shared.send(Some(AccessibilityId(100)));

    process_accessibility(&layers(), &layout(), &scene(), &mut state, &mut shared);
    assert_eq!(shared.get(), Some(AccessibilityId(100)));
    assert_eq!(shared.writes(), 1);

    process_accessibility(&Layers::new(), &layout(), &scene(), &mut state, &mut shared);
    assert_eq!(state.focus_id(), None);
    assert_eq!(shared.get(), None);
    assert_eq!(shared.writes(), 2);

    process_accessibility(&Layers::new(), &layout(), &scene(), &mut state, &mut shared);
    assert_eq!(shared.writes(), 2);
}

#[test]
fn a_scene_projects_to_a_tree_with_nothing_focused() {
    let tree = project(&layers(), &layout(), &scene());
    assert_eq!(tree.len(), 4);
    assert_eq!(tree.node(0), Some(&button()));
    assert_eq!(tree.node(3), Some(&image()));
    assert_eq!(tree.focus_id(), None);
    assert_eq!(project(&Layers::new(), &Layout::new(), &RenderTree::new()).len(), 0);
}
