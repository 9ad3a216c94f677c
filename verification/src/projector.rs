//! The projector: it walks the layer index in paint order and rebuilds the
//! accessibility tree from the render tree and the resolved bounds.

use vstd::prelude::*;
use crate::accessibility::{admissible, node_ids, offered, well_formed, AccessibilityState};
use crate::focus_state::{next_count, FocusState, FocusStateModel};
use crate::ids::{AccessibilityId, NodeId};
use crate::layers::{paint_order, LayerModel, Layers};
use crate::node::{clone_text, AccessibilityNode, NodeModel, Rect};
use crate::provider::AccessibilityProvider;
use crate::role::Role;
use crate::scene::{
    accessible_children, bounds_at, inner_text, Layout, RenderTree, SceneNodeModel,
};

verus! {

/// The accessibility node that stands for an accessible render-tree node
/// with the given bounds. Its identity is the one the render-tree node
/// carries. Its value is the explicit one, or else the text of the first
/// text-bearing descendant; its children are the accessible children.
pub open spec fn node_for(tree: Seq<SceneNodeModel>, node: int, bounds: Option<Rect>) -> NodeModel {
    let attributes = tree[node].accessibility;
    NodeModel {
        id: attributes.id.unwrap(),
        role: match attributes.role {
            Some(role) => role,
            None => Role::Unknown,
        },
        bounds,
        name: attributes.name,
        value: match attributes.alt {
            Some(alt) => Some(alt),
            None => inner_text(tree, node),
        },
        children: accessible_children(tree, node),
        focusable: attributes.focusable,
    }
}

/// The accessibility node for a position of the render tree, if a node
/// stands there and carries an accessibility identity.
pub open spec fn candidate(tree: Seq<SceneNodeModel>, node: NodeId, bounds: Option<Rect>) -> Option<
    NodeModel,
> {
    if node.0 < tree.len() && tree[node.0 as int].accessibility.id is Some {
        Some(node_for(tree, node.0 as int, bounds))
    } else {
        None
    }
}

/// The nodes projected from the first `count` positions of a paint order.
pub open spec fn projection_of(
    order: Seq<NodeId>,
    areas: Seq<Option<Rect>>,
    tree: Seq<SceneNodeModel>,
    count: nat,
) -> Seq<NodeModel>
    decreases count,
{
    if count == 0 || count > order.len() {
        Seq::empty()
    } else {
        offered(
            projection_of(order, areas, tree, (count - 1) as nat),
            candidate(tree, order[count - 1], bounds_at(areas, order[count - 1])),
        )
    }
}

/// The nodes of the accessibility tree of a scene, in paint order.
pub open spec fn projection(
    layers: Seq<LayerModel>,
    areas: Seq<Option<Rect>>,
    tree: Seq<SceneNodeModel>,
) -> Seq<NodeModel> {
    projection_of(paint_order(layers), areas, tree, paint_order(layers).len())
}

/// The focus that survives a rebuild: the one before it, if its node is
/// among the new nodes; none otherwise.
pub open spec fn kept_focus(nodes: Seq<NodeModel>, focus: Option<AccessibilityId>) -> Option<
    AccessibilityId,
> {
    match focus {
        Some(focused) => if node_ids(nodes).contains(focused) {
            focus
        } else {
            None
        },
        None => None,
    }
}

/// Offering a node to a well-formed list leaves a well-formed list.
proof fn lemma_offered_well_formed(nodes: Seq<NodeModel>, node: Option<NodeModel>)
    requires
        well_formed(nodes, None),
    ensures
        well_formed(offered(nodes, node), None),
{
    let after = offered(nodes, node);
    if after != nodes {
        let added = node.unwrap();
        assert(node_ids(after) =~= node_ids(nodes).push(added.id));
        assert forall|i: int, j: int|
            0 <= i < after.len() && 0 <= j < after.len() && i != j implies node_ids(after)[i]
            != node_ids(after)[j] by {
            if i < nodes.len() {
                assert(node_ids(nodes)[i] == node_ids(after)[i]);
            }
            if j < nodes.len() {
                assert(node_ids(nodes)[j] == node_ids(after)[j]);
            }
        }
        assert forall|i: int| 0 <= i < after.len() implies (#[trigger] after[i]).id.0 != 0
            && after[i].id != crate::ids::spec_window_id() by {
            if i < nodes.len() {
                assert(after[i] == nodes[i]);
            }
        }
    }
}

/// Uniqueness: in every projection no identity occurs twice, and none is
/// zero or the root's.
pub proof fn lemma_projection_well_formed(
    order: Seq<NodeId>,
    areas: Seq<Option<Rect>>,
    tree: Seq<SceneNodeModel>,
    count: nat,
)
    ensures
        well_formed(projection_of(order, areas, tree, count), None),
    decreases count,
{
    if count == 0 || count > order.len() {
        assert(node_ids(Seq::<NodeModel>::empty()) =~= Seq::empty());
    } else {
        lemma_projection_well_formed(order, areas, tree, (count - 1) as nat);
        lemma_offered_well_formed(
            projection_of(order, areas, tree, (count - 1) as nat),
            candidate(tree, order[count - 1], bounds_at(areas, order[count - 1])),
        );
    }
}

/// Stability: the identities of a projection depend on nothing but the
/// identities that the render-tree nodes carry. Two scenes with the same
/// paint order whose nodes carry the same identities project to the same
/// identities in the same order, whatever else differs between them.
pub proof fn lemma_projection_ids_stable(
    order: Seq<NodeId>,
    areas_a: Seq<Option<Rect>>,
    tree_a: Seq<SceneNodeModel>,
    areas_b: Seq<Option<Rect>>,
    tree_b: Seq<SceneNodeModel>,
    count: nat,
)
    requires
        tree_a.len() == tree_b.len(),
        forall|i: int|
            0 <= i < tree_a.len() ==> (#[trigger] tree_a[i]).accessibility.id
                == tree_b[i].accessibility.id,
    ensures
        node_ids(projection_of(order, areas_a, tree_a, count)) == node_ids(
            projection_of(order, areas_b, tree_b, count),
        ),
    decreases count,
{
    if count == 0 || count > order.len() {
    } else {
        let before = (count - 1) as nat;
        lemma_projection_ids_stable(order, areas_a, tree_a, areas_b, tree_b, before);
        let nodes_a = projection_of(order, areas_a, tree_a, before);
        let nodes_b = projection_of(order, areas_b, tree_b, before);
        let node = order[count - 1];
        let offer_a = candidate(tree_a, node, bounds_at(areas_a, node));
        let offer_b = candidate(tree_b, node, bounds_at(areas_b, node));
        if node.0 < tree_a.len() {
            assert(tree_a[node.0 as int].accessibility.id == tree_b[node.0 as int].accessibility.id);
        }
        assert(offer_a is Some == offer_b is Some);
        if offer_a is Some {
            assert(offer_a.unwrap().id == offer_b.unwrap().id);
            if admissible(node_ids(nodes_a), offer_a.unwrap().id) {
                assert(node_ids(offered(nodes_a, offer_a)) =~= node_ids(nodes_a).push(
                    offer_a.unwrap().id,
                ));
                assert(node_ids(offered(nodes_b, offer_b)) =~= node_ids(nodes_b).push(
                    offer_b.unwrap().id,
                ));
            }
        }
    }
}

/// Every projected node stands for an accessible node of the render tree
/// and carries that node's identity.
pub proof fn lemma_projection_sources(
    order: Seq<NodeId>,
    areas: Seq<Option<Rect>>,
    tree: Seq<SceneNodeModel>,
    count: nat,
    index: int,
)
    requires
        0 <= index < projection_of(order, areas, tree, count).len(),
    ensures
        exists|k: int|
            0 <= k < count && k < order.len() && (#[trigger] order[k]).0 < tree.len()
                && tree[order[k].0 as int].accessibility.id == Some(
                projection_of(order, areas, tree, count)[index].id,
            ),
    decreases count,
{
    if count == 0 || count > order.len() {
    } else {
        let before = projection_of(order, areas, tree, (count - 1) as nat);
        if index < before.len() {
            lemma_projection_sources(order, areas, tree, (count - 1) as nat, index);
            let k = choose|k: int|
                0 <= k < count - 1 && k < order.len() && (#[trigger] order[k]).0 < tree.len()
                    && tree[order[k].0 as int].accessibility.id == Some(before[index].id);
            assert(order[k].0 < tree.len());
        } else {
            assert(order[count - 1].0 < tree.len());
        }
    }
}

/// The accessibility node for a position of the render tree, if a node
/// stands there and carries an accessibility identity.
pub fn build_node(rdom: &RenderTree, node: NodeId, bounds: Option<Rect>) -> (built: Option<
    AccessibilityNode,
>)
    ensures
        match built {
            Some(built) => candidate(rdom@, node, bounds) == Some(built@),
            None => candidate(rdom@, node, bounds) is None,
        },
{
    let scene_node = match rdom.get(node) {
        Some(scene_node) => scene_node,
        None => {
            return None;
        },
    };
    let attributes = &scene_node.accessibility;
    let id = match attributes.id {
        Some(id) => id,
        None => {
            return None;
        },
    };
    let value = match &attributes.alt {
        Some(alt) => Some(alt.clone()),
        None => rdom.get_inner_texts(node),
    };
    let role = match attributes.role {
        Some(role) => role,
        None => Role::Unknown,
    };
    Some(
        AccessibilityNode {
            id,
            role,
            bounds,
            name: clone_text(&attributes.name),
            value,
            children: rdom.get_accessibility_children(node),
            focusable: attributes.focusable,
        },
    )
}

impl AccessibilityState {
    /// Adds the accessibility node of a render-tree node to the tree, after
    /// those that are there. Nothing is added for a position without a
    /// node, for a node without an accessibility identity, or for an
    /// identity that may not enter the tree.
    pub fn add_element(&mut self, rdom: &RenderTree, node: NodeId, bounds: Option<Rect>)
        ensures
            final(self)@.nodes == offered(old(self)@.nodes, candidate(rdom@, node, bounds)),
            final(self)@.focus == old(self)@.focus,
            final(self)@.wf(),
    {
        match build_node(rdom, node, bounds) {
            Some(built) => {
                self.push_node(built);
            },
            None => {
                self.attest();
            },
        }
    }
}

/// The shared focus after a rebuild that left the tree with the focus
/// `after` where it had the focus `before`: if the focused node left the
/// tree, the shared focus is cleared by one write; otherwise it is as it
/// was.
pub open spec fn shared_after_rebuild(
    shared: FocusStateModel,
    before: Option<AccessibilityId>,
    after: Option<AccessibilityId>,
) -> FocusStateModel {
    if before is Some && after is None {
        FocusStateModel { value: None, writes: next_count(shared.writes) }
    } else {
        shared
    }
}

/// Rebuilds the accessibility tree from the scene. The nodes are replaced
/// as a whole by the projection of the scene, in paint order. The focus
/// stays where it was if its node is still in the tree; otherwise it is
/// cleared, in the tree and in the shared focus.
pub fn process_accessibility<P: AccessibilityProvider>(
    layers: &Layers,
    layout: &Layout,
    rdom: &RenderTree,
    access_provider: &mut P,
    focus_sender: &mut FocusState,
)
    ensures
        final(access_provider).tree().nodes == projection(layers@, layout.areas@, rdom@),
        final(access_provider).tree().focus == kept_focus(
            final(access_provider).tree().nodes,
            old(access_provider).tree().focus,
        ),
        final(access_provider).tree().wf(),
        final(focus_sender)@ == shared_after_rebuild(
            old(focus_sender)@,
            old(access_provider).tree().focus,
            final(access_provider).tree().focus,
        ),
{
    let order = layers.paint_order();
    let focus = access_provider.focus_id();
    access_provider.clear();
    let mut i: usize = 0;
    while i < order.len()
        invariant
            i <= order.len(),
            access_provider.tree().nodes == projection_of(
                order@,
                layout.areas@,
                rdom@,
                i as nat,
            ),
            access_provider.tree().focus is None,
            access_provider.tree().wf(),
        decreases order.len() - i,
    {
        let node = order[i];
        access_provider.add_node(rdom, node, layout.get(node));
        i += 1;
    }
    match focus {
        Some(focused) => {
            let kept = access_provider.set_focus_with_update(focus);
            if kept.is_none() {
                focus_sender.send(None);
            }
        },
        None => {},
    }
}

/// The accessibility tree of a scene, with nothing focused.
pub fn project(layers: &Layers, layout: &Layout, rdom: &RenderTree) -> (tree: AccessibilityState)
    ensures
        tree@.nodes == projection(layers@, layout.areas@, rdom@),
        tree@.focus is None,
        tree@.wf(),
{
    let mut tree = AccessibilityState::new();
    let mut shared = FocusState::new();
    process_accessibility(layers, layout, rdom, &mut tree, &mut shared);
    tree
}

} // verus!
