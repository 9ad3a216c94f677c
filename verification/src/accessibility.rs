//! The accessibility tree: its nodes in paint order, the focused node, and
//! the snapshots and focus updates handed to the platform adapter.
//!
//! Every tree keeps three promises: no identity occurs twice, none is zero
//! or the root's, and the focused identity, if there is one, belongs to a
//! node of the tree.

use vstd::prelude::*;
use crate::focus::{next_focus, AccessibilityFocusDirection};
use crate::focus_state::{next_count, FocusState};
use crate::ids::{window_id, spec_window_id, AccessibilityId};
use crate::node::{AccessibilityNode, NodeModel};
use crate::role::Role;

verus! {

/// Information about the tree as a whole.
#[derive(Clone, Copy, Debug, PartialEq, Eq, Hash, Structural)]
pub struct Tree {
    pub root: AccessibilityId,
}

/// A change for the platform adapter to apply: new or changed nodes, the
/// tree's root where it is announced, and the focused node.
#[derive(Debug, PartialEq, Eq)]
pub struct TreeUpdate {
    pub nodes: Vec<(AccessibilityId, AccessibilityNode)>,
    pub tree: Option<Tree>,
    pub focus: Option<AccessibilityId>,
}

/// What an update is, as plain mathematics.
pub struct TreeUpdateModel {
    pub nodes: Seq<(AccessibilityId, NodeModel)>,
    pub tree: Option<Tree>,
    pub focus: Option<AccessibilityId>,
}

/// The models of a list of nodes.
pub open spec fn models(nodes: Seq<AccessibilityNode>) -> Seq<NodeModel> {
    Seq::new(nodes.len(), |i: int| nodes[i]@)
}

/// The models of a list of nodes that are paired with their identities.
pub open spec fn pair_models(pairs: Seq<(AccessibilityId, AccessibilityNode)>) -> Seq<
    (AccessibilityId, NodeModel),
> {
    Seq::new(pairs.len(), |i: int| (pairs[i].0, pairs[i].1@))
}

impl View for TreeUpdate {
    type V = TreeUpdateModel;

    open spec fn view(&self) -> TreeUpdateModel {
        TreeUpdateModel { nodes: pair_models(self.nodes@), tree: self.tree, focus: self.focus }
    }
}

/// The update that tells the adapter the focused node and nothing else.
pub open spec fn focus_update(focus: Option<AccessibilityId>) -> TreeUpdateModel {
    TreeUpdateModel { nodes: Seq::empty(), tree: None, focus }
}

/// The identities of a list of nodes, in order.
pub open spec fn node_ids(nodes: Seq<NodeModel>) -> Seq<AccessibilityId> {
    Seq::new(nodes.len(), |i: int| nodes[i].id)
}

/// An identity may enter a tree that holds `ids` when it is not zero, not
/// the root's and not yet in the tree.
pub open spec fn admissible(ids: Seq<AccessibilityId>, id: AccessibilityId) -> bool {
    id.0 != 0 && id != spec_window_id() && !ids.contains(id)
}

/// A list of nodes after one more node was offered to it: the node joins
/// the list unless its identity may not enter.
pub open spec fn offered(nodes: Seq<NodeModel>, node: Option<NodeModel>) -> Seq<NodeModel> {
    match node {
        Some(node) => if admissible(node_ids(nodes), node.id) {
            nodes.push(node)
        } else {
            nodes
        },
        None => nodes,
    }
}

/// The promises that every tree keeps.
pub open spec fn well_formed(nodes: Seq<NodeModel>, focus: Option<AccessibilityId>) -> bool {
    &&& node_ids(nodes).no_duplicates()
    &&& forall|i: int|
        0 <= i < nodes.len() ==> (#[trigger] nodes[i]).id.0 != 0 && nodes[i].id != spec_window_id()
    &&& focus matches Some(focused) ==> node_ids(nodes).contains(focused)
}

/// The focus after a request to set it: a node that is in the tree is
/// focused, a request for a node that is not in the tree is dropped, and a
/// request for no focus clears it.
pub open spec fn focus_after_request(
    ids: Seq<AccessibilityId>,
    focus: Option<AccessibilityId>,
    request: Option<AccessibilityId>,
) -> Option<AccessibilityId> {
    match request {
        Some(target) => if ids.contains(target) {
            request
        } else {
            focus
        },
        None => None,
    }
}

/// Some node of the list names `id` among its children.
pub open spec fn is_claimed(nodes: Seq<NodeModel>, id: AccessibilityId) -> bool {
    exists|i: int| 0 <= i < nodes.len() && (#[trigger] nodes[i]).children.contains(id)
}

/// The identities of those among the first `count` nodes that no node of
/// the list names as a child, in order.
pub open spec fn top_level_ids(nodes: Seq<NodeModel>, count: nat) -> Seq<AccessibilityId>
    decreases count,
{
    if count == 0 || count > nodes.len() {
        Seq::empty()
    } else {
        let before = top_level_ids(nodes, (count - 1) as nat);
        if is_claimed(nodes, nodes[count - 1].id) {
            before
        } else {
            before.push(nodes[count - 1].id)
        }
    }
}

/// The synthetic root that gives the adapter one entry point: a window
/// named `name` whose children are the top-level nodes, in paint order.
pub open spec fn root_node(nodes: Seq<NodeModel>, name: Seq<char>) -> NodeModel {
    NodeModel {
        id: spec_window_id(),
        role: Role::Window,
        bounds: None,
        name: Some(name),
        value: None,
        children: top_level_ids(nodes, nodes.len()),
        focusable: false,
    }
}

/// The nodes from the last painted to the first, each paired with its
/// identity.
pub open spec fn reversed_pairs(nodes: Seq<NodeModel>) -> Seq<(AccessibilityId, NodeModel)> {
    Seq::new(
        nodes.len(),
        |i: int| (nodes[nodes.len() - 1 - i].id, nodes[nodes.len() - 1 - i]),
    )
}

/// The nodes of a full snapshot: the root first, then the tree's nodes from
/// the last painted to the first, each paired with its identity.
pub open spec fn snapshot_nodes(nodes: Seq<NodeModel>, root: NodeModel) -> Seq<
    (AccessibilityId, NodeModel),
> {
    seq![(root.id, root)] + reversed_pairs(nodes)
}

/// The full snapshot of a tree.
pub open spec fn snapshot(
    nodes: Seq<NodeModel>,
    focus: Option<AccessibilityId>,
    name: Seq<char>,
) -> TreeUpdateModel {
    TreeUpdateModel {
        nodes: snapshot_nodes(nodes, root_node(nodes, name)),
        tree: Some(Tree { root: spec_window_id() }),
        focus,
    }
}

/// The identities under which an update lists its nodes, in order.
pub open spec fn update_ids(update: TreeUpdateModel) -> Seq<AccessibilityId> {
    Seq::new(update.nodes.len(), |i: int| update.nodes[i].0)
}

/// Uniqueness in a snapshot: the snapshot of a well-formed tree lists every
/// node under its own identity, lists no identity twice, the root's
/// included, and names as focused only a node that it lists.
pub proof fn lemma_snapshot_ids_unique(
    nodes: Seq<NodeModel>,
    focus: Option<AccessibilityId>,
    name: Seq<char>,
)
    requires
        well_formed(nodes, focus),
    ensures
        update_ids(snapshot(nodes, focus, name)).no_duplicates(),
        forall|i: int|
            0 <= i < snapshot(nodes, focus, name).nodes.len() ==> (#[trigger] snapshot(
                nodes,
                focus,
                name,
            ).nodes[i]).0 == snapshot(nodes, focus, name).nodes[i].1.id,
        focus matches Some(focused) ==> update_ids(snapshot(nodes, focus, name)).contains(focused),
{
    let update = snapshot(nodes, focus, name);
    let listed = update_ids(update);
    let ids = node_ids(nodes);
    assert forall|i: int| 0 < i < listed.len() implies listed[i] == #[trigger] ids[nodes.len() - i]
        && update.nodes[i].1 == nodes[nodes.len() - i] by {
        assert(update.nodes[i] == reversed_pairs(nodes)[i - 1]);
    }
    assert(listed[0] == spec_window_id());
    assert forall|i: int, j: int|
        0 <= i < listed.len() && 0 <= j < listed.len() && i != j implies listed[i]
        != listed[j] by {
        if i > 0 {
            assert(listed[i] == ids[nodes.len() - i]);
            assert(nodes[nodes.len() - i].id != spec_window_id());
        }
        if j > 0 {
            assert(listed[j] == ids[nodes.len() - j]);
            assert(nodes[nodes.len() - j].id != spec_window_id());
        }
    }
    if let Some(focused) = focus {
        let at = choose|at: int| 0 <= at < ids.len() && ids[at] == focused;
        assert(listed[nodes.len() - at] == ids[at]);
    }
}

/// What a tree is, as plain mathematics.
pub struct TreeModel {
    pub nodes: Seq<NodeModel>,
    pub focus: Option<AccessibilityId>,
}

impl TreeModel {
    /// The identities of the tree's nodes, in paint order.
    pub open spec fn ids(self) -> Seq<AccessibilityId> {
        node_ids(self.nodes)
    }

    /// The tree keeps its promises.
    pub open spec fn wf(self) -> bool {
        well_formed(self.nodes, self.focus)
    }
}

/// Every node of a tree is a child of the root or of another node of the
/// tree.
pub proof fn lemma_every_node_has_a_parent(nodes: Seq<NodeModel>, index: int)
    requires
        0 <= index < nodes.len(),
    ensures
        is_claimed(nodes, nodes[index].id) || top_level_ids(nodes, nodes.len()).contains(
            nodes[index].id,
        ),
{
    lemma_top_level_holds(nodes, nodes.len(), index);
}

proof fn lemma_top_level_holds(nodes: Seq<NodeModel>, count: nat, index: int)
    requires
        0 <= index < count <= nodes.len(),
    ensures
        is_claimed(nodes, nodes[index].id) || top_level_ids(nodes, count).contains(
            nodes[index].id,
        ),
    decreases count,
{
    let before = top_level_ids(nodes, (count - 1) as nat);
    if index < count - 1 {
        lemma_top_level_holds(nodes, (count - 1) as nat, index);
        if !is_claimed(nodes, nodes[index].id) {
            let at = choose|at: int| 0 <= at < before.len() && before[at] == nodes[index].id;
            assert(top_level_ids(nodes, count)[at] == nodes[index].id);
        }
    } else if !is_claimed(nodes, nodes[index].id) {
        assert(top_level_ids(nodes, count)[before.len() as int] == nodes[index].id);
    }
}

/// The accessibility tree and its focus.
#[derive(Debug)]
pub struct AccessibilityState {
    nodes: Vec<AccessibilityNode>,
    focus: Option<AccessibilityId>,
}

impl View for AccessibilityState {
    type V = TreeModel;

    closed spec fn view(&self) -> TreeModel {
        TreeModel { nodes: models(self.nodes@), focus: self.focus }
    }
}

impl AccessibilityState {
    #[verifier::type_invariant]
    spec fn keeps_promises(self) -> bool {
        well_formed(models(self.nodes@), self.focus)
    }

    /// The empty tree, with nothing focused.
    pub fn new() -> (state: AccessibilityState)
        ensures
            state@.nodes.len() == 0,
            state@.focus is None,
            state@.wf(),
    {
        let state = AccessibilityState { nodes: Vec::new(), focus: None };
        assert(state@.nodes =~= Seq::empty());
        state
    }

    /// Every tree keeps its promises.
    pub fn attest(&self)
        ensures
            self@.wf(),
    {
        proof {
            use_type_invariant(self);
        }
    }

    /// Removes every node. The focused node goes with them, so nothing is
    /// focused afterwards.
    pub fn clear(&mut self)
        ensures
            final(self)@.nodes.len() == 0,
            final(self)@.focus is None,
            final(self)@.wf(),
    {
        *self = AccessibilityState::new();
    }

    /// The number of nodes.
    pub fn len(&self) -> (len: usize)
        ensures
            len == self@.nodes.len(),
    {
        self.nodes.len()
    }

    /// The identity of the focused node.
    pub fn focus_id(&self) -> (focus: Option<AccessibilityId>)
        ensures
            focus == self@.focus,
    {
        self.focus
    }

    /// The node at a position in paint order.
    pub fn node(&self, index: usize) -> (node: Option<&AccessibilityNode>)
        ensures
            index < self@.nodes.len() ==> node is Some && node.unwrap()@
                == self@.nodes[index as int],
            index >= self@.nodes.len() ==> node is None,
    {
        if index < self.nodes.len() {
            Some(&self.nodes[index])
        } else {
            None
        }
    }

    /// The position of the node with the given identity.
    pub fn position(&self, id: AccessibilityId) -> (position: Option<usize>)
        ensures
            match position {
                Some(index) => index < self@.nodes.len() && self@.ids().index_of_first(id) == Some(
                    index as int,
                ),
                None => self@.ids().index_of_first(id) is None,
            },
            position is Some == self@.ids().contains(id),
    {
        let ghost ids = self@.ids();
        proof {
            ids.index_of_first_ensures(id);
        }
        let mut i: usize = 0;
        while i < self.nodes.len()
            invariant
                i <= self.nodes.len(),
                ids == self@.ids(),
                ids.len() == self.nodes.len(),
                forall|j: int| 0 <= j < i ==> ids[j] != id,
            decreases self.nodes.len() - i,
        {
            if self.nodes[i].id == id {
                assert(ids[i as int] == id);
                proof {
                    ids.index_of_first_ensures(id);
                }
                return Some(i);
            }
            i += 1;
        }
        proof {
            ids.index_of_first_ensures(id);
        }
        None
    }

    /// Whether a node with the given identity is in the tree.
    pub fn contains(&self, id: AccessibilityId) -> (present: bool)
        ensures
            present == self@.ids().contains(id),
    {
        self.position(id).is_some()
    }

    /// Adds a node after those that are there. A node whose identity is
    /// zero, the root's or already in the tree is dropped, and the tree
    /// stays as it was.
    pub fn push_node(&mut self, node: AccessibilityNode)
        ensures
            final(self)@.focus == old(self)@.focus,
            final(self)@.nodes == offered(old(self)@.nodes, Some(node@)),
            final(self)@.wf(),
    {
        proof {
            use_type_invariant(&*self);
        }
        let id = node.id;
        if id.0 == 0 || id == window_id() || self.contains(id) {
            return ;
        }
        let ghost before = self@;
        let ghost model = node@;
        let mut taken = AccessibilityState::new();
        core::mem::swap(self, &mut taken);
        let AccessibilityState { nodes, focus } = taken;
        let mut nodes = nodes;
        nodes.push(node);
        proof {
            let after = models(nodes@);
            assert(after =~= before.nodes.push(model));
            assert(node_ids(after) =~= node_ids(before.nodes).push(id));
            assert forall|i: int, j: int|
                0 <= i < after.len() && 0 <= j < after.len() && i != j implies node_ids(after)[i]
                != node_ids(after)[j] by {
                if i < before.nodes.len() {
                    assert(node_ids(before.nodes)[i] == node_ids(after)[i]);
                }
                if j < before.nodes.len() {
                    assert(node_ids(before.nodes)[j] == node_ids(after)[j]);
                }
            }
            if let Some(focused) = focus {
                let at = choose|at: int|
                    0 <= at < node_ids(before.nodes).len() && node_ids(before.nodes)[at] == focused;
                assert(node_ids(after)[at] == focused);
            }
        }
        *self = AccessibilityState { nodes, focus };
    }

    /// Sets the focus. A node is focused only if it is in the tree: then
    /// the focus is committed and the update that tells the adapter is
    /// handed out. For an identity that is not in the tree nothing changes
    /// and there is no update. Setting no focus clears it, without an
    /// update.
    pub fn set_focus(&mut self, id: Option<AccessibilityId>) -> (update: Option<TreeUpdate>)
        ensures
            final(self)@.nodes == old(self)@.nodes,
            final(self)@.focus == focus_after_request(old(self)@.ids(), old(self)@.focus, id),
            match update {
                Some(update) => id matches Some(target) && old(self)@.ids().contains(target)
                    && update@ == focus_update(id),
                None => id matches Some(target) ==> !old(self)@.ids().contains(target),
            },
            final(self)@.focus matches Some(focused) ==> final(self)@.ids().contains(focused),
            final(self)@.wf(),
    {
        proof {
            use_type_invariant(&*self);
        }
        match id {
            Some(target) => {
                if self.contains(target) {
                    self.focus = id;
                    Some(focus_only(id))
                } else {
                    None
                }
            },
            None => {
                self.focus = None;
                None
            },
        }
    }

    /// Moves the focus one node further in the given direction, writes the
    /// new focus to the shared focus, and hands out the update that tells
    /// the adapter. With no node in the tree nothing is focused, nothing is
    /// written and there is no update.
    pub fn set_focus_on_next_node(
        &mut self,
        direction: AccessibilityFocusDirection,
        focus_sender: &mut FocusState,
    ) -> (update: Option<TreeUpdate>)
        ensures
            final(self)@.nodes == old(self)@.nodes,
            final(self)@.focus == next_focus(old(self)@.ids(), old(self)@.focus, direction),
            match update {
                Some(update) => {
                    &&& old(self)@.nodes.len() > 0
                    &&& update@ == focus_update(final(self)@.focus)
                    &&& final(focus_sender)@.value == final(self)@.focus
                    &&& final(focus_sender)@.writes == next_count(old(focus_sender)@.writes)
                },
                None => {
                    &&& old(self)@.nodes.len() == 0
                    &&& final(self)@.focus is None
                    &&& final(focus_sender)@ == old(focus_sender)@
                },
            },
            final(self)@.wf(),
    {
        proof {
            use_type_invariant(&*self);
        }
        let len = self.nodes.len();
        if len == 0 {
            return None;
        }
        let ghost ids = self@.ids();
        let target: usize = match self.focus {
            None => 0,
            Some(current) => match self.position(current) {
                None => 0,
                Some(index) => match direction {
                    AccessibilityFocusDirection::Forward => if index + 1 == len {
                        0
                    } else {
                        index + 1
                    },
                    AccessibilityFocusDirection::Backward => if index == 0 {
                        len - 1
                    } else {
                        index - 1
                    },
                },
            },
        };
        let focus = Some(self.nodes[target].id);
        assert(ids[target as int] == self.nodes[target as int].id);
        self.focus = focus;
        focus_sender.send(focus);
        Some(focus_only(focus))
    }

    /// Whether some node of the tree names `id` among its children.
    pub fn is_claimed(&self, id: AccessibilityId) -> (claimed: bool)
        ensures
            claimed == is_claimed(self@.nodes, id),
    {
        let mut i: usize = 0;
        while i < self.nodes.len()
            invariant
                i <= self.nodes.len(),
                forall|k: int| 0 <= k < i ==> !(#[trigger] self@.nodes[k]).children.contains(id),
            decreases self.nodes.len() - i,
        {
            let children = &self.nodes[i].children;
            let mut j: usize = 0;
            while j < children.len()
                invariant
                    j <= children.len(),
                    i < self.nodes.len(),
                    children@ == self@.nodes[i as int].children,
                    forall|k: int| 0 <= k < j ==> children@[k] != id,
                decreases children.len() - j,
            {
                if children[j] == id {
                    assert(self@.nodes[i as int].children.contains(id));
                    return true;
                }
                j += 1;
            }
            i += 1;
        }
        false
    }

    /// The root of the tree: a window named `root_name` whose children are
    /// the nodes that no node of the tree names as a child, in paint order.
    pub fn build_root(&self, root_name: &str) -> (root: AccessibilityNode)
        ensures
            root@ == root_node(self@.nodes, root_name@),
    {
        let mut children: Vec<AccessibilityId> = Vec::new();
        let mut i: usize = 0;
        while i < self.nodes.len()
            invariant
                i <= self.nodes.len(),
                children@ == top_level_ids(self@.nodes, i as nat),
            decreases self.nodes.len() - i,
        {
            let id = self.nodes[i].id;
            if !self.is_claimed(id) {
                children.push(id);
            }
            i += 1;
        }
        AccessibilityNode {
            id: window_id(),
            role: Role::Window,
            bounds: None,
            name: Some(root_name.to_owned()),
            value: None,
            children,
            focusable: false,
        }
    }

    /// Copies of all the nodes, from the last painted to the first, each
    /// paired with its identity.
    pub fn get_nodes(&self) -> (nodes: Vec<(AccessibilityId, AccessibilityNode)>)
        ensures
            pair_models(nodes@) == reversed_pairs(self@.nodes),
    {
        let mut out: Vec<(AccessibilityId, AccessibilityNode)> = Vec::new();
        let len = self.nodes.len();
        let mut i: usize = 0;
        while i < len
            invariant
                i <= len,
                len == self.nodes.len(),
                out@.len() == i,
                forall|k: int|
                    0 <= k < i ==> (#[trigger] pair_models(out@)[k]) == (
                        self@.nodes[len - 1 - k].id,
                        self@.nodes[len - 1 - k],
                    ),
            decreases len - i,
        {
            let node = self.nodes[len - 1 - i].clone();
            let ghost before = pair_models(out@);
            out.push((node.id, node));
            assert forall|k: int| 0 <= k < i + 1 implies (#[trigger] pair_models(out@)[k]) == (
                self@.nodes[len - 1 - k].id,
                self@.nodes[len - 1 - k],
            ) by {
                if k < i {
                    assert(pair_models(out@)[k] == before[k]);
                }
            }
            i += 1;
        }
        assert(pair_models(out@) =~= reversed_pairs(self@.nodes));
        out
    }

    /// The full snapshot of the tree for the adapter: the root, every node,
    /// and the focused node.
    pub fn process(&self, root_name: &str) -> (update: TreeUpdate)
        ensures
            update@ == snapshot(self@.nodes, self@.focus, root_name@),
            update_ids(update@).no_duplicates(),
            update@.focus matches Some(focused) ==> update_ids(update@).contains(focused),
    {
        proof {
            use_type_invariant(self);
            lemma_snapshot_ids_unique(self@.nodes, self@.focus, root_name@);
        }
        let root = self.build_root(root_name);
        let ghost root_model = root@;
        let mut nodes: Vec<(AccessibilityId, AccessibilityNode)> = Vec::new();
        nodes.push((window_id(), root));
        let mut rest = self.get_nodes();
        let ghost rest_models = pair_models(rest@);
        nodes.append(&mut rest);
        let update = TreeUpdate { nodes, tree: Some(Tree { root: window_id() }), focus: self.focus };
        proof {
            let expected = snapshot_nodes(self@.nodes, root_model);
            assert(update@.nodes.len() == expected.len());
            assert forall|i: int| 0 <= i < expected.len() implies update@.nodes[i]
                == expected[i] by {
                if i > 0 {
                    assert(update@.nodes[i] == rest_models[i - 1]);
                }
            }
            assert(update@.nodes =~= expected);
        }
        update
    }
}

impl Default for AccessibilityState {
    fn default() -> (state: AccessibilityState)
        ensures
            state@.nodes.len() == 0,
            state@.focus is None,
            state@.wf(),
    {
        AccessibilityState::new()
    }
}

/// The update that tells the adapter the focused node and nothing else.
pub fn focus_only(focus: Option<AccessibilityId>) -> (update: TreeUpdate)
    ensures
        update@ == focus_update(focus),
{
    let update = TreeUpdate { nodes: Vec::new(), tree: None, focus };
    assert(update@.nodes =~= Seq::empty());
    update
}

} // verus!
