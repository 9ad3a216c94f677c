//! The laid-out scene that the projector reads: the render tree with the
//! accessibility attributes of its nodes, the resolved bounds, and the
//! paint layers.

use vstd::prelude::*;
use crate::ids::{AccessibilityId, NodeId};
use crate::node::{clone_text, text_of, Rect};
use crate::role::Role;

verus! {

/// The accessibility attributes of a render-tree node.
#[derive(Debug, PartialEq, Eq)]
pub struct Accessibility {
    /// The role, where one was given.
    pub role: Option<Role>,
    /// The identity of the node in the accessibility tree. A node without
    /// one is not accessible.
    pub id: Option<AccessibilityId>,
    /// Whether the node takes keyboard focus.
    pub focusable: bool,
    /// An explicit accessible name.
    pub name: Option<String>,
    /// An explicit accessible value, in place of the node's text.
    pub alt: Option<String>,
}

/// What the accessibility attributes are, as plain mathematics.
pub struct AccessibilityModel {
    pub role: Option<Role>,
    pub id: Option<AccessibilityId>,
    pub focusable: bool,
    pub name: Option<Seq<char>>,
    pub alt: Option<Seq<char>>,
}

impl View for Accessibility {
    type V = AccessibilityModel;

    open spec fn view(&self) -> AccessibilityModel {
        AccessibilityModel {
            role: self.role,
            id: self.id,
            focusable: self.focusable,
            name: text_of(self.name),
            alt: text_of(self.alt),
        }
    }
}

impl Default for Accessibility {
    fn default() -> (attributes: Accessibility)
        ensures
            attributes@ == (AccessibilityModel {
                role: None,
                id: None,
                focusable: false,
                name: None,
                alt: None,
            }),
    {
        Accessibility { role: None, id: None, focusable: false, name: None, alt: None }
    }
}

impl Clone for Accessibility {
    fn clone(&self) -> (copy: Accessibility)
        ensures
            copy@ == self@,
    {
        Accessibility {
            role: self.role,
            id: self.id,
            focusable: self.focusable,
            name: clone_text(&self.name),
            alt: clone_text(&self.alt),
        }
    }
}

/// One node of the render tree.
#[derive(Debug, PartialEq, Eq)]
pub struct SceneNode {
    pub accessibility: Accessibility,
    /// The literal text, where the node is a text node.
    pub text: Option<String>,
    /// The positions of the node's children, in order.
    pub children: Vec<NodeId>,
}

/// What a render-tree node is, as plain mathematics.
pub struct SceneNodeModel {
    pub accessibility: AccessibilityModel,
    pub text: Option<Seq<char>>,
    pub children: Seq<NodeId>,
}

impl View for SceneNode {
    type V = SceneNodeModel;

    open spec fn view(&self) -> SceneNodeModel {
        SceneNodeModel {
            accessibility: self.accessibility@,
            text: text_of(self.text),
            children: self.children@,
        }
    }
}

/// The models of a list of render-tree nodes.
pub open spec fn scene_models(nodes: Seq<SceneNode>) -> Seq<SceneNodeModel> {
    Seq::new(nodes.len(), |i: int| nodes[i]@)
}

/// Parents stand before their children: every child of the node at a
/// position stands at a later position of the list.
pub open spec fn parents_first(tree: Seq<SceneNodeModel>) -> bool {
    forall|i: int, k: int|
        0 <= i < tree.len() && 0 <= k < tree[i].children.len() ==> i < (
        #[trigger] tree[i].children[k]).0 < tree.len()
}

/// The first text found in the subtree of the node at `node`, itself
/// included, in document order.
pub open spec fn text_within(tree: Seq<SceneNodeModel>, node: int) -> Option<Seq<char>>
    decreases tree.len() - node, 1int, 0int,
{
    if 0 <= node < tree.len() {
        match tree[node].text {
            Some(text) => Some(text),
            None => first_text_among(tree, node, 0),
        }
    } else {
        None
    }
}

/// The first text found below the node at `parent` in its children from
/// position `from` on and their subtrees, in document order.
pub open spec fn first_text_among(tree: Seq<SceneNodeModel>, parent: int, from: int) -> Option<
    Seq<char>,
>
    decreases tree.len() - parent, 0int, tree[parent].children.len() - from,
{
    if 0 <= parent < tree.len() && 0 <= from < tree[parent].children.len() {
        let child = tree[parent].children[from].0 as int;
        let found = if parent < child < tree.len() {
            text_within(tree, child)
        } else {
            None
        };
        match found {
            Some(text) => Some(text),
            None => first_text_among(tree, parent, from + 1),
        }
    } else {
        None
    }
}

/// The literal text of the first text-bearing descendant of a node.
pub open spec fn inner_text(tree: Seq<SceneNodeModel>, node: int) -> Option<Seq<char>> {
    first_text_among(tree, node, 0)
}

/// The accessibility identities carried by the first `count` of the given
/// children, in order. A child that is not in the tree or carries no
/// identity is passed over.
pub open spec fn accessible_ids(
    tree: Seq<SceneNodeModel>,
    children: Seq<NodeId>,
    count: nat,
) -> Seq<AccessibilityId>
    decreases count,
{
    if count == 0 || count > children.len() {
        Seq::empty()
    } else {
        let before = accessible_ids(tree, children, (count - 1) as nat);
        let child = children[count - 1].0 as int;
        if child < tree.len() && tree[child].accessibility.id is Some {
            before.push(tree[child].accessibility.id.unwrap())
        } else {
            before
        }
    }
}

/// The accessible children of a node: those of its children that carry an
/// accessibility identity, in order.
pub open spec fn accessible_children(tree: Seq<SceneNodeModel>, node: int) -> Seq<
    AccessibilityId,
> {
    accessible_ids(tree, tree[node].children, tree[node].children.len())
}

/// The render tree, held as a list in which parents stand before their
/// children.
#[derive(Debug)]
pub struct RenderTree {
    nodes: Vec<SceneNode>,
}

impl View for RenderTree {
    type V = Seq<SceneNodeModel>;

    closed spec fn view(&self) -> Seq<SceneNodeModel> {
        scene_models(self.nodes@)
    }
}

impl RenderTree {
    #[verifier::type_invariant]
    spec fn ordered(self) -> bool {
        parents_first(scene_models(self.nodes@))
    }

    /// The tree without nodes.
    pub fn new() -> (tree: RenderTree)
        ensures
            tree@.len() == 0,
    {
        RenderTree { nodes: Vec::new() }
    }

    /// The tree of the given nodes, where parents stand before their
    /// children; no tree otherwise.
    pub fn from_nodes(nodes: Vec<SceneNode>) -> (tree: Option<RenderTree>)
        ensures
            match tree {
                Some(tree) => tree@ == scene_models(nodes@) && parents_first(tree@),
                None => !parents_first(scene_models(nodes@)),
            },
    {
        let ghost models = scene_models(nodes@);
        let mut i: usize = 0;
        while i < nodes.len()
            invariant
                i <= nodes.len(),
                models == scene_models(nodes@),
                forall|a: int, k: int|
                    0 <= a < i && 0 <= k < models[a].children.len() ==> a < (
                    #[trigger] models[a].children[k]).0 < models.len(),
            decreases nodes.len() - i,
        {
            let children = &nodes[i].children;
            let mut j: usize = 0;
            while j < children.len()
                invariant
                    j <= children.len(),
                    i < nodes.len(),
                    models == scene_models(nodes@),
                    children@ == models[i as int].children,
                    forall|k: int| 0 <= k < j ==> i < (#[trigger] children@[k]).0 < nodes.len(),
                decreases children.len() - j,
            {
                let child = children[j].0;
                if child <= i || child >= nodes.len() {
                    assert(!(i < models[i as int].children[j as int].0 < models.len()));
                    return None;
                }
                j += 1;
            }
            i += 1;
        }
        Some(RenderTree { nodes })
    }

    /// Every tree has parents before children.
    pub fn attest(&self)
        ensures
            parents_first(self@),
    {
        proof {
            use_type_invariant(self);
        }
    }

    /// The number of nodes.
    pub fn len(&self) -> (len: usize)
        ensures
            len == self@.len(),
    {
        self.nodes.len()
    }

    /// The node at a position, if the tree has one there.
    pub fn get(&self, id: NodeId) -> (node: Option<&SceneNode>)
        ensures
            id.0 < self@.len() ==> node is Some && node.unwrap()@ == self@[id.0 as int],
            id.0 >= self@.len() ==> node is None,
    {
        if id.0 < self.nodes.len() {
            Some(&self.nodes[id.0])
        } else {
            None
        }
    }

    /// The first text found in the subtree of a node, itself included.
    fn get_text_within(&self, node: usize) -> (text: Option<String>)
        requires
            node < self@.len(),
        ensures
            text_of(text) == text_within(self@, node as int),
        decreases self@.len() - node, 1int, 0int,
    {
        match &self.nodes[node].text {
            Some(text) => Some(text.clone()),
            None => self.get_first_text_among(node, 0),
        }
    }

    /// The first text found below a node in its children from `from` on.
    fn get_first_text_among(&self, parent: usize, from: usize) -> (text: Option<String>)
        requires
            parent < self@.len(),
        ensures
            text_of(text) == first_text_among(self@, parent as int, from as int),
        decreases self@.len() - parent, 0int, self@[parent as int].children.len() - from,
    {
        let children = &self.nodes[parent].children;
        if from >= children.len() {
            return None;
        }
        let child = children[from].0;
        let found = if parent < child && child < self.nodes.len() {
            self.get_text_within(child)
        } else {
            None
        };
        match found {
            Some(text) => Some(text),
            None => self.get_first_text_among(parent, from + 1),
        }
    }

    /// The literal text of the first text-bearing descendant of a node, in
    /// document order. A position without a node has none.
    pub fn get_inner_texts(&self, node: NodeId) -> (text: Option<String>)
        ensures
            text_of(text) == inner_text(self@, node.0 as int),
    {
        if node.0 < self.nodes.len() {
            self.get_first_text_among(node.0, 0)
        } else {
            None
        }
    }

    /// The accessibility identities of those children of a node that carry
    /// one, in order. A position without a node has none.
    pub fn get_accessibility_children(&self, node: NodeId) -> (ids: Vec<AccessibilityId>)
        ensures
            node.0 < self@.len() ==> ids@ == accessible_children(self@, node.0 as int),
            node.0 >= self@.len() ==> ids@.len() == 0,
    {
        let mut ids: Vec<AccessibilityId> = Vec::new();
        if node.0 >= self.nodes.len() {
            return ids;
        }
        let children = &self.nodes[node.0].children;
        let mut i: usize = 0;
        while i < children.len()
            invariant
                i <= children.len(),
                node.0 < self.nodes.len(),
                children@ == self@[node.0 as int].children,
                ids@ == accessible_ids(self@, children@, i as nat),
            decreases children.len() - i,
        {
            let child = children[i].0;
            if child < self.nodes.len() {
                if let Some(id) = self.nodes[child].accessibility.id {
                    ids.push(id);
                }
            }
            i += 1;
        }
        ids
    }
}

impl Default for RenderTree {
    fn default() -> (tree: RenderTree)
        ensures
            tree@.len() == 0,
    {
        RenderTree::new()
    }
}

/// The resolved bounds of the nodes of the render tree, by position.
#[derive(Debug)]
pub struct Layout {
    pub areas: Vec<Option<Rect>>,
}

/// The bounds that a layout holds for a position.
pub open spec fn bounds_at(areas: Seq<Option<Rect>>, node: NodeId) -> Option<Rect> {
    if node.0 < areas.len() {
        areas[node.0 as int]
    } else {
        None
    }
}

impl Layout {
    /// The layout without bounds.
    pub fn new() -> (layout: Layout)
        ensures
            layout.areas@.len() == 0,
    {
        Layout { areas: Vec::new() }
    }

    /// The bounds of the node at a position, where they were resolved.
    pub fn get(&self, node: NodeId) -> (bounds: Option<Rect>)
        ensures
            bounds == bounds_at(self.areas@, node),
    {
        if node.0 < self.areas.len() {
            self.areas[node.0]
        } else {
            None
        }
    }
}

impl Default for Layout {
    fn default() -> (layout: Layout)
        ensures
            layout.areas@.len() == 0,
    {
        Layout::new()
    }
}

} // verus!
