//! The layer index: the nodes of the scene, grouped into paint layers that
//! are kept from the lowest depth to the highest.

use vstd::prelude::*;
use crate::ids::NodeId;

verus! {

/// One paint layer: its depth and its nodes in the order they were added.
#[derive(Debug, PartialEq, Eq)]
pub struct Layer {
    pub depth: i16,
    pub nodes: Vec<NodeId>,
}

/// What a layer is, as plain mathematics.
pub struct LayerModel {
    pub depth: i16,
    pub nodes: Seq<NodeId>,
}

impl View for Layer {
    type V = LayerModel;

    open spec fn view(&self) -> LayerModel {
        LayerModel { depth: self.depth, nodes: self.nodes@ }
    }
}

/// The models of a list of layers.
pub open spec fn layer_models(layers: Seq<Layer>) -> Seq<LayerModel> {
    Seq::new(layers.len(), |i: int| layers[i]@)
}

/// The layers stand in strictly rising depth.
pub open spec fn rising(layers: Seq<LayerModel>) -> bool {
    forall|i: int, j: int| 0 <= i < j < layers.len() ==> layers[i].depth < layers[j].depth
}

/// The position, at or after `from`, of the first layer that is not below
/// `depth`; the number of layers if all of them are below.
pub open spec fn slot(layers: Seq<LayerModel>, depth: i16, from: int) -> int
    decreases layers.len() - from,
{
    if from < 0 || from >= layers.len() {
        layers.len() as int
    } else if layers[from].depth >= depth {
        from
    } else {
        slot(layers, depth, from + 1)
    }
}

/// The layers after a node was added at a depth: the node joins the layer
/// of that depth as its last node, or a new layer is made for it in the
/// place that keeps the depths rising.
pub open spec fn with_element(layers: Seq<LayerModel>, node: NodeId, depth: i16) -> Seq<
    LayerModel,
> {
    let at = slot(layers, depth, 0);
    if at < layers.len() && layers[at].depth == depth {
        layers.update(at, LayerModel { depth, nodes: layers[at].nodes.push(node) })
    } else {
        layers.insert(at, LayerModel { depth, nodes: seq![node] })
    }
}

/// The nodes of the first `count` layers, layer after layer: the order in
/// which the scene is painted.
pub open spec fn paint_order_of(layers: Seq<LayerModel>, count: nat) -> Seq<NodeId>
    decreases count,
{
    if count == 0 || count > layers.len() {
        Seq::empty()
    } else {
        paint_order_of(layers, (count - 1) as nat) + layers[count - 1].nodes
    }
}

/// The order in which the whole scene is painted.
pub open spec fn paint_order(layers: Seq<LayerModel>) -> Seq<NodeId> {
    paint_order_of(layers, layers.len())
}

/// Where the slot is: every layer before it is below `depth`, and the layer
/// at it, if there is one, is not.
proof fn lemma_slot(layers: Seq<LayerModel>, depth: i16, from: int)
    requires
        0 <= from <= layers.len(),
    ensures
        from <= slot(layers, depth, from) <= layers.len(),
        forall|i: int| from <= i < slot(layers, depth, from) ==> layers[i].depth < depth,
        slot(layers, depth, from) < layers.len() ==> layers[slot(layers, depth, from)].depth
            >= depth,
    decreases layers.len() - from,
{
    if from < layers.len() && layers[from].depth < depth {
        lemma_slot(layers, depth, from + 1);
    }
}

/// Adding a node keeps the depths rising.
pub proof fn lemma_with_element_rising(layers: Seq<LayerModel>, node: NodeId, depth: i16)
    requires
        rising(layers),
    ensures
        rising(with_element(layers, node, depth)),
{
    lemma_slot(layers, depth, 0);
    let at = slot(layers, depth, 0);
    let after = with_element(layers, node, depth);
    assert forall|i: int, j: int| 0 <= i < j < after.len() implies after[i].depth
        < after[j].depth by {
        if at < layers.len() && layers[at].depth == depth {
            assert(after[i].depth == layers[i].depth);
            assert(after[j].depth == layers[j].depth);
        } else {
            let old_i = if i < at { i } else { i - 1 };
            let old_j = if j < at { j } else { j - 1 };
            if i != at && j != at {
                assert(after[i] == layers[old_i]);
                assert(after[j] == layers[old_j]);
            } else if i == at {
                assert(after[j] == layers[old_j]);
                assert(layers[at].depth >= depth);
                assert(at <= old_j);
            } else {
                assert(after[i] == layers[old_i]);
            }
        }
    }
}

/// The layer index.
#[derive(Debug)]
pub struct Layers {
    layers: Vec<Layer>,
}

impl View for Layers {
    type V = Seq<LayerModel>;

    closed spec fn view(&self) -> Seq<LayerModel> {
        layer_models(self.layers@)
    }
}

impl Layers {
    #[verifier::type_invariant]
    spec fn depths_rise(self) -> bool {
        rising(layer_models(self.layers@))
    }

    /// The index without layers.
    pub fn new() -> (layers: Layers)
        ensures
            layers@.len() == 0,
    {
        Layers { layers: Vec::new() }
    }

    /// The depths of every index rise.
    pub fn attest(&self)
        ensures
            rising(self@),
    {
        proof {
            use_type_invariant(self);
        }
    }

    /// The number of layers.
    pub fn len(&self) -> (len: usize)
        ensures
            len == self@.len(),
    {
        self.layers.len()
    }

    /// Adds a node to the layer of the given depth, as its last node.
    pub fn add_element(&mut self, node: NodeId, depth: i16)
        ensures
            final(self)@ == with_element(old(self)@, node, depth),
            rising(final(self)@),
    {
        proof {
            use_type_invariant(&*self);
        }
        let ghost before = self@;
        let mut taken = Layers::new();
        core::mem::swap(self, &mut taken);
        let Layers { layers } = taken;
        let mut layers = layers;
        let mut at: usize = 0;
        while at < layers.len() && layers[at].depth < depth
            invariant
                at <= layers.len(),
                before == layer_models(layers@),
                slot(before, depth, 0) == slot(before, depth, at as int),
            decreases layers.len() - at,
        {
            at += 1;
        }
        proof {
            lemma_with_element_rising(before, node, depth);
        }
        if at < layers.len() && layers[at].depth == depth {
            let mut layer = layers.remove(at);
            layer.nodes.push(node);
            layers.insert(at, layer);
        } else {
            let mut nodes: Vec<NodeId> = Vec::new();
            nodes.push(node);
            layers.insert(at, Layer { depth, nodes });
        }
        assert(layer_models(layers@) =~= with_element(before, node, depth));
        *self = Layers { layers };
    }

    /// The nodes of all layers in paint order.
    pub fn paint_order(&self) -> (order: Vec<NodeId>)
        ensures
            order@ == paint_order(self@),
    {
        let mut order: Vec<NodeId> = Vec::new();
        let mut i: usize = 0;
        while i < self.layers.len()
            invariant
                i <= self.layers.len(),
                order@ == paint_order_of(self@, i as nat),
            decreases self.layers.len() - i,
        {
            let nodes = &self.layers[i].nodes;
            let ghost before = order@;
            let mut j: usize = 0;
            while j < nodes.len()
                invariant
                    j <= nodes.len(),
                    order@ == before + nodes@.subrange(0, j as int),
                decreases nodes.len() - j,
            {
                order.push(nodes[j]);
                assert(nodes@.subrange(0, j + 1) =~= nodes@.subrange(0, j as int).push(
                    nodes@[j as int],
                ));
                j += 1;
            }
            assert(nodes@.subrange(0, nodes@.len() as int) =~= nodes@);
            i += 1;
        }
        order
    }
}

impl Default for Layers {
    fn default() -> (layers: Layers)
        ensures
            layers@.len() == 0,
    {
        Layers::new()
    }
}

} // verus!
