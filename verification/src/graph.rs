//! The graph itself: flat arenas of nodes, input slots and output slots,
//! cross-referenced by identifier. An edge is nothing but the identifier of
//! an output slot stored inside an input slot.

use vstd::prelude::*;

use crate::arena::{Arena, ElementId};
use crate::interactions::{Position, OFFSET_LIMIT, POS_LIMIT, Z_LIMIT};
use crate::node::{
    FlowNode, FlowNodeConfig, FlowNodeInput, FlowNodeOutput, FlowNodeSet, InputSlot, OutputSlot,
};
use crate::template::{
    input_offset, node_height, output_offset, spec_input_offset_x, spec_output_offset_x,
    spec_row_offset_y, FlowNodeTemplate,
};
use crate::values::str_eq;

verus! {

/// `slot` with its edge reference replaced by `c` and everything else kept.
pub open spec fn with_connection<V>(slot: InputSlot<V>, c: Option<ElementId>) -> InputSlot<V> {
    InputSlot {
        parent: slot.parent,
        offset: slot.offset,
        input: FlowNodeInput { label: slot.input.label, connection: c, default: slot.input.default },
    }
}

/// Whether deleting `node` severs `slot`'s edge: true when the edge points
/// at a live output slot owned by `node`.
pub open spec fn severed_by<N: FlowNodeSet>(
    g: FlowGraph<N>,
    slot: InputSlot<N::NodeIO>,
    node: ElementId,
) -> bool {
    match slot.input.connection {
        Some(cid) => g.valid_output(cid) && g.output_at(cid).parent == node,
        None => false,
    }
}

/// A graph of nodes and slots. Only the connection state machine writes edge
/// references, and only node deletion removes elements.
pub struct FlowGraph<N: FlowNodeSet> {
    pub nodes: Arena<FlowNode<N>>,
    pub inputs: Arena<InputSlot<N::NodeIO>>,
    pub outputs: Arena<OutputSlot>,
}

impl<N: FlowNodeSet> FlowGraph<N> {
    pub open spec fn valid_node(self, id: ElementId) -> bool {
        self.nodes.contains(id)
    }

    pub open spec fn node_at(self, id: ElementId) -> FlowNode<N> {
        self.nodes.spec_get(id)
    }

    pub open spec fn valid_input(self, id: ElementId) -> bool {
        self.inputs.contains(id)
    }

    pub open spec fn input_at(self, id: ElementId) -> InputSlot<N::NodeIO> {
        self.inputs.spec_get(id)
    }

    pub open spec fn valid_output(self, id: ElementId) -> bool {
        self.outputs.contains(id)
    }

    pub open spec fn output_at(self, id: ElementId) -> OutputSlot {
        self.outputs.spec_get(id)
    }

    /// Every stored node and slot obeys the world bounds.
    pub open spec fn wf(self) -> bool {
        &&& forall|id: ElementId| #[trigger]
            self.nodes.contains(id) ==> self.nodes.spec_get(id).wf()
        &&& forall|id: ElementId| #[trigger]
            self.inputs.contains(id) ==> self.inputs.spec_get(id).wf()
        &&& forall|id: ElementId| #[trigger]
            self.outputs.contains(id) ==> self.outputs.spec_get(id).wf()
    }

    pub fn new() -> (g: FlowGraph<N>)
        ensures
            g.wf(),
            forall|id: ElementId| !g.valid_node(id),
            forall|id: ElementId| !g.valid_input(id),
            forall|id: ElementId| !g.valid_output(id),
    {
        FlowGraph { nodes: Arena::new(), inputs: Arena::new(), outputs: Arena::new() }
    }

    /// Write the edge reference of input slot `iid`. This is the single
    /// place the graph's wiring changes, shared by edge creation, edge
    /// breaking and deletion cleanup.
    pub fn set_connection(&mut self, iid: ElementId, c: Option<ElementId>)
        requires
            old(self).wf(),
            old(self).valid_input(iid),
        ensures
            final(self).wf(),
            final(self).nodes == old(self).nodes,
            final(self).outputs == old(self).outputs,
            final(self).inputs.cells@.len() == old(self).inputs.cells@.len(),
            final(self).valid_input(iid),
            final(self).input_at(iid) == with_connection(old(self).input_at(iid), c),
            forall|iid2: ElementId| #[trigger]
                final(self).valid_input(iid2) == old(self).valid_input(iid2),
            forall|iid2: ElementId|
                iid2 != iid && old(self).valid_input(iid2) ==> final(self).input_at(iid2) == old(self).input_at(iid2),
    {
        let idx = iid.index;
        match &mut self.inputs.cells[idx].value {
            Some(slot) => {
                slot.input.connection = c;
            },
            None => {},
        }
        proof {
            assert forall|id: ElementId| #[trigger] self.inputs.contains(id)
                implies self.inputs.spec_get(id).wf() by {
                if id != iid {
                    assert(old(self).inputs.contains(id));
                } else {
                    assert(old(self).input_at(iid).wf());
                }
            }
        }
    }

    /// Move a node; its slot anchors follow, because they are stored as
    /// offsets from the node's centre.
    pub fn set_position(&mut self, id: ElementId, position: Position)
        requires
            old(self).wf(),
            old(self).valid_node(id),
            -POS_LIMIT <= position.x <= POS_LIMIT,
            -POS_LIMIT <= position.y <= POS_LIMIT,
        ensures
            final(self).wf(),
            final(self).inputs == old(self).inputs,
            final(self).outputs == old(self).outputs,
            final(self).valid_node(id),
            final(self).node_at(id) == (FlowNode { position, ..old(self).node_at(id) }),
            forall|id2: ElementId| #[trigger]
                final(self).valid_node(id2) == old(self).valid_node(id2),
            forall|id2: ElementId|
                id2 != id && old(self).valid_node(id2) ==> final(self).node_at(id2) == old(self).node_at(id2),
    {
        let idx = id.index;
        match &mut self.nodes.cells[idx].value {
            Some(node) => {
                node.position = position;
            },
            None => {},
        }
        proof {
            assert forall|id2: ElementId| #[trigger] self.nodes.contains(id2)
                implies self.nodes.spec_get(id2).wf() by {
                if id2 != id {
                    assert(old(self).nodes.contains(id2));
                }
            }
        }
    }

    /// Replace a node's kind value, for instance when an embedded widget
    /// pushes freshly entered state into it.
    pub fn set_node_value(&mut self, id: ElementId, node: N)
        requires
            old(self).wf(),
            old(self).valid_node(id),
        ensures
            final(self).wf(),
            final(self).inputs == old(self).inputs,
            final(self).outputs == old(self).outputs,
            final(self).valid_node(id),
            final(self).node_at(id) == (FlowNode { node, ..old(self).node_at(id) }),
            forall|id2: ElementId| #[trigger]
                final(self).valid_node(id2) == old(self).valid_node(id2),
            forall|id2: ElementId|
                id2 != id && old(self).valid_node(id2) ==> final(self).node_at(id2) == old(self).node_at(id2),
    {
        let idx = id.index;
        match &mut self.nodes.cells[idx].value {
            Some(n) => {
                n.node = node;
            },
            None => {},
        }
        proof {
            assert forall|id2: ElementId| #[trigger] self.nodes.contains(id2)
                implies self.nodes.spec_get(id2).wf() by {
                if id2 != id {
                    assert(old(self).nodes.contains(id2));
                }
            }
        }
    }

    /// World position of an input slot's anchor.
    pub fn input_anchor(&self, iid: ElementId) -> (p: Position)
        requires
            self.wf(),
            self.valid_input(iid),
            self.valid_node(self.input_at(iid).parent),
        ensures
            p.x == self.node_at(self.input_at(iid).parent).position.x + self.input_at(
                iid,
            ).offset.x,
            p.y == self.node_at(self.input_at(iid).parent).position.y + self.input_at(
                iid,
            ).offset.y,
            p.in_world(),
    {
        let slot = self.inputs.get(iid).unwrap();
        let node = self.nodes.get(slot.parent).unwrap();
        Position { x: node.position.x + slot.offset.x, y: node.position.y + slot.offset.y }
    }

    /// World position of an output slot's anchor.
    pub fn output_anchor(&self, oid: ElementId) -> (p: Position)
        requires
            self.wf(),
            self.valid_output(oid),
            self.valid_node(self.output_at(oid).parent),
        ensures
            p.x == self.node_at(self.output_at(oid).parent).position.x + self.output_at(
                oid,
            ).offset.x,
            p.y == self.node_at(self.output_at(oid).parent).position.y + self.output_at(
                oid,
            ).offset.y,
            p.in_world(),
    {
        let slot = self.outputs.get(oid).unwrap();
        let node = self.nodes.get(slot.parent).unwrap();
        Position { x: node.position.x + slot.offset.x, y: node.position.y + slot.offset.y }
    }

    /// Instantiate a template: insert the node and its slots, with every
    /// anchor laid out around the node's centre. Returns the new node's
    /// identifier together with the identifiers of its input and output
    /// slots, in declaration order.
    pub fn build_node(&mut self, template: FlowNodeTemplate<N, N::NodeIO>, config: &FlowNodeConfig, z: i64)
        -> (r: (ElementId, Vec<ElementId>, Vec<ElementId>))
        requires
            old(self).wf(),
            template.wf(),
            config.wf(),
            -Z_LIMIT <= z <= Z_LIMIT,
        ensures
            final(self).wf(),
            final(self).valid_node(r.0),
            !old(self).valid_node(r.0),
            final(self).node_at(r.0).node == template.node,
            final(self).node_at(r.0).title == template.title,
            final(self).node_at(r.0).position == template.position,
            final(self).node_at(r.0).width == template.width,
            final(self).node_at(r.0).height == template.spec_height(*config),
            final(self).node_at(r.0).z == z,
            final(self).node_at(r.0).output_node == template.spec_is_sink(),
            forall|id2: ElementId|
                id2 != r.0 ==> #[trigger] final(self).valid_node(id2) == old(self).valid_node(id2),
            forall|id2: ElementId|
                id2 != r.0 && old(self).valid_node(id2) ==> #[trigger] final(self).node_at(id2)
                    == old(self).node_at(id2),
            r.2@.len() == template.spec_num_outputs(),
            forall|k: int|
                0 <= k < r.2@.len() ==> final(self).valid_output(#[trigger] r.2@[k]) && !old(self).valid_output(r.2@[k]) && final(self).output_at(r.2@[k]).parent == r.0 && final(self).output_at(r.2@[k]).output.label == template.outputs->Some_0@[k].label && final(self).output_at(r.2@[k]).offset.x == spec_output_offset_x(template.width as int)
                    && final(self).output_at(r.2@[k]).offset.y == spec_row_offset_y(
                    *config,
                    template.spec_height(*config),
                    k,
                ),
            forall|k1: int, k2: int| 0 <= k1 < k2 < r.2@.len() ==> r.2@[k1] != r.2@[k2],
            forall|oid: ElementId|
                !r.2@.contains(oid) ==> #[trigger] final(self).valid_output(oid) == old(self).valid_output(oid),
            forall|oid: ElementId|
                !r.2@.contains(oid) && old(self).valid_output(oid) ==> #[trigger] final(self).output_at(oid) == old(self).output_at(oid),
            r.1@.len() == template.spec_num_inputs(),
            forall|k: int|
                0 <= k < r.1@.len() ==> final(self).valid_input(#[trigger] r.1@[k]) && !old(self).valid_input(r.1@[k]) && final(self).input_at(r.1@[k]).parent == r.0 && final(self).input_at(r.1@[k]).input.label == template.inputs->Some_0@[k].label && final(self).input_at(r.1@[k]).input.connection is None
                    && final(self).input_at(r.1@[k]).input.default
                    == template.inputs->Some_0@[k].default && final(self).input_at(
                    r.1@[k],
                ).offset.x == spec_input_offset_x(*config, template.width as int) && final(self).input_at(r.1@[k]).offset.y == spec_row_offset_y(
                    *config,
                    template.spec_height(*config),
                    template.spec_num_outputs() + k,
                ),
            forall|k1: int, k2: int| 0 <= k1 < k2 < r.1@.len() ==> r.1@[k1] != r.1@[k2],
            forall|iid: ElementId|
                !r.1@.contains(iid) ==> #[trigger] final(self).valid_input(iid) == old(self).valid_input(iid),
            forall|iid: ElementId|
                !r.1@.contains(iid) && old(self).valid_input(iid) ==> #[trigger] final(self).input_at(iid) == old(self).input_at(iid),
    {
        let FlowNodeTemplate { title, node, position, width, inputs, outputs, slot } = template;
        let n_in: usize = match &inputs {
            Some(v) => v.len(),
            None => 0,
        };
        let n_out: usize = match &outputs {
            Some(v) => v.len(),
            None => 0,
        };
        let height = node_height(config, n_in, n_out, &slot);
        // A sink is a node that declares zero output slots, whether the
        // output list is absent or present but empty.
        let output_node = n_out == 0;
        let nid = self.nodes.insert(
            FlowNode { node, title, position, width, height, z, output_node },
        );
        let ghost g1 = *self;

        let mut output_ids: Vec<ElementId> = Vec::new();
        match &outputs {
            Some(outs) => {
                let m = outs.len();
                let mut k: usize = 0;
                while k < m
                    invariant
                        k <= m,
                        m == outs@.len(),
                        m <= 256,
                        config.wf(),
                        0 <= width <= 1_000_000,
                        0 <= height <= OFFSET_LIMIT,
                        self.wf(),
                        self.nodes == g1.nodes,
                        self.inputs == g1.inputs,
                        output_ids@.len() == k,
                        forall|oid: ElementId| #[trigger]
                            g1.outputs.contains(oid) ==> self.outputs.contains(oid)
                                && self.outputs.spec_get(oid) == g1.outputs.spec_get(oid),
                        forall|oid: ElementId| #[trigger]
                            self.outputs.contains(oid) ==> g1.outputs.contains(oid)
                                || output_ids@.contains(oid),
                        forall|j: int|
                            0 <= j < k ==> self.valid_output(#[trigger] output_ids@[j])
                                && !g1.outputs.contains(output_ids@[j]) && self.output_at(
                                output_ids@[j],
                            ).parent == nid && self.output_at(output_ids@[j]).output.label
                                == outs@[j].label && self.output_at(output_ids@[j]).offset.x
                                == spec_output_offset_x(width as int) && self.output_at(
                                output_ids@[j],
                            ).offset.y == spec_row_offset_y(*config, height as int, j),
                        forall|j1: int, j2: int|
                            0 <= j1 < j2 < k ==> output_ids@[j1] != output_ids@[j2],
                    decreases m - k,
                {
                    let off = output_offset(config, width, height, k);
                    let slot = OutputSlot {
                        parent: nid,
                        offset: off,
                        output: FlowNodeOutput { label: outs[k].label.clone() },
                    };
                    let oid = self.outputs.insert(slot);
                    let ghost prev = output_ids@;
                    output_ids.push(oid);
                    proof {
                        assert(output_ids@[prev.len() as int] == oid);
                        assert forall|x: ElementId| prev.contains(x)
                            implies output_ids@.contains(x) by {
                            let i = choose|i: int| 0 <= i < prev.len() && prev[i] == x;
                            assert(output_ids@[i] == x);
                        }
                    }
                    k += 1;
                }
            },
            None => {},
        }
        let ghost g2 = *self;

        let mut input_ids: Vec<ElementId> = Vec::new();
        match (&inputs) {
            Some(ins) => {
                let m = ins.len();
                let mut k: usize = 0;
                while k < m
                    invariant
                        k <= m,
                        m == ins@.len(),
                        m <= 256,
                        n_out <= 256,
                        config.wf(),
                        0 <= width <= 1_000_000,
                        0 <= height <= OFFSET_LIMIT,
                        self.wf(),
                        self.nodes == g2.nodes,
                        self.outputs == g2.outputs,
                        input_ids@.len() == k,
                        forall|iid: ElementId| #[trigger]
                            g2.inputs.contains(iid) ==> self.inputs.contains(iid)
                                && self.inputs.spec_get(iid) == g2.inputs.spec_get(iid),
                        forall|iid: ElementId| #[trigger]
                            self.inputs.contains(iid) ==> g2.inputs.contains(iid)
                                || input_ids@.contains(iid),
                        forall|j: int|
                            0 <= j < k ==> self.valid_input(#[trigger] input_ids@[j])
                                && !g2.inputs.contains(input_ids@[j]) && self.input_at(
                                input_ids@[j],
                            ).parent == nid && self.input_at(input_ids@[j]).input.label
                                == ins@[j].label && self.input_at(
                                input_ids@[j],
                            ).input.connection is None && self.input_at(
                                input_ids@[j],
                            ).input.default == ins@[j].default && self.input_at(
                                input_ids@[j],
                            ).offset.x == spec_input_offset_x(*config, width as int)
                                && self.input_at(input_ids@[j]).offset.y == spec_row_offset_y(
                                *config,
                                height as int,
                                n_out + j,
                            ),
                        forall|j1: int, j2: int|
                            0 <= j1 < j2 < k ==> input_ids@[j1] != input_ids@[j2],
                    decreases m - k,
                {
                    let off = input_offset(config, width, height, n_out + k);
                    let slot = InputSlot {
                        parent: nid,
                        offset: off,
                        // A fresh input slot always starts unconnected:
                        // edges are written by the connection state machine
                        // alone, never carried in through a template.
                        input: FlowNodeInput {
                            label: ins[k].label.clone(),
                            connection: None,
                            default: N::clone_io(&ins[k].default),
                        },
                    };
                    let iid = self.inputs.insert(slot);
                    let ghost prev = input_ids@;
                    input_ids.push(iid);
                    proof {
                        assert(input_ids@[prev.len() as int] == iid);
                        assert forall|x: ElementId| prev.contains(x)
                            implies input_ids@.contains(x) by {
                            let i = choose|i: int| 0 <= i < prev.len() && prev[i] == x;
                            assert(input_ids@[i] == x);
                        }
                    }
                    k += 1;
                }
            },
            None => {},
        }
        proof {
            assert forall|oid: ElementId| !output_ids@.contains(oid) implies self.valid_output(oid)
                == old(self).valid_output(oid) && (old(self).valid_output(oid)
                ==> self.output_at(oid) == old(self).output_at(oid)) by {
                assert(self.outputs == g2.outputs);
                assert(g1.outputs == old(self).outputs);
                if g2.outputs.contains(oid) {
                    assert(g1.outputs.contains(oid));
                }
            }
            assert forall|iid: ElementId| !input_ids@.contains(iid) implies self.valid_input(iid)
                == old(self).valid_input(iid) && (old(self).valid_input(iid) ==> self.input_at(iid)
                == old(self).input_at(iid)) by {
                assert(g2.inputs == g1.inputs);
                assert(g1.inputs == old(self).inputs);
                if self.inputs.contains(iid) {
                    assert(g2.inputs.contains(iid));
                }
            }
        }
        (nid, input_ids, output_ids)
    }

    /// Delete a node: first sever every edge that points at one of its
    /// output slots (restoring those inputs to their defaults at the next
    /// resolution), then remove the node and all of its slots. Afterwards
    /// neither the node nor its slots are reachable under their old
    /// identifiers, ever again.
    pub fn delete_node(&mut self, id: ElementId)
        requires
            old(self).wf(),
            old(self).valid_node(id),
        ensures
            final(self).wf(),
            !final(self).valid_node(id),
            forall|id2: ElementId|
                id2 != id ==> #[trigger] final(self).valid_node(id2) == old(self).valid_node(id2),
            forall|id2: ElementId|
                id2 != id && old(self).valid_node(id2) ==> #[trigger] final(self).node_at(id2)
                    == old(self).node_at(id2),
            forall|oid: ElementId| #[trigger]
                final(self).valid_output(oid) <==> old(self).valid_output(oid) && old(
                    self,
                ).output_at(oid).parent != id,
            forall|oid: ElementId| #[trigger]
                final(self).valid_output(oid) ==> final(self).output_at(oid) == old(
                    self,
                ).output_at(oid),
            forall|iid: ElementId| #[trigger]
                final(self).valid_input(iid) <==> old(self).valid_input(iid) && old(
                    self,
                ).input_at(iid).parent != id,
            forall|iid: ElementId| #[trigger]
                final(self).valid_input(iid) ==> final(self).input_at(iid) == (if severed_by(
                    *old(self),
                    old(self).input_at(iid),
                    id,
                ) {
                    with_connection(old(self).input_at(iid), None)
                } else {
                    old(self).input_at(iid)
                }),
    {
        // Sever every edge that enters the node through one of its outputs.
        let n_in = self.inputs.cells.len();
        let mut i: usize = 0;
        while i < n_in
            invariant
                i <= n_in,
                n_in == self.inputs.cells@.len(),
                self.nodes == old(self).nodes,
                self.outputs == old(self).outputs,
                self.wf(),
                forall|iid: ElementId| #[trigger]
                    self.valid_input(iid) == old(self).valid_input(iid),
                forall|iid: ElementId|
                    #[trigger] self.valid_input(iid) && iid.index >= i ==> self.input_at(iid)
                        == old(self).input_at(iid),
                forall|iid: ElementId|
                    #[trigger] self.valid_input(iid) && iid.index < i ==> self.input_at(iid) == (
                    if severed_by(*old(self), old(self).input_at(iid), id) {
                        with_connection(old(self).input_at(iid), None)
                    } else {
                        old(self).input_at(iid)
                    }),
            decreases n_in - i,
        {
            let g = self.inputs.cells[i].generation;
            let mut needs_clear = false;
            match &self.inputs.cells[i].value {
                Some(slot) => {
                    match slot.input.connection {
                        Some(cid) => {
                            match self.outputs.get(cid) {
                                Some(out) => {
                                    if out.parent == id {
                                        needs_clear = true;
                                    }
                                },
                                None => {},
                            }
                        },
                        None => {},
                    }
                },
                None => {},
            }
            if needs_clear {
                self.set_connection(ElementId { index: i, generation: g }, None);
            }
            i += 1;
        }

        let ghost g2 = *self;

        // Remove the node itself.
        self.nodes.remove(id);
        let ghost g3 = *self;

        // Remove the node's output slots.
        let n_out = self.outputs.cells.len();
        let mut i: usize = 0;
        while i < n_out
            invariant
                i <= n_out,
                n_out == self.outputs.cells@.len(),
                self.nodes == g3.nodes,
                self.inputs == g3.inputs,
                self.wf(),
                forall|oid: ElementId| #[trigger]
                    g3.valid_output(oid) ==> (self.valid_output(oid) <==> !(oid.index < i
                        && g3.output_at(oid).parent == id)),
                forall|oid: ElementId| #[trigger]
                    self.valid_output(oid) ==> g3.valid_output(oid) && self.output_at(oid)
                        == g3.output_at(oid),
            decreases n_out - i,
        {
            let g = self.outputs.cells[i].generation;
            let mut needs_remove = false;
            match &self.outputs.cells[i].value {
                Some(slot) => {
                    if slot.parent == id {
                        needs_remove = true;
                    }
                },
                None => {},
            }
            let ghost pre = *self;
            proof {
                assert(forall|oid: ElementId| #[trigger]
                    pre.valid_output(oid) ==> g3.valid_output(oid) && pre.output_at(oid)
                        == g3.output_at(oid));
                assert(forall|oid: ElementId| #[trigger]
                    g3.valid_output(oid) ==> (pre.valid_output(oid) <==> !(oid.index < i
                        && g3.output_at(oid).parent == id)));
            }
            let rid = ElementId { index: i, generation: g };
            if needs_remove {
                self.outputs.remove(rid);
            }
            proof {
                assert forall|oid: ElementId| #[trigger] self.valid_output(oid)
                    implies g3.valid_output(oid) && self.output_at(oid) == g3.output_at(oid) by {
                    if oid != rid {
                        assert(self.outputs.contains(oid) == pre.outputs.contains(oid));
                        assert(pre.valid_output(oid) ==> g3.valid_output(oid) && pre.output_at(oid)
                            == g3.output_at(oid));
                    }
                }
                assert forall|oid: ElementId| #[trigger] g3.valid_output(oid)
                    implies (self.valid_output(oid) <==> !(oid.index < i + 1 && g3.output_at(
                    oid,
                ).parent == id)) by {
                    if oid.index == i {
                        assert(oid == rid);
                    } else {
                        assert(self.outputs.contains(oid) == pre.outputs.contains(oid));
                    }
                }
            }
            i += 1;
        }
        let ghost g4 = *self;

        // Remove the node's input slots.
        let n_in2 = self.inputs.cells.len();
        let mut i: usize = 0;
        while i < n_in2
            invariant
                i <= n_in2,
                n_in2 == self.inputs.cells@.len(),
                self.nodes == g4.nodes,
                self.outputs == g4.outputs,
                self.wf(),
                forall|iid: ElementId| #[trigger]
                    g4.valid_input(iid) ==> (self.valid_input(iid) <==> !(iid.index < i
                        && g4.input_at(iid).parent == id)),
                forall|iid: ElementId| #[trigger]
                    self.valid_input(iid) ==> g4.valid_input(iid) && self.input_at(iid)
                        == g4.input_at(iid),
            decreases n_in2 - i,
        {
            let g = self.inputs.cells[i].generation;
            let mut needs_remove = false;
            match &self.inputs.cells[i].value {
                Some(slot) => {
                    if slot.parent == id {
                        needs_remove = true;
                    }
                },
                None => {},
            }
            let ghost pre = *self;
            proof {
                assert(forall|iid: ElementId| #[trigger]
                    pre.valid_input(iid) ==> g4.valid_input(iid) && pre.input_at(iid)
                        == g4.input_at(iid));
                assert(forall|iid: ElementId| #[trigger]
                    g4.valid_input(iid) ==> (pre.valid_input(iid) <==> !(iid.index < i
                        && g4.input_at(iid).parent == id)));
            }
            let rid = ElementId { index: i, generation: g };
            if needs_remove {
                self.inputs.remove(rid);
            }
            proof {
                assert forall|iid: ElementId| #[trigger] self.valid_input(iid)
                    implies g4.valid_input(iid) && self.input_at(iid) == g4.input_at(iid) by {
                    if iid != rid {
                        assert(self.inputs.contains(iid) == pre.inputs.contains(iid));
                        assert(pre.valid_input(iid) ==> g4.valid_input(iid) && pre.input_at(iid)
                            == g4.input_at(iid));
                    }
                }
                assert forall|iid: ElementId| #[trigger] g4.valid_input(iid)
                    implies (self.valid_input(iid) <==> !(iid.index < i + 1 && g4.input_at(
                    iid,
                ).parent == id)) by {
                    if iid.index == i {
                        assert(iid == rid);
                    } else {
                        assert(self.inputs.contains(iid) == pre.inputs.contains(iid));
                    }
                }
            }
            i += 1;
        }
        proof {
            assert(g3.outputs == old(self).outputs);
            assert(self.outputs == g4.outputs);
            assert forall|oid: ElementId| #[trigger] self.valid_output(oid)
                implies old(self).valid_output(oid) && old(self).output_at(oid).parent != id
                    && self.output_at(oid) == old(self).output_at(oid) by {
                assert(g4.valid_output(oid));
                assert(g3.valid_output(oid) && g4.output_at(oid) == g3.output_at(oid));
                assert(oid.index < g3.outputs.cells@.len());
            }
            assert forall|oid: ElementId|
                old(self).valid_output(oid) && old(self).output_at(oid).parent != id
                implies #[trigger] self.valid_output(oid) by {
                assert(g3.valid_output(oid));
                assert(oid.index < g3.outputs.cells@.len());
                assert(g4.valid_output(oid));
            }
            assert(g2.inputs == g4.inputs);
            assert forall|iid: ElementId| #[trigger] self.valid_input(iid)
                implies old(self).valid_input(iid) && old(self).input_at(iid).parent != id
                    && self.input_at(iid) == (if severed_by(
                    *old(self),
                    old(self).input_at(iid),
                    id,
                ) {
                    with_connection(old(self).input_at(iid), None)
                } else {
                    old(self).input_at(iid)
                }) by {
                assert(g4.valid_input(iid));
                assert(iid.index < g4.inputs.cells@.len());
                assert(g2.valid_input(iid));
                assert(g2.valid_input(iid) == old(self).valid_input(iid));
                assert(g2.input_at(iid) == (if severed_by(*old(self), old(self).input_at(iid), id) {
                    with_connection(old(self).input_at(iid), None)
                } else {
                    old(self).input_at(iid)
                }));
                assert(g4.input_at(iid).parent != id);
                assert(g2.input_at(iid).parent == old(self).input_at(iid).parent);
            }
            assert forall|iid: ElementId|
                old(self).valid_input(iid) && old(self).input_at(iid).parent != id
                implies #[trigger] self.valid_input(iid) by {
                assert(g2.valid_input(iid));
                assert(g4.valid_input(iid));
                assert(iid.index < g4.inputs.cells@.len());
                assert(g2.input_at(iid) == (if severed_by(*old(self), old(self).input_at(iid), id) {
                    with_connection(old(self).input_at(iid), None)
                } else {
                    old(self).input_at(iid)
                }));
                assert(g4.input_at(iid).parent != id);
            }
        }
    }

    /// Find an input slot of `node` by label; the slot at the lowest arena
    /// index wins when a label is repeated.
    pub fn find_input(&self, node: ElementId, label: &str) -> (r: Option<ElementId>)
        ensures
            r matches Some(iid) ==> self.valid_input(iid) && self.input_at(iid).parent == node
                && self.input_at(iid).input.label@ == label@ && forall|iid2: ElementId|
                #[trigger] self.valid_input(iid2) && self.input_at(iid2).parent == node
                    && self.input_at(iid2).input.label@ == label@ ==> iid.index <= iid2.index,
            r is None ==> forall|iid: ElementId|
                #[trigger] self.valid_input(iid) && self.input_at(iid).parent == node
                    ==> self.input_at(iid).input.label@ != label@,
    {
        let n = self.inputs.cells.len();
        let mut i: usize = 0;
        while i < n
            invariant
                i <= n,
                n == self.inputs.cells@.len(),
                forall|iid: ElementId|
                    #[trigger] self.valid_input(iid) && self.input_at(iid).parent == node
                        && iid.index < i ==> self.input_at(iid).input.label@ != label@,
            decreases n - i,
        {
            let g = self.inputs.cells[i].generation;
            match &self.inputs.cells[i].value {
                Some(slot) => {
                    if slot.parent.index == node.index && slot.parent.generation == node.generation
                        && str_eq(slot.input.label.as_str(), label) {
                        return Some(ElementId { index: i, generation: g });
                    }
                },
                None => {},
            }
            i += 1;
        }
        None
    }

    /// Find an output slot of `node` by label, in the same way.
    pub fn find_output(&self, node: ElementId, label: &str) -> (r: Option<ElementId>)
        ensures
            r matches Some(oid) ==> self.valid_output(oid) && self.output_at(oid).parent == node
                && self.output_at(oid).output.label@ == label@ && forall|oid2: ElementId|
                #[trigger] self.valid_output(oid2) && self.output_at(oid2).parent == node
                    && self.output_at(oid2).output.label@ == label@ ==> oid.index <= oid2.index,
            r is None ==> forall|oid: ElementId|
                #[trigger] self.valid_output(oid) && self.output_at(oid).parent == node
                    ==> self.output_at(oid).output.label@ != label@,
    {
        let n = self.outputs.cells.len();
        let mut i: usize = 0;
        while i < n
            invariant
                i <= n,
                n == self.outputs.cells@.len(),
                forall|oid: ElementId|
                    #[trigger] self.valid_output(oid) && self.output_at(oid).parent == node
                        && oid.index < i ==> self.output_at(oid).output.label@ != label@,
            decreases n - i,
        {
            let g = self.outputs.cells[i].generation;
            match &self.outputs.cells[i].value {
                Some(slot) => {
                    if slot.parent.index == node.index && slot.parent.generation == node.generation
                        && str_eq(slot.output.label.as_str(), label) {
                        return Some(ElementId { index: i, generation: g });
                    }
                },
                None => {},
            }
            i += 1;
        }
        None
    }
}

} // verus!
