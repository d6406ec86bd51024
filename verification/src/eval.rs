//! Pull-based evaluation. Resolving a node gathers one value per input
//! slot — following the slot's edge upstream when there is one, falling
//! back to the slot's default when there is none or when the edge is stale —
//! and then asks the node kind for its value.
//!
//! Evaluation runs on a fuel budget so that it terminates on any graph; a
//! cyclically wired graph exhausts the fuel and the pull is aborted with
//! `None`. A budget of one more than the number of nodes never aborts an
//! acyclic pull, because a pull chain can visit each node at most once.

use vstd::prelude::*;

use crate::arena::ElementId;
use crate::graph::FlowGraph;
use crate::node::{FlowNode, FlowNodeEvent, FlowNodeInput, FlowNodeSet};
use crate::values::{view_opt_str, InputValues};

verus! {

impl<N: FlowNodeSet> FlowGraph<N> {
    /// What resolving `node` for `output` returns: `None` exactly when the
    /// fuel ran out somewhere in the pull.
    pub open spec fn spec_resolve(
        self,
        node: ElementId,
        output: Option<Seq<char>>,
        fuel: nat,
    ) -> Option<N::NodeIO>
        decreases fuel, self.inputs.cells@.len() + 1, 0int,
    {
        if fuel == 0 {
            None
        } else if !self.valid_node(node) {
            None
        } else {
            match self.spec_gather_inputs(node, self.inputs.cells@.len() as int, fuel) {
                Some(entries) => Some(self.node_at(node).node.resolve_spec(entries, output)),
                None => None,
            }
        }
    }

    /// The named input entries contributed by the first `i` input-slot
    /// cells that belong to `node`, in cell order.
    pub open spec fn spec_gather_inputs(self, node: ElementId, i: int, fuel: nat) -> Option<
        Seq<(Seq<char>, N::NodeIO)>,
    >
        decreases fuel, i, 1int,
    {
        if i <= 0 {
            Some(Seq::empty())
        } else {
            match self.spec_gather_inputs(node, i - 1, fuel) {
                None => None,
                Some(entries) => {
                    match self.inputs.cells@[i - 1].value {
                        Some(slot) => {
                            if slot.parent == node {
                                match self.spec_input_value(slot.input, fuel) {
                                    Some(v) => Some(entries.push((slot.input.label@, v))),
                                    None => None,
                                }
                            } else {
                                Some(entries)
                            }
                        },
                        None => Some(entries),
                    }
                },
            }
        }
    }

    /// The value one input slot contributes: its default when it has no
    /// edge or a stale edge, the upstream node's resolved output otherwise.
    pub open spec fn spec_input_value(self, input: FlowNodeInput<N::NodeIO>, fuel: nat) -> Option<
        N::NodeIO,
    >
        decreases fuel, 0int, 0int,
    {
        match input.connection {
            None => Some(input.default),
            Some(cid) => {
                if !self.valid_output(cid) {
                    Some(input.default)
                } else if !self.valid_node(self.output_at(cid).parent) {
                    Some(input.default)
                } else if fuel == 0 {
                    None
                } else {
                    self.spec_resolve(
                        self.output_at(cid).parent,
                        Some(self.output_at(cid).output.label@),
                        (fuel - 1) as nat,
                    )
                }
            },
        }
    }

    /// Once gathering has aborted, gathering any longer prefix aborts too.
    pub proof fn lemma_gather_none_mono(self, node: ElementId, j: int, k: int, fuel: nat)
        requires
            0 <= j <= k,
            self.spec_gather_inputs(node, j, fuel) is None,
        ensures
            self.spec_gather_inputs(node, k, fuel) is None,
        decreases k,
    {
        if k > j {
            self.lemma_gather_none_mono(node, j, k - 1, fuel);
        }
    }

    /// The result events one re-evaluation pass emits: one `Resolved` event
    /// per sink node among the first `i` node cells whose pull completes.
    pub open spec fn spec_sink_events(self, i: int, fuel: nat) -> Seq<FlowNodeEvent<N>>
        decreases i,
    {
        if i <= 0 {
            Seq::empty()
        } else {
            let prev = self.spec_sink_events(i - 1, fuel);
            match self.nodes.cells@[i - 1].value {
                Some(node) => {
                    if node.output_node {
                        let id = ElementId {
                            index: (i - 1) as usize,
                            generation: self.nodes.cells@[i - 1].generation,
                        };
                        match self.spec_resolve(id, None, fuel) {
                            Some(v) => prev.push(FlowNodeEvent::Resolved(id, v)),
                            None => prev,
                        }
                    } else {
                        prev
                    }
                },
                None => prev,
            }
        }
    }

    /// Re-evaluate every sink node, emitting a result event for each pull
    /// that completes within the fuel budget. Sinks are visited in arena
    /// order; the graph itself is only read.
    pub fn resolve_output_nodes(&self, fuel: u64) -> (events: Vec<FlowNodeEvent<N>>)
        ensures
            events@ == self.spec_sink_events(self.nodes.cells@.len() as int, fuel as nat),
    {
        let n = self.nodes.cells.len();
        let mut events: Vec<FlowNodeEvent<N>> = Vec::new();
        let mut i: usize = 0;
        while i < n
            invariant
                i <= n,
                n == self.nodes.cells@.len(),
                events@ == self.spec_sink_events(i as int, fuel as nat),
            decreases n - i,
        {
            let g = self.nodes.cells[i].generation;
            match &self.nodes.cells[i].value {
                Some(node) => {
                    if node.output_node {
                        let id = ElementId { index: i, generation: g };
                        match node.resolve(id, None, self, fuel) {
                            Some(v) => {
                                events.push(FlowNodeEvent::Resolved(id, v));
                            },
                            None => {},
                        }
                    }
                },
                None => {},
            }
            i += 1;
        }
        events
    }
}

impl<N: FlowNodeSet> FlowNode<N> {
    /// Resolve this node against `graph`, which must hold this very node
    /// under `entity`. `None` exactly when the fuel ran out.
    pub fn resolve(
        &self,
        entity: ElementId,
        output: Option<&str>,
        graph: &FlowGraph<N>,
        fuel: u64,
    ) -> (r: Option<N::NodeIO>)
        requires
            graph.valid_node(entity),
            graph.node_at(entity) == *self,
        ensures
            r == graph.spec_resolve(entity, view_opt_str(output), fuel as nat),
        decreases fuel, 2int,
    {
        if fuel == 0 {
            return None;
        }
        match self.get_inputs(entity, graph, fuel) {
            Some(inputs) => Some(self.node.resolve(&inputs, output)),
            None => None,
        }
    }

    /// Gather the named values of every input slot belonging to `entity`.
    /// `None` exactly when some upstream pull ran out of fuel.
    pub fn get_inputs(&self, entity: ElementId, graph: &FlowGraph<N>, fuel: u64) -> (r: Option<
        InputValues<N::NodeIO>,
    >)
        requires
            fuel >= 1,
        ensures
            match r {
                Some(vals) => graph.spec_gather_inputs(
                    entity,
                    graph.inputs.cells@.len() as int,
                    fuel as nat,
                ) == Some(vals@),
                None => graph.spec_gather_inputs(
                    entity,
                    graph.inputs.cells@.len() as int,
                    fuel as nat,
                ) is None,
            },
        decreases fuel, 1int,
    {
        let n = graph.inputs.cells.len();
        let mut vals = InputValues::<N::NodeIO>::new();
        let mut i: usize = 0;
        while i < n
            invariant
                i <= n,
                n == graph.inputs.cells@.len(),
                fuel >= 1,
                graph.spec_gather_inputs(entity, i as int, fuel as nat) == Some(vals@),
            decreases n - i,
        {
            match &graph.inputs.cells[i].value {
                Some(slot) => {
                    if slot.parent == entity {
                        match graph.get_input(&slot.input, fuel) {
                            Some(v) => {
                                vals.push(slot.input.label.clone(), v);
                            },
                            None => {
                                proof {
                                    graph.lemma_gather_none_mono(
                                        entity,
                                        i + 1,
                                        n as int,
                                        fuel as nat,
                                    );
                                }
                                return None;
                            },
                        }
                    }
                },
                None => {},
            }
            i += 1;
        }
        Some(vals)
    }
}

impl<N: FlowNodeSet> FlowGraph<N> {
    /// The value one input slot contributes to a resolution pulled from
    /// this graph: the upstream output when a live edge is present, the
    /// stored default otherwise.
    pub fn get_input(&self, input: &FlowNodeInput<N::NodeIO>, fuel: u64) -> (r: Option<N::NodeIO>)
        requires
            fuel >= 1,
        ensures
            r == self.spec_input_value(*input, fuel as nat),
        decreases fuel, 0int,
    {
        match input.connection {
            Some(cid) => {
                match self.outputs.get(cid) {
                    Some(out) => {
                        match self.nodes.get(out.parent) {
                            Some(node) => {
                                node.resolve(
                                    out.parent,
                                    Some(out.output.label.as_str()),
                                    self,
                                    fuel - 1,
                                )
                            },
                            None => Some(N::clone_io(&input.default)),
                        }
                    },
                    None => Some(N::clone_io(&input.default)),
                }
            },
            None => Some(N::clone_io(&input.default)),
        }
    }
}

/// An input slot with no edge resolves to its default value, whatever else
/// the graph holds: the lemma holds for every graph `g` and every fuel
/// budget that lets the pull proceed.
pub proof fn lemma_unconnected_input_is_default<N: FlowNodeSet>(
    g: FlowGraph<N>,
    input: FlowNodeInput<N::NodeIO>,
    fuel: nat,
)
    requires
        input.connection is None,
    ensures
        g.spec_input_value(input, fuel) == Some(input.default),
{
}

/// Resolution is deterministic: two resolutions of the same node against
/// the same graph, with no structural change in between, agree.
pub proof fn lemma_resolve_deterministic<N: FlowNodeSet>(
    g: FlowGraph<N>,
    node: ElementId,
    output: Option<Seq<char>>,
    fuel: nat,
    r1: Option<N::NodeIO>,
    r2: Option<N::NodeIO>,
)
    requires
        r1 == g.spec_resolve(node, output, fuel),
        r2 == g.spec_resolve(node, output, fuel),
    ensures
        r1 == r2,
{
}

} // verus!
