//! The interactive editor around the graph: the connection state machine
//! that turns presses and releases into edge edits, node activation and
//! deletion, and the trigger for re-evaluation.
//!
//! The state machine is `Idle` (no partial connection) or `Pending` (a
//! partial connection with exactly one fixed endpoint). A press on a free
//! anchor opens a pending connection; a press on a connected input breaks
//! the edge and re-opens its output end; a release either commits the
//! pending connection as an edge or discards it.

use vstd::prelude::*;

use crate::arena::ElementId;
use crate::graph::{severed_by, with_connection, FlowGraph};
use crate::interactions::{
    spec_in_area, spec_in_radius_at, Clickable, Position, POS_LIMIT, THRESHOLD_LIMIT, Z_LIMIT,
};
use crate::node::{FlowNode, FlowNodeConfig, FlowNodeEvent, FlowNodeSet};
use crate::template::FlowNodeTemplate;

verus! {

/// Geometry of connection handling: how wide a drawn connection is and how
/// close (in world units) a release must land to an anchor to hit it.
pub struct ConnectionConfig {
    pub connection_size: i64,
    pub connection_threshold: i64,
}

impl ConnectionConfig {
    pub open spec fn wf(self) -> bool {
        &&& 0 <= self.connection_size <= THRESHOLD_LIMIT
        &&& 0 <= self.connection_threshold <= THRESHOLD_LIMIT
    }
}

impl Default for ConnectionConfig {
    /// The stock geometry.
    fn default() -> (c: ConnectionConfig)
        ensures
            c == (ConnectionConfig { connection_size: 2i64, connection_threshold: 10i64 }),
            c.wf(),
    {
        ConnectionConfig { connection_size: 2, connection_threshold: 10 }
    }
}

/// A structural event: the wiring changed (or, for `Propagate`, a node's
/// internal value did), so sink nodes must be re-evaluated.
#[derive(Clone, Copy, PartialEq, Eq, Structural, Debug)]
pub enum ConnectionEvent {
    Propagate,
    Created,
    Destroyed,
}

/// A drag in progress: exactly one endpoint is fixed, the other follows
/// the pointer and carries no graph meaning until the release.
#[derive(Clone, Copy, PartialEq, Eq, Structural, Debug)]
pub enum PartialConnection {
    FromInput(ElementId),
    FromOutput(ElementId),
}

/// What a press landed on, topmost element first.
#[derive(Clone, Copy, PartialEq, Eq, Structural, Debug)]
pub enum ClickTarget {
    Node(ElementId),
    Input(ElementId),
    Output(ElementId),
}

/// The editor: the graph plus the transient interaction state around it.
/// This is the sole writer of edge references.
pub struct FlowNodeEditor<N: FlowNodeSet> {
    pub graph: FlowGraph<N>,
    pub partial: Option<PartialConnection>,
    pub active: Option<ElementId>,
    pub next_z: i64,
    pub node_config: FlowNodeConfig,
    pub connection_config: ConnectionConfig,
}

impl<N: FlowNodeSet> FlowNodeEditor<N> {
    pub open spec fn wf(self) -> bool {
        &&& self.graph.wf()
        &&& self.node_config.wf()
        &&& self.connection_config.wf()
        &&& 0 <= self.next_z <= Z_LIMIT
    }

    /// A fresh editor over an empty graph.
    pub fn new(node_config: FlowNodeConfig, connection_config: ConnectionConfig) -> (e:
        FlowNodeEditor<N>)
        requires
            node_config.wf(),
            connection_config.wf(),
        ensures
            e.wf(),
            e.partial is None,
            e.active is None,
            forall|id: ElementId| !e.graph.valid_node(id),
            forall|id: ElementId| !e.graph.valid_input(id),
            forall|id: ElementId| !e.graph.valid_output(id),
    {
        FlowNodeEditor {
            graph: FlowGraph::new(),
            partial: None,
            active: None,
            next_z: 0,
            node_config,
            connection_config,
        }
    }

    /// Instantiate a template on top of everything already drawn. Returns
    /// the node's identifier and its input and output slot identifiers, in
    /// declaration order.
    pub fn build_node(&mut self, template: FlowNodeTemplate<N, N::NodeIO>) -> (r: (
        ElementId,
        Vec<ElementId>,
        Vec<ElementId>,
    ))
        requires
            old(self).wf(),
            template.wf(),
        ensures
            final(self).wf(),
            final(self).partial == old(self).partial,
            final(self).active == old(self).active,
            final(self).node_config == old(self).node_config,
            final(self).connection_config == old(self).connection_config,
            final(self).graph.valid_node(r.0),
            !old(self).graph.valid_node(r.0),
            final(self).graph.node_at(r.0).node == template.node,
            final(self).graph.node_at(r.0).title == template.title,
            final(self).graph.node_at(r.0).position == template.position,
            final(self).graph.node_at(r.0).width == template.width,
            final(self).graph.node_at(r.0).z == old(self).next_z,
            final(self).graph.node_at(r.0).output_node == template.spec_is_sink(),
            final(self).next_z == (if old(self).next_z <= Z_LIMIT - 10 {
                old(self).next_z + 10
            } else {
                old(self).next_z as int
            }),
            forall|id2: ElementId|
                id2 != r.0 ==> #[trigger] final(self).graph.valid_node(id2) == old(self).graph.valid_node(id2),
            forall|id2: ElementId|
                id2 != r.0 && old(self).graph.valid_node(id2) ==> #[trigger] final(self).graph.node_at(id2) == old(self).graph.node_at(id2),
            r.2@.len() == template.spec_num_outputs(),
            forall|k: int|
                0 <= k < r.2@.len() ==> final(self).graph.valid_output(#[trigger] r.2@[k]) && !old(self).graph.valid_output(r.2@[k]) && final(self).graph.output_at(r.2@[k]).parent == r.0
                    && final(self).graph.output_at(r.2@[k]).output.label
                    == template.outputs->Some_0@[k].label,
            forall|oid: ElementId|
                !r.2@.contains(oid) ==> #[trigger] final(self).graph.valid_output(oid) == old(self).graph.valid_output(oid),
            forall|oid: ElementId|
                !r.2@.contains(oid) && old(self).graph.valid_output(oid) ==> #[trigger] final(self).graph.output_at(oid) == old(self).graph.output_at(oid),
            r.1@.len() == template.spec_num_inputs(),
            forall|k: int|
                0 <= k < r.1@.len() ==> final(self).graph.valid_input(#[trigger] r.1@[k]) && !old(self).graph.valid_input(r.1@[k]) && final(self).graph.input_at(r.1@[k]).parent == r.0
                    && final(self).graph.input_at(r.1@[k]).input.label
                    == template.inputs->Some_0@[k].label && final(self).graph.input_at(
                    r.1@[k],
                ).input.connection is None && final(self).graph.input_at(r.1@[k]).input.default
                    == template.inputs->Some_0@[k].default,
            forall|iid: ElementId|
                !r.1@.contains(iid) ==> #[trigger] final(self).graph.valid_input(iid) == old(self).graph.valid_input(iid),
            forall|iid: ElementId|
                !r.1@.contains(iid) && old(self).graph.valid_input(iid) ==> #[trigger] final(self).graph.input_at(iid) == old(self).graph.input_at(iid),
    {
        let z = self.next_z;
        if self.next_z <= Z_LIMIT - 10 {
            self.next_z = self.next_z + 10;
        }
        self.graph.build_node(template, &self.node_config, z)
    }

    /// React to what a press landed on: a node comes to the front and
    /// becomes the active (focused) node; anything else clears the focus.
    pub fn activate_node(&mut self, clicked: Option<ClickTarget>)
        requires
            old(self).wf(),
        ensures
            final(self).wf(),
            final(self).partial == old(self).partial,
            final(self).node_config == old(self).node_config,
            final(self).connection_config == old(self).connection_config,
            final(self).graph.inputs == old(self).graph.inputs,
            final(self).graph.outputs == old(self).graph.outputs,
            forall|id2: ElementId| #[trigger]
                final(self).graph.valid_node(id2) == old(self).graph.valid_node(id2),
            match clicked {
                Some(ClickTarget::Node(id)) => if old(self).graph.valid_node(id) {
                    &&& final(self).active == Some(id)
                    &&& (old(self).active == Some(id) ==> *final(self) == *old(self))
                    &&& (old(self).active != Some(id) ==> {
                        &&& final(self).graph.node_at(id) == (FlowNode {
                            z: old(self).next_z,
                            ..old(self).graph.node_at(id)
                        })
                        &&& forall|id2: ElementId|
                            id2 != id && old(self).graph.valid_node(id2) ==> #[trigger] final(self).graph.node_at(id2) == old(self).graph.node_at(id2)
                        &&& final(self).next_z == (if old(self).next_z <= Z_LIMIT - 10 {
                            old(self).next_z + 10
                        } else {
                            old(self).next_z as int
                        })
                    })
                } else {
                    final(self).active is None && final(self).graph == old(self).graph
                        && final(self).next_z == old(self).next_z
                },
                _ => final(self).active is None && final(self).graph == old(self).graph
                    && final(self).next_z == old(self).next_z,
            },
    {
        match clicked {
            Some(ClickTarget::Node(id)) => {
                if self.graph.nodes.get(id).is_some() {
                    match self.active {
                        Some(current) => {
                            if current == id {
                                return ;
                            }
                        },
                        None => {},
                    }
                    let z = self.next_z;
                    let mut node_z_ok = true;
                    match &mut self.graph.nodes.cells[id.index].value {
                        Some(node) => {
                            node.z = z;
                        },
                        None => {
                            node_z_ok = false;
                        },
                    }
                    proof {
                        assert(node_z_ok);
                        assert forall|id2: ElementId| #[trigger] self.graph.nodes.contains(id2)
                            implies self.graph.nodes.spec_get(id2).wf() by {
                            if id2 != id {
                                assert(old(self).graph.nodes.contains(id2));
                            }
                        }
                    }
                    if self.next_z <= Z_LIMIT - 10 {
                        self.next_z = self.next_z + 10;
                    }
                    self.active = Some(id);
                } else {
                    self.active = None;
                }
            },
            _ => {
                self.active = None;
            },
        }
    }

    /// Drag the active node to `position`; its slot anchors follow.
    pub fn drag_node(&mut self, position: Position)
        requires
            old(self).wf(),
            -POS_LIMIT <= position.x <= POS_LIMIT,
            -POS_LIMIT <= position.y <= POS_LIMIT,
        ensures
            final(self).wf(),
            final(self).partial == old(self).partial,
            final(self).active == old(self).active,
            final(self).next_z == old(self).next_z,
            final(self).node_config == old(self).node_config,
            final(self).connection_config == old(self).connection_config,
            final(self).graph.inputs == old(self).graph.inputs,
            final(self).graph.outputs == old(self).graph.outputs,
            forall|id2: ElementId| #[trigger]
                final(self).graph.valid_node(id2) == old(self).graph.valid_node(id2),
            match old(self).active {
                Some(id) => if old(self).graph.valid_node(id) {
                    &&& final(self).graph.node_at(id) == (FlowNode {
                        position,
                        ..old(self).graph.node_at(id)
                    })
                    &&& forall|id2: ElementId|
                        id2 != id && old(self).graph.valid_node(id2) ==> #[trigger] final(self).graph.node_at(id2) == old(self).graph.node_at(id2)
                } else {
                    final(self).graph == old(self).graph
                },
                None => final(self).graph == old(self).graph,
            },
    {
        match self.active {
            Some(id) => {
                if self.graph.nodes.get(id).is_some() {
                    self.graph.set_position(id, position);
                }
            },
            None => {},
        }
    }

    /// Push a fresh kind value into a node (say, after text entry) and
    /// raise the structural event that re-evaluates the sinks.
    pub fn set_node_value(&mut self, id: ElementId, node: N) -> (ev: ConnectionEvent)
        requires
            old(self).wf(),
            old(self).graph.valid_node(id),
        ensures
            final(self).wf(),
            ev == ConnectionEvent::Propagate,
            final(self).partial == old(self).partial,
            final(self).active == old(self).active,
            final(self).next_z == old(self).next_z,
            final(self).node_config == old(self).node_config,
            final(self).connection_config == old(self).connection_config,
            final(self).graph.inputs == old(self).graph.inputs,
            final(self).graph.outputs == old(self).graph.outputs,
            final(self).graph.valid_node(id),
            final(self).graph.node_at(id) == (FlowNode { node, ..old(self).graph.node_at(id) }),
            forall|id2: ElementId| #[trigger]
                final(self).graph.valid_node(id2) == old(self).graph.valid_node(id2),
            forall|id2: ElementId|
                id2 != id && old(self).graph.valid_node(id2) ==> #[trigger] final(self).graph.node_at(id2) == old(self).graph.node_at(id2),
    {
        self.graph.set_node_value(id, node);
        ConnectionEvent::Propagate
    }

    /// Whether this press begins a break: it landed on an input slot that
    /// currently holds an edge.
    pub open spec fn spec_breaks(self, clicked: Option<ClickTarget>) -> bool {
        match clicked {
            Some(ClickTarget::Input(iid)) => self.graph.valid_input(iid) && self.graph.input_at(
                iid,
            ).input.connection is Some,
            _ => false,
        }
    }

    /// A press on a connected input slot breaks its edge: the slot reverts
    /// to its default at the next resolution, a `Destroyed` event is
    /// raised, and the freed output end re-opens as a pending connection so
    /// the user can re-route it at once.
    pub fn break_connection(&mut self, clicked: Option<ClickTarget>) -> (ev: Option<
        ConnectionEvent,
    >)
        requires
            old(self).wf(),
        ensures
            final(self).wf(),
            final(self).active == old(self).active,
            final(self).next_z == old(self).next_z,
            final(self).node_config == old(self).node_config,
            final(self).connection_config == old(self).connection_config,
            !old(self).spec_breaks(clicked) ==> *final(self) == *old(self) && ev is None,
            old(self).spec_breaks(clicked) ==> (clicked matches Some(ClickTarget::Input(iid)) && {
                &&& ev == Some(ConnectionEvent::Destroyed)
                &&& final(self).partial == Some(
                    PartialConnection::FromOutput(
                        old(self).graph.input_at(iid).input.connection->Some_0,
                    ),
                )
                &&& final(self).graph.nodes == old(self).graph.nodes
                &&& final(self).graph.outputs == old(self).graph.outputs
                &&& final(self).graph.valid_input(iid)
                &&& final(self).graph.input_at(iid) == with_connection(
                    old(self).graph.input_at(iid),
                    None,
                )
                &&& forall|iid2: ElementId| #[trigger]
                    final(self).graph.valid_input(iid2) == old(self).graph.valid_input(iid2)
                &&& forall|iid2: ElementId|
                    iid2 != iid && old(self).graph.valid_input(iid2) ==> #[trigger] final(self).graph.input_at(iid2) == old(self).graph.input_at(iid2)
                &&& forall|fuel: nat|
                    final(self).graph.spec_input_value(
                        #[trigger] final(self).graph.input_at(iid).input,
                        fuel,
                    ) == Some(old(self).graph.input_at(iid).input.default)
            }),
    {
        match clicked {
            Some(ClickTarget::Input(iid)) => {
                let mut existing: Option<ElementId> = None;
                match self.graph.inputs.get(iid) {
                    Some(slot) => {
                        existing = slot.input.connection;
                    },
                    None => {},
                }
                match existing {
                    Some(out) => {
                        self.graph.set_connection(iid, None);
                        self.partial = Some(PartialConnection::FromOutput(out));
                        Some(ConnectionEvent::Destroyed)
                    },
                    None => None,
                }
            },
            _ => None,
        }
    }

    /// A press over a free anchor, while no drag is pending, opens a
    /// pending connection fixed at that anchor. A connected input slot
    /// does not qualify: pressing it is a break, not a begin.
    pub fn create_partial_connection(&mut self, clicked: Option<ClickTarget>)
        requires
            old(self).wf(),
        ensures
            final(self).wf(),
            final(self).graph == old(self).graph,
            final(self).active == old(self).active,
            final(self).next_z == old(self).next_z,
            final(self).node_config == old(self).node_config,
            final(self).connection_config == old(self).connection_config,
            old(self).partial is Some ==> final(self).partial == old(self).partial,
            old(self).partial is None ==> final(self).partial == (match clicked {
                Some(ClickTarget::Input(iid)) => if old(self).graph.valid_input(iid) && old(self).graph.input_at(iid).input.connection is None {
                    Some(PartialConnection::FromInput(iid))
                } else {
                    None
                },
                Some(ClickTarget::Output(oid)) => if old(self).graph.valid_output(oid) {
                    Some(PartialConnection::FromOutput(oid))
                } else {
                    None
                },
                _ => None,
            }),
    {
        if self.partial.is_some() {
            return ;
        }
        match clicked {
            Some(ClickTarget::Input(iid)) => {
                match self.graph.inputs.get(iid) {
                    Some(slot) => {
                        if slot.input.connection.is_none() {
                            self.partial = Some(PartialConnection::FromInput(iid));
                        }
                    },
                    None => {},
                }
            },
            Some(ClickTarget::Output(oid)) => {
                if self.graph.outputs.get(oid).is_some() {
                    self.partial = Some(PartialConnection::FromOutput(oid));
                }
            },
            _ => {},
        }
    }
}

/// Whether `click` lands on the body of node `id`.
pub open spec fn spec_node_hit<N: FlowNodeSet>(
    g: FlowGraph<N>,
    id: ElementId,
    click: Position,
) -> bool {
    g.valid_node(id) && spec_in_area(
        g.node_at(id).position,
        g.node_at(id).width,
        g.node_at(id).height,
        click,
    )
}

/// Whether `click` lands within `r` of input slot `iid`'s anchor. The
/// anchor only exists while the owning node does.
pub open spec fn spec_input_hit<N: FlowNodeSet>(
    g: FlowGraph<N>,
    iid: ElementId,
    r: int,
    click: Position,
) -> bool {
    &&& g.valid_input(iid)
    &&& g.valid_node(g.input_at(iid).parent)
    &&& spec_in_radius_at(
        g.node_at(g.input_at(iid).parent).position.x + g.input_at(iid).offset.x,
        g.node_at(g.input_at(iid).parent).position.y + g.input_at(iid).offset.y,
        r,
        click,
    )
}

/// Whether `click` lands within `r` of output slot `oid`'s anchor.
pub open spec fn spec_output_hit<N: FlowNodeSet>(
    g: FlowGraph<N>,
    oid: ElementId,
    r: int,
    click: Position,
) -> bool {
    &&& g.valid_output(oid)
    &&& g.valid_node(g.output_at(oid).parent)
    &&& spec_in_radius_at(
        g.node_at(g.output_at(oid).parent).position.x + g.output_at(oid).offset.x,
        g.node_at(g.output_at(oid).parent).position.y + g.output_at(oid).offset.y,
        r,
        click,
    )
}

impl<N: FlowNodeSet> FlowNodeEditor<N> {
    /// Whether `click` hits `target`, with slot anchors tested against the
    /// configured handle radius.
    pub open spec fn spec_target_hit(self, target: ClickTarget, click: Position) -> bool {
        match target {
            ClickTarget::Node(id) => spec_node_hit(self.graph, id, click),
            ClickTarget::Input(iid) => spec_input_hit(
                self.graph,
                iid,
                self.node_config.handle_size_io as int,
                click,
            ),
            ClickTarget::Output(oid) => spec_output_hit(
                self.graph,
                oid,
                self.node_config.handle_size_io as int,
                click,
            ),
        }
    }

    /// The depth of a hit target: slot anchors are drawn just above their
    /// node's body, inputs below outputs.
    pub open spec fn spec_target_z(self, target: ClickTarget) -> int {
        match target {
            ClickTarget::Node(id) => self.graph.node_at(id).z as int,
            ClickTarget::Input(iid) => self.graph.node_at(self.graph.input_at(iid).parent).z + 1,
            ClickTarget::Output(oid) => self.graph.node_at(self.graph.output_at(oid).parent).z + 2,
        }
    }

    /// Decide what a press at `click` lands on: some hit of maximal depth,
    /// or nothing. Which of several equally deep hits wins is not pinned
    /// down; the scan fixes one order.
    pub fn handle_click(&self, click: Position) -> (r: Option<ClickTarget>)
        requires
            self.wf(),
            click.in_world(),
        ensures
            r is None ==> forall|t: ClickTarget| !self.spec_target_hit(t, click),
            r matches Some(t) ==> self.spec_target_hit(t, click) && forall|t2: ClickTarget|
                self.spec_target_hit(t2, click) ==> #[trigger] self.spec_target_z(t2)
                    <= self.spec_target_z(t),
    {
        let mut best: Option<ClickTarget> = None;
        let mut best_z: i64 = 0;

        let n_nodes = self.graph.nodes.cells.len();
        let mut i: usize = 0;
        while i < n_nodes
            invariant
                i <= n_nodes,
                n_nodes == self.graph.nodes.cells@.len(),
                self.wf(),
                click.in_world(),
                match best {
                    Some(t) => self.spec_target_hit(t, click) && self.spec_target_z(t) == best_z,
                    None => true,
                },
                forall|id: ElementId|
                    id.index < i && #[trigger] spec_node_hit(self.graph, id, click)
                        ==> self.spec_target_z(ClickTarget::Node(id)) <= best_z,
                forall|id: ElementId|
                    id.index < i && #[trigger] spec_node_hit(self.graph, id, click)
                        ==> best is Some,
            decreases n_nodes - i,
        {
            let g = self.graph.nodes.cells[i].generation;
            match &self.graph.nodes.cells[i].value {
                Some(node) => {
                    let id = ElementId { index: i, generation: g };
                    proof {
                        assert(self.graph.nodes.contains(id));
                    }
                    let shape = Clickable::Area(node.width, node.height);
                    if shape.clicked(node.position, click) {
                        match best {
                            Some(_) => {
                                if node.z >= best_z {
                                    best = Some(ClickTarget::Node(id));
                                    best_z = node.z;
                                }
                            },
                            None => {
                                best = Some(ClickTarget::Node(id));
                                best_z = node.z;
                            },
                        }
                    }
                },
                None => {},
            }
            proof {
                assert forall|id2: ElementId|
                    id2.index < i + 1 && #[trigger] spec_node_hit(self.graph, id2, click)
                    implies self.spec_target_z(ClickTarget::Node(id2)) <= best_z
                        && best is Some by {
                    if id2.index == i {
                        assert(self.graph.nodes.contains(id2));
                        assert(id2 == (ElementId {
                            index: i,
                            generation: self.graph.nodes.cells@[i as int].generation,
                        }));
                    }
                }
            }
            i += 1;
        }

        let ghost handle = self.node_config.handle_size_io as int;
        proof {
            assert forall|id2: ElementId| #[trigger] spec_node_hit(self.graph, id2, click)
                implies self.spec_target_z(ClickTarget::Node(id2)) <= best_z
                    && best is Some by {
                assert(id2.index < n_nodes);
            }
        }

        let n_inputs = self.graph.inputs.cells.len();
        let mut i: usize = 0;
        while i < n_inputs
            invariant
                i <= n_inputs,
                n_inputs == self.graph.inputs.cells@.len(),
                self.wf(),
                click.in_world(),
                handle == self.node_config.handle_size_io as int,
                match best {
                    Some(t) => self.spec_target_hit(t, click) && self.spec_target_z(t) == best_z,
                    None => true,
                },
                forall|id: ElementId| #[trigger]
                    spec_node_hit(self.graph, id, click) ==> self.spec_target_z(
                        ClickTarget::Node(id),
                    ) <= best_z,
                forall|id: ElementId| #[trigger]
                    spec_node_hit(self.graph, id, click) ==> best is Some,
                forall|iid: ElementId|
                    iid.index < i && #[trigger] spec_input_hit(self.graph, iid, handle, click)
                        ==> self.spec_target_z(ClickTarget::Input(iid)) <= best_z,
                forall|iid: ElementId|
                    iid.index < i && #[trigger] spec_input_hit(self.graph, iid, handle, click)
                        ==> best is Some,
            decreases n_inputs - i,
        {
            let g = self.graph.inputs.cells[i].generation;
            match &self.graph.inputs.cells[i].value {
                Some(slot) => {
                    let iid = ElementId { index: i, generation: g };
                    proof {
                        assert(self.graph.inputs.contains(iid));
                    }
                    match self.graph.nodes.get(slot.parent) {
                        Some(node) => {
                            let anchor = Position {
                                x: node.position.x + slot.offset.x,
                                y: node.position.y + slot.offset.y,
                            };
                            let shape = Clickable::Radius(self.node_config.handle_size_io);
                            if shape.clicked(anchor, click) {
                                let z = node.z + 1;
                                match best {
                                    Some(_) => {
                                        if z >= best_z {
                                            best = Some(ClickTarget::Input(iid));
                                            best_z = z;
                                        }
                                    },
                                    None => {
                                        best = Some(ClickTarget::Input(iid));
                                        best_z = z;
                                    },
                                }
                            }
                        },
                        None => {},
                    }
                },
                None => {},
            }
            proof {
                assert forall|iid2: ElementId|
                    iid2.index < i + 1 && #[trigger] spec_input_hit(self.graph, iid2, handle, click)
                    implies self.spec_target_z(ClickTarget::Input(iid2)) <= best_z
                        && best is Some by {
                    if iid2.index == i {
                        assert(self.graph.inputs.contains(iid2));
                        assert(iid2 == (ElementId {
                            index: i,
                            generation: self.graph.inputs.cells@[i as int].generation,
                        }));
                        assert(self.graph.nodes.contains(self.graph.input_at(iid2).parent));
                    }
                }
            }
            i += 1;
        }
        proof {
            assert forall|iid2: ElementId| #[trigger] spec_input_hit(self.graph, iid2, handle, click)
                implies self.spec_target_z(ClickTarget::Input(iid2)) <= best_z
                    && best is Some by {
                assert(iid2.index < n_inputs);
            }
        }

        let n_outputs = self.graph.outputs.cells.len();
        let mut i: usize = 0;
        while i < n_outputs
            invariant
                i <= n_outputs,
                n_outputs == self.graph.outputs.cells@.len(),
                self.wf(),
                click.in_world(),
                handle == self.node_config.handle_size_io as int,
                match best {
                    Some(t) => self.spec_target_hit(t, click) && self.spec_target_z(t) == best_z,
                    None => true,
                },
                forall|id: ElementId| #[trigger]
                    spec_node_hit(self.graph, id, click) ==> self.spec_target_z(
                        ClickTarget::Node(id),
                    ) <= best_z,
                forall|id: ElementId| #[trigger]
                    spec_node_hit(self.graph, id, click) ==> best is Some,
                forall|iid: ElementId| #[trigger]
                    spec_input_hit(self.graph, iid, handle, click) ==> self.spec_target_z(
                        ClickTarget::Input(iid),
                    ) <= best_z,
                forall|iid: ElementId| #[trigger]
                    spec_input_hit(self.graph, iid, handle, click) ==> best is Some,
                forall|oid: ElementId|
                    oid.index < i && #[trigger] spec_output_hit(self.graph, oid, handle, click)
                        ==> self.spec_target_z(ClickTarget::Output(oid)) <= best_z,
                forall|oid: ElementId|
                    oid.index < i && #[trigger] spec_output_hit(self.graph, oid, handle, click)
                        ==> best is Some,
            decreases n_outputs - i,
        {
            let g = self.graph.outputs.cells[i].generation;
            match &self.graph.outputs.cells[i].value {
                Some(slot) => {
                    let oid = ElementId { index: i, generation: g };
                    proof {
                        assert(self.graph.outputs.contains(oid));
                    }
                    match self.graph.nodes.get(slot.parent) {
                        Some(node) => {
                            let anchor = Position {
                                x: node.position.x + slot.offset.x,
                                y: node.position.y + slot.offset.y,
                            };
                            let shape = Clickable::Radius(self.node_config.handle_size_io);
                            if shape.clicked(anchor, click) {
                                let z = node.z + 2;
                                match best {
                                    Some(_) => {
                                        if z >= best_z {
                                            best = Some(ClickTarget::Output(oid));
                                            best_z = z;
                                        }
                                    },
                                    None => {
                                        best = Some(ClickTarget::Output(oid));
                                        best_z = z;
                                    },
                                }
                            }
                        },
                        None => {},
                    }
                },
                None => {},
            }
            proof {
                assert forall|oid2: ElementId|
                    oid2.index < i + 1 && #[trigger] spec_output_hit(self.graph, oid2, handle, click)
                    implies self.spec_target_z(ClickTarget::Output(oid2)) <= best_z
                        && best is Some by {
                    if oid2.index == i {
                        assert(self.graph.outputs.contains(oid2));
                        assert(oid2 == (ElementId {
                            index: i,
                            generation: self.graph.outputs.cells@[i as int].generation,
                        }));
                        assert(self.graph.nodes.contains(self.graph.output_at(oid2).parent));
                    }
                }
            }
            i += 1;
        }
        proof {
            assert forall|oid2: ElementId| #[trigger] spec_output_hit(self.graph, oid2, handle, click)
                implies self.spec_target_z(ClickTarget::Output(oid2)) <= best_z
                    && best is Some by {
                assert(oid2.index < n_outputs);
            }
            if best is Some {
                assert forall|t2: ClickTarget| self.spec_target_hit(t2, click)
                    implies #[trigger] self.spec_target_z(t2) <= best_z by {
                    match t2 {
                        ClickTarget::Node(id) => {},
                        ClickTarget::Input(iid) => {},
                        ClickTarget::Output(oid) => {},
                    }
                }
            } else {
                assert forall|t2: ClickTarget| !self.spec_target_hit(t2, click) by {
                    match t2 {
                        ClickTarget::Node(id) => {},
                        ClickTarget::Input(iid) => {},
                        ClickTarget::Output(oid) => {},
                    }
                }
            }
        }
        best
    }
}

/// The first output anchor, in arena order, whose disc of radius `r` around
/// its anchor point contains `click`; the tie-break the release scan uses.
pub open spec fn spec_first_output_hit<N: FlowNodeSet>(
    g: FlowGraph<N>,
    click: Position,
    r: int,
    i: int,
) -> Option<ElementId>
    decreases i,
{
    if i <= 0 {
        None
    } else {
        match spec_first_output_hit(g, click, r, i - 1) {
            Some(oid) => Some(oid),
            None => {
                let oid = ElementId {
                    index: (i - 1) as usize,
                    generation: g.outputs.cells@[i - 1].generation,
                };
                if spec_output_hit(g, oid, r, click) {
                    Some(oid)
                } else {
                    None
                }
            },
        }
    }
}

/// The first input anchor within `r` of `click`, in arena order.
pub open spec fn spec_first_input_hit<N: FlowNodeSet>(
    g: FlowGraph<N>,
    click: Position,
    r: int,
    i: int,
) -> Option<ElementId>
    decreases i,
{
    if i <= 0 {
        None
    } else {
        match spec_first_input_hit(g, click, r, i - 1) {
            Some(iid) => Some(iid),
            None => {
                let iid = ElementId {
                    index: (i - 1) as usize,
                    generation: g.inputs.cells@[i - 1].generation,
                };
                if spec_input_hit(g, iid, r, click) {
                    Some(iid)
                } else {
                    None
                }
            },
        }
    }
}

/// Once the scan has found an anchor, scanning further changes nothing.
pub proof fn lemma_first_output_hit_mono<N: FlowNodeSet>(
    g: FlowGraph<N>,
    click: Position,
    r: int,
    j: int,
    k: int,
)
    requires
        0 <= j <= k,
        spec_first_output_hit(g, click, r, j) is Some,
    ensures
        spec_first_output_hit(g, click, r, k) == spec_first_output_hit(g, click, r, j),
    decreases k,
{
    if k > j {
        lemma_first_output_hit_mono(g, click, r, j, k - 1);
    }
}

/// Once the scan has found an anchor, scanning further changes nothing.
pub proof fn lemma_first_input_hit_mono<N: FlowNodeSet>(
    g: FlowGraph<N>,
    click: Position,
    r: int,
    j: int,
    k: int,
)
    requires
        0 <= j <= k,
        spec_first_input_hit(g, click, r, j) is Some,
    ensures
        spec_first_input_hit(g, click, r, k) == spec_first_input_hit(g, click, r, j),
    decreases k,
{
    if k > j {
        lemma_first_input_hit_mono(g, click, r, j, k - 1);
    }
}

/// Whether a release may commit a drag that started at input `iid` onto
/// the output anchor it hit: both slots live, the input still free, and
/// the two slots owned by different nodes.
pub open spec fn spec_commit_from_input<N: FlowNodeSet>(
    g: FlowGraph<N>,
    iid: ElementId,
    hit: Option<ElementId>,
) -> bool {
    match hit {
        Some(oid) => g.valid_input(iid) && g.valid_output(oid) && g.input_at(
            iid,
        ).input.connection is None && g.output_at(oid).parent != g.input_at(iid).parent,
        None => false,
    }
}

/// Whether a release may commit a drag that started at output `oid` onto
/// the input anchor it hit, under the same conditions.
pub open spec fn spec_commit_from_output<N: FlowNodeSet>(
    g: FlowGraph<N>,
    oid: ElementId,
    hit: Option<ElementId>,
) -> bool {
    match hit {
        Some(tid) => g.valid_output(oid) && g.valid_input(tid) && g.input_at(
            tid,
        ).input.connection is None && g.output_at(oid).parent != g.input_at(tid).parent,
        None => false,
    }
}

impl<N: FlowNodeSet> FlowNodeEditor<N> {
    /// The output anchor a release at `click` lands on, if any.
    fn find_output_anchor(&self, click: Position) -> (r: Option<ElementId>)
        requires
            self.wf(),
            click.in_world(),
        ensures
            r == spec_first_output_hit(
                self.graph,
                click,
                self.connection_config.connection_threshold as int,
                self.graph.outputs.cells@.len() as int,
            ),
    {
        let threshold = self.connection_config.connection_threshold;
        let n = self.graph.outputs.cells.len();
        let mut i: usize = 0;
        while i < n
            invariant
                i <= n,
                n == self.graph.outputs.cells@.len(),
                self.wf(),
                click.in_world(),
                threshold == self.connection_config.connection_threshold,
                spec_first_output_hit(self.graph, click, threshold as int, i as int) is None,
            decreases n - i,
        {
            let g = self.graph.outputs.cells[i].generation;
            match &self.graph.outputs.cells[i].value {
                Some(slot) => {
                    let oid = ElementId { index: i, generation: g };
                    proof {
                        assert(self.graph.outputs.contains(oid));
                    }
                    match self.graph.nodes.get(slot.parent) {
                        Some(node) => {
                            let anchor = Position {
                                x: node.position.x + slot.offset.x,
                                y: node.position.y + slot.offset.y,
                            };
                            let shape = Clickable::Radius(threshold);
                            if shape.clicked(anchor, click) {
                                proof {
                                    lemma_first_output_hit_mono(
                                        self.graph,
                                        click,
                                        threshold as int,
                                        i + 1,
                                        n as int,
                                    );
                                }
                                return Some(oid);
                            }
                        },
                        None => {},
                    }
                },
                None => {},
            }
            i += 1;
        }
        None
    }

    /// The input anchor a release at `click` lands on, if any.
    fn find_input_anchor(&self, click: Position) -> (r: Option<ElementId>)
        requires
            self.wf(),
            click.in_world(),
        ensures
            r == spec_first_input_hit(
                self.graph,
                click,
                self.connection_config.connection_threshold as int,
                self.graph.inputs.cells@.len() as int,
            ),
    {
        let threshold = self.connection_config.connection_threshold;
        let n = self.graph.inputs.cells.len();
        let mut i: usize = 0;
        while i < n
            invariant
                i <= n,
                n == self.graph.inputs.cells@.len(),
                self.wf(),
                click.in_world(),
                threshold == self.connection_config.connection_threshold,
                spec_first_input_hit(self.graph, click, threshold as int, i as int) is None,
            decreases n - i,
        {
            let g = self.graph.inputs.cells[i].generation;
            match &self.graph.inputs.cells[i].value {
                Some(slot) => {
                    let iid = ElementId { index: i, generation: g };
                    proof {
                        assert(self.graph.inputs.contains(iid));
                    }
                    match self.graph.nodes.get(slot.parent) {
                        Some(node) => {
                            let anchor = Position {
                                x: node.position.x + slot.offset.x,
                                y: node.position.y + slot.offset.y,
                            };
                            let shape = Clickable::Radius(threshold);
                            if shape.clicked(anchor, click) {
                                proof {
                                    lemma_first_input_hit_mono(
                                        self.graph,
                                        click,
                                        threshold as int,
                                        i + 1,
                                        n as int,
                                    );
                                }
                                return Some(iid);
                            }
                        },
                        None => {},
                    }
                },
                None => {},
            }
            i += 1;
        }
        None
    }

    /// A release while a connection is pending: hit-test the anchors of the
    /// opposite slot kind and either commit the pending connection as an
    /// edge (`Created`) or discard it. A commit is refused when the hit
    /// anchor's node is the fixed endpoint's own node, when the input end
    /// already holds an edge, or when either endpoint has gone stale; the
    /// pending connection is consumed either way.
    pub fn complete_partial_connection(&mut self, release: Position) -> (ev: Option<
        ConnectionEvent,
    >)
        requires
            old(self).wf(),
            release.in_world(),
        ensures
            final(self).wf(),
            final(self).active == old(self).active,
            final(self).next_z == old(self).next_z,
            final(self).node_config == old(self).node_config,
            final(self).connection_config == old(self).connection_config,
            final(self).graph.nodes == old(self).graph.nodes,
            final(self).graph.outputs == old(self).graph.outputs,
            forall|iid2: ElementId| #[trigger]
                final(self).graph.valid_input(iid2) == old(self).graph.valid_input(iid2),
            old(self).partial is None ==> *final(self) == *old(self) && ev is None,
            old(self).partial is Some ==> final(self).partial is None,
            (old(self).partial matches Some(PartialConnection::FromInput(iid)) ==> ({
                let hit = spec_first_output_hit(
                    old(self).graph,
                    release,
                    old(self).connection_config.connection_threshold as int,
                    old(self).graph.outputs.cells@.len() as int,
                );
                if spec_commit_from_input(old(self).graph, iid, hit) {
                    &&& ev == Some(ConnectionEvent::Created)
                    &&& final(self).graph.input_at(iid) == with_connection(
                        old(self).graph.input_at(iid),
                        Some(hit->Some_0),
                    )
                    &&& forall|iid2: ElementId|
                        iid2 != iid && old(self).graph.valid_input(iid2) ==> #[trigger] final(self).graph.input_at(iid2) == old(self).graph.input_at(iid2)
                } else {
                    ev is None && final(self).graph == old(self).graph
                }
            })),
            (old(self).partial matches Some(PartialConnection::FromOutput(oid)) ==> ({
                let hit = spec_first_input_hit(
                    old(self).graph,
                    release,
                    old(self).connection_config.connection_threshold as int,
                    old(self).graph.inputs.cells@.len() as int,
                );
                if spec_commit_from_output(old(self).graph, oid, hit) {
                    &&& ev == Some(ConnectionEvent::Created)
                    &&& final(self).graph.input_at(hit->Some_0) == with_connection(
                        old(self).graph.input_at(hit->Some_0),
                        Some(oid),
                    )
                    &&& forall|iid2: ElementId|
                        iid2 != hit->Some_0 && old(self).graph.valid_input(iid2)
                            ==> #[trigger] final(self).graph.input_at(iid2) == old(self).graph.input_at(iid2)
                } else {
                    ev is None && final(self).graph == old(self).graph
                }
            })),
    {
        let partial = self.partial;
        self.partial = None;
        match partial {
            None => None,
            Some(PartialConnection::FromInput(iid)) => {
                match self.find_output_anchor(release) {
                    Some(oid) => {
                        let mut ok = false;
                        match self.graph.inputs.get(iid) {
                            Some(slot) => {
                                if slot.input.connection.is_none() {
                                    match self.graph.outputs.get(oid) {
                                        Some(out) => {
                                            if out.parent != slot.parent {
                                                ok = true;
                                            }
                                        },
                                        None => {},
                                    }
                                }
                            },
                            None => {},
                        }
                        if ok {
                            self.graph.set_connection(iid, Some(oid));
                            Some(ConnectionEvent::Created)
                        } else {
                            None
                        }
                    },
                    None => None,
                }
            },
            Some(PartialConnection::FromOutput(oid)) => {
                match self.find_input_anchor(release) {
                    Some(tid) => {
                        let mut ok = false;
                        match self.graph.inputs.get(tid) {
                            Some(slot) => {
                                if slot.input.connection.is_none() {
                                    match self.graph.outputs.get(oid) {
                                        Some(out) => {
                                            if out.parent != slot.parent {
                                                ok = true;
                                            }
                                        },
                                        None => {},
                                    }
                                }
                            },
                            None => {},
                        }
                        if ok {
                            self.graph.set_connection(tid, Some(oid));
                            Some(ConnectionEvent::Created)
                        } else {
                            None
                        }
                    },
                    None => None,
                }
            },
        }
    }
}

/// The fuel one re-evaluation pass runs with: one more than the number of
/// node cells, enough for any acyclic pull to finish.
pub open spec fn spec_resolve_fuel<N: FlowNodeSet>(g: FlowGraph<N>) -> nat {
    if g.nodes.cells@.len() < u64::MAX {
        g.nodes.cells@.len() + 1
    } else {
        g.nodes.cells@.len()
    }
}

impl<N: FlowNodeSet> FlowNodeEditor<N> {
    /// Delete the active node: sever every edge into it, remove it and its
    /// slots, clear the focus, and raise both the structural event (the
    /// severed wiring) and the result event (the node is gone). Every input
    /// slot that lost its edge reverts to its default at the next
    /// resolution.
    pub fn delete_node(&mut self) -> (r: (Option<ConnectionEvent>, Option<FlowNodeEvent<N>>))
        requires
            old(self).wf(),
        ensures
            final(self).wf(),
            final(self).partial == old(self).partial,
            final(self).next_z == old(self).next_z,
            final(self).node_config == old(self).node_config,
            final(self).connection_config == old(self).connection_config,
            match old(self).active {
                Some(id) => if old(self).graph.valid_node(id) {
                    &&& final(self).active is None
                    &&& r.0 == Some(ConnectionEvent::Destroyed)
                    &&& r.1 matches Some(FlowNodeEvent::Destroyed(did)) && did == id
                    &&& !final(self).graph.valid_node(id)
                    &&& forall|id2: ElementId|
                        id2 != id ==> #[trigger] final(self).graph.valid_node(id2) == old(self).graph.valid_node(id2)
                    &&& forall|id2: ElementId|
                        id2 != id && old(self).graph.valid_node(id2) ==> #[trigger] final(self).graph.node_at(id2) == old(self).graph.node_at(id2)
                    &&& forall|oid: ElementId| #[trigger]
                        final(self).graph.valid_output(oid) <==> old(self).graph.valid_output(oid)
                            && old(self).graph.output_at(oid).parent != id
                    &&& forall|oid: ElementId| #[trigger]
                        final(self).graph.valid_output(oid) ==> final(self).graph.output_at(oid)
                            == old(self).graph.output_at(oid)
                    &&& forall|iid: ElementId| #[trigger]
                        final(self).graph.valid_input(iid) <==> old(self).graph.valid_input(iid)
                            && old(self).graph.input_at(iid).parent != id
                    &&& forall|iid: ElementId| #[trigger]
                        final(self).graph.valid_input(iid) ==> final(self).graph.input_at(iid) == (
                        if severed_by(old(self).graph, old(self).graph.input_at(iid), id) {
                            with_connection(old(self).graph.input_at(iid), None)
                        } else {
                            old(self).graph.input_at(iid)
                        })
                    &&& forall|iid: ElementId, fuel: nat|
                        final(self).graph.valid_input(iid) && severed_by(
                            old(self).graph,
                            old(self).graph.input_at(iid),
                            id,
                        ) ==> #[trigger] final(self).graph.spec_input_value(
                            final(self).graph.input_at(iid).input,
                            fuel,
                        ) == Some(old(self).graph.input_at(iid).input.default)
                } else {
                    *final(self) == *old(self) && r == (
                        None::<ConnectionEvent>,
                        None::<FlowNodeEvent<N>>,
                    )
                },
                None => *final(self) == *old(self) && r == (
                    None::<ConnectionEvent>,
                    None::<FlowNodeEvent<N>>,
                ),
            },
    {
        match self.active {
            Some(id) => {
                if self.graph.nodes.get(id).is_some() {
                    self.graph.delete_node(id);
                    self.active = None;
                    proof {
                        assert forall|iid: ElementId, fuel: nat|
                            self.graph.valid_input(iid) && severed_by(
                                old(self).graph,
                                old(self).graph.input_at(iid),
                                id,
                            ) implies #[trigger] self.graph.spec_input_value(
                            self.graph.input_at(iid).input,
                            fuel,
                        ) == Some(old(self).graph.input_at(iid).input.default) by {
                            crate::eval::lemma_unconnected_input_is_default(
                                self.graph,
                                self.graph.input_at(iid).input,
                                fuel,
                            );
                        }
                    }
                    (Some(ConnectionEvent::Destroyed), Some(FlowNodeEvent::Destroyed(id)))
                } else {
                    (None, None)
                }
            },
            None => (None, None),
        }
    }

    /// Re-evaluate every sink node of the current graph, as the engine does
    /// after each structural event, and hand back the result events.
    pub fn resolve_output_nodes(&self) -> (events: Vec<FlowNodeEvent<N>>)
        ensures
            events@ == self.graph.spec_sink_events(
                self.graph.nodes.cells@.len() as int,
                spec_resolve_fuel(self.graph),
            ),
    {
        let n = self.graph.nodes.cells.len() as u64;
        let fuel: u64 = if n < u64::MAX {
            n + 1
        } else {
            n
        };
        self.graph.resolve_output_nodes(fuel)
    }
}

} // verus!
