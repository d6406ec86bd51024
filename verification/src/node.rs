//! Nodes and their slots. A node holds a user-supplied node-kind value (the
//! computation it stands for) plus its box in world space; input and output
//! slots belong to a node and are the anchors edges attach to.

use vstd::prelude::*;

use crate::arena::ElementId;
use crate::interactions::{Position, OFFSET_LIMIT, POS_LIMIT, Z_LIMIT};
use crate::template::FlowNodeTemplate;
use crate::values::{view_opt_str, InputValues};

verus! {

/// The closed set of node kinds an application defines. One value of the
/// implementing type is the behaviour and state of one node.
///
/// `resolve` must be a pure function of the named inputs and the requested
/// output label; `resolve_spec` is that function, stated at the
/// specification level, and every implementation proves its executable
/// `resolve` against it. That is what makes graph evaluation deterministic.
pub trait FlowNodeSet: Sized {
    /// The value type flowing along edges.
    type NodeIO;

    /// What `resolve` returns for given named inputs and requested output.
    spec fn resolve_spec(
        &self,
        inputs: Seq<(Seq<char>, Self::NodeIO)>,
        output: Option<Seq<char>>,
    ) -> Self::NodeIO;

    /// Compute this node's value from its resolved inputs. `output` names
    /// which of the node's outputs is being pulled, when the puller knows.
    fn resolve(&self, inputs: &InputValues<Self::NodeIO>, output: Option<&str>) -> (r:
        Self::NodeIO)
        ensures
            r == self.resolve_spec(inputs@, view_opt_str(output)),
    ;

    /// What the returned template looks like: its title, slot labels and
    /// defaults, and whether it declares a sink. Implementations define
    /// this predicate, and `template` is proved against it, so callers
    /// know a node kind's declared shape without reading any body.
    spec fn template_spec(self, t: FlowNodeTemplate<Self, Self::NodeIO>) -> bool;

    /// The shape a node of this kind is instantiated with.
    fn template(self) -> (t: FlowNodeTemplate<Self, Self::NodeIO>)
        ensures
            self.template_spec(t),
    ;

    /// Produce a value equal to the given one; needed because slot defaults
    /// are stored once and handed out at every resolution.
    fn clone_io(value: &Self::NodeIO) -> (r: Self::NodeIO)
        ensures
            r == *value,
    ;
}

/// An instantiated node: its kind value and its box in world space.
/// `output_node` marks a sink, a node whose template declared no output
/// slots; sinks are the roots evaluation is driven from.
pub struct FlowNode<N> {
    pub node: N,
    pub title: String,
    pub position: Position,
    pub width: i64,
    pub height: i64,
    pub z: i64,
    pub output_node: bool,
}

impl<N> FlowNode<N> {
    /// Bounds every stored node obeys, so that hit tests cannot overflow.
    pub open spec fn wf(self) -> bool {
        &&& -POS_LIMIT <= self.position.x <= POS_LIMIT
        &&& -POS_LIMIT <= self.position.y <= POS_LIMIT
        &&& 0 <= self.width <= OFFSET_LIMIT
        &&& 0 <= self.height <= OFFSET_LIMIT
        &&& -Z_LIMIT <= self.z <= Z_LIMIT
    }
}

/// An input slot as a template declares it: a label, an optional edge to an
/// output slot, and the default value used whenever no edge contributes.
pub struct FlowNodeInput<V> {
    pub label: String,
    pub connection: Option<ElementId>,
    pub default: V,
}

impl<V> FlowNodeInput<V> {
    /// A fresh, unconnected input slot.
    pub fn from_label(label: &str, default: V) -> (r: FlowNodeInput<V>)
        ensures
            r.label@ == label@,
            r.connection is None,
            r.default == default,
    {
        FlowNodeInput { label: label.to_owned(), connection: None, default }
    }
}

/// An output slot as a template declares it: just a label. An output has no
/// default; its value only ever comes from evaluating its owning node.
pub struct FlowNodeOutput {
    pub label: String,
}

impl FlowNodeOutput {
    pub fn from_label(label: &str) -> (r: FlowNodeOutput)
        ensures
            r.label@ == label@,
    {
        FlowNodeOutput { label: label.to_owned() }
    }
}

/// An input slot as stored in the graph: the declared slot plus the node it
/// belongs to and its anchor's offset from that node's centre.
pub struct InputSlot<V> {
    pub parent: ElementId,
    pub offset: Position,
    pub input: FlowNodeInput<V>,
}

impl<V> InputSlot<V> {
    pub open spec fn wf(self) -> bool {
        &&& -OFFSET_LIMIT <= self.offset.x <= OFFSET_LIMIT
        &&& -OFFSET_LIMIT <= self.offset.y <= OFFSET_LIMIT
    }
}

/// An output slot as stored in the graph.
pub struct OutputSlot {
    pub parent: ElementId,
    pub offset: Position,
    pub output: FlowNodeOutput,
}

impl OutputSlot {
    pub open spec fn wf(self) -> bool {
        &&& -OFFSET_LIMIT <= self.offset.x <= OFFSET_LIMIT
        &&& -OFFSET_LIMIT <= self.offset.y <= OFFSET_LIMIT
    }
}

/// A result event for the presentation layer: a sink node was resolved to a
/// fresh value, or a node was deleted outright.
pub enum FlowNodeEvent<N: FlowNodeSet> {
    Destroyed(ElementId),
    Resolved(ElementId, N::NodeIO),
}

/// The measurements node boxes are laid out with, in world units.
pub struct FlowNodeConfig {
    pub border_thickness: i64,
    pub handle_size_io: i64,
    pub padding: i64,
    pub font_size_body: i64,
    pub font_size_title: i64,
}

impl FlowNodeConfig {
    /// Bounds every configuration must stay inside.
    pub open spec fn wf(self) -> bool {
        &&& 0 <= self.border_thickness <= 10_000
        &&& 0 <= self.handle_size_io <= 10_000
        &&& 0 <= self.padding <= 10_000
        &&& 0 <= self.font_size_body <= 10_000
        &&& 0 <= self.font_size_title <= 10_000
    }
}

impl Default for FlowNodeConfig {
    /// The stock measurements.
    fn default() -> (c: FlowNodeConfig)
        ensures
            c == (FlowNodeConfig {
                border_thickness: 2i64,
                handle_size_io: 6i64,
                padding: 5i64,
                font_size_body: 16i64,
                font_size_title: 20i64,
            }),
            c.wf(),
    {
        FlowNodeConfig {
            border_thickness: 2,
            handle_size_io: 6,
            padding: 5,
            font_size_body: 16,
            font_size_title: 20,
        }
    }
}

} // verus!
