//! Templates: the record a node is instantiated from, and the layout that
//! places a new node's slot anchors around its centre.

use vstd::prelude::*;

use crate::interactions::{Position, OFFSET_LIMIT, POS_LIMIT};
use crate::node::{FlowNodeConfig, FlowNodeInput, FlowNodeOutput};

verus! {

/// The product of two values is bounded by the product of their bounds.
pub proof fn lemma_mul_bound(a: int, b: int, am: int, bm: int)
    requires
        0 <= a <= am,
        0 <= b <= bm,
    ensures
        0 <= a * b <= am * bm,
{
    assert(0 <= a * b <= am * bm) by (nonlinear_arith)
        requires
            0 <= a <= am && 0 <= b <= bm,
    ;
}

/// The optional embedded-widget area a template reserves at the bottom of
/// the node box. Its height joins the layout; what is drawn inside it is
/// the host's business.
#[derive(Clone, Copy, PartialEq, Eq, Structural, Debug)]
pub struct FlowNodeSlot {
    pub height: i64,
    pub width: i64,
}

impl FlowNodeSlot {
    /// A widget area of the given height; the width is the node's interior
    /// width, known only once the node is laid out.
    pub fn new(height: i64) -> (s: FlowNodeSlot)
        ensures
            s.height == height,
            s.width == 0,
    {
        FlowNodeSlot { height, width: 0 }
    }
}

/// Everything needed to instantiate one node: a display title, the node-kind
/// value, a position and width, the declared input and output slots, and an
/// optional embedded-widget area. A template that declares zero output
/// slots produces a sink node.
pub struct FlowNodeTemplate<N, V> {
    pub title: String,
    pub node: N,
    pub position: Position,
    pub width: i64,
    pub inputs: Option<Vec<FlowNodeInput<V>>>,
    pub outputs: Option<Vec<FlowNodeOutput>>,
    pub slot: Option<FlowNodeSlot>,
}

impl<N, V> FlowNodeTemplate<N, V> {
    /// How many input slots the template declares.
    pub open spec fn spec_num_inputs(self) -> int {
        match self.inputs {
            Some(v) => v@.len() as int,
            None => 0,
        }
    }

    /// How many output slots the template declares.
    pub open spec fn spec_num_outputs(self) -> int {
        match self.outputs {
            Some(v) => v@.len() as int,
            None => 0,
        }
    }

    /// Whether instantiating this template produces a sink node: a sink is
    /// a node whose template declared zero output slots, whether the output
    /// list is absent or present but empty.
    pub open spec fn spec_is_sink(self) -> bool {
        self.spec_num_outputs() == 0
    }

    /// The height the instantiated node box will have.
    pub open spec fn spec_height(self, c: FlowNodeConfig) -> int {
        spec_node_height(c, self.spec_num_inputs(), self.spec_num_outputs(), self.slot)
    }

    /// Bounds a template must obey before it can be instantiated: the node
    /// must fit in the world and the layout arithmetic must stay small.
    pub open spec fn wf(self) -> bool {
        &&& -POS_LIMIT <= self.position.x <= POS_LIMIT
        &&& -POS_LIMIT <= self.position.y <= POS_LIMIT
        &&& 0 <= self.width <= 1_000_000
        &&& self.spec_num_inputs() <= 256
        &&& self.spec_num_outputs() <= 256
        &&& match self.slot {
            Some(s) => 0 <= s.height <= 100_000,
            None => true,
        }
    }
}

/// Height of one slot row.
pub open spec fn spec_row_height(c: FlowNodeConfig) -> int {
    c.font_size_body + 2 * c.padding
}

/// Height of the title band.
pub open spec fn spec_title_height(c: FlowNodeConfig) -> int {
    c.font_size_title + 2 * c.padding
}

/// Height the embedded-widget area adds to the node box.
pub open spec fn spec_slot_height(c: FlowNodeConfig, slot: Option<FlowNodeSlot>) -> int {
    match slot {
        Some(s) => s.height + 2 * c.padding,
        None => 0,
    }
}

/// Total height of a node box with the given slot counts and widget area.
pub open spec fn spec_node_height(
    c: FlowNodeConfig,
    n_in: int,
    n_out: int,
    slot: Option<FlowNodeSlot>,
) -> int {
    spec_row_height(c) * (n_in + n_out) + spec_slot_height(c, slot) + spec_title_height(c) + 2
}

/// Horizontal offset of every output anchor: the right edge.
pub open spec fn spec_output_offset_x(width: int) -> int {
    width / 2
}

/// Vertical offset of the anchor in row `k`, counted from the top row;
/// outputs fill the first rows, inputs the following ones.
pub open spec fn spec_row_offset_y(c: FlowNodeConfig, height: int, k: int) -> int {
    height / 2 - c.padding - spec_title_height(c) - k * spec_row_height(c) - c.handle_size_io
        - c.padding
}

/// Horizontal offset of every input anchor: just left of the left edge.
pub open spec fn spec_input_offset_x(c: FlowNodeConfig, width: int) -> int {
    -(width / 2) + c.padding - c.handle_size_io
}

/// Height of one slot row, executable form.
pub fn row_height(c: &FlowNodeConfig) -> (h: i64)
    requires
        c.wf(),
    ensures
        h == spec_row_height(*c),
        0 <= h <= 30_000,
{
    c.font_size_body + 2 * c.padding
}

/// Height of the title band, executable form.
pub fn title_height(c: &FlowNodeConfig) -> (h: i64)
    requires
        c.wf(),
    ensures
        h == spec_title_height(*c),
        0 <= h <= 30_000,
{
    c.font_size_title + 2 * c.padding
}

/// Total height of a node box, executable form.
pub fn node_height(c: &FlowNodeConfig, n_in: usize, n_out: usize, slot: &Option<FlowNodeSlot>) -> (h:
    i64)
    requires
        c.wf(),
        n_in <= 256,
        n_out <= 256,
        match slot {
            Some(s) => 0 <= s.height <= 100_000,
            None => true,
        },
    ensures
        h == spec_node_height(*c, n_in as int, n_out as int, *slot),
        0 <= h <= OFFSET_LIMIT,
{
    let rows: i64 = (n_in + n_out) as i64;
    let slot_height: i64 = match slot {
        Some(s) => s.height + 2 * c.padding,
        None => 0,
    };
    proof {
        lemma_mul_bound(spec_row_height(*c), rows as int, 30_000, 512);
    }
    row_height(c) * rows + slot_height + title_height(c) + 2
}

/// Anchor offset for output row `k`.
pub fn output_offset(c: &FlowNodeConfig, width: i64, height: i64, k: usize) -> (p: Position)
    requires
        c.wf(),
        0 <= width <= 1_000_000,
        0 <= height <= OFFSET_LIMIT,
        k <= 512,
    ensures
        p.x == spec_output_offset_x(width as int),
        p.y == spec_row_offset_y(*c, height as int, k as int),
        -OFFSET_LIMIT <= p.x <= OFFSET_LIMIT,
        -OFFSET_LIMIT <= p.y <= OFFSET_LIMIT,
{
    proof {
        lemma_mul_bound(k as int, spec_row_height(*c), 512, 30_000);
    }
    let y = height / 2 - c.padding - title_height(c) - (k as i64) * row_height(c)
        - c.handle_size_io - c.padding;
    Position { x: width / 2, y }
}

/// Anchor offset for input row `k` (rows continue below the output rows).
pub fn input_offset(c: &FlowNodeConfig, width: i64, height: i64, k: usize) -> (p: Position)
    requires
        c.wf(),
        0 <= width <= 1_000_000,
        0 <= height <= OFFSET_LIMIT,
        k <= 512,
    ensures
        p.x == spec_input_offset_x(*c, width as int),
        p.y == spec_row_offset_y(*c, height as int, k as int),
        -OFFSET_LIMIT <= p.x <= OFFSET_LIMIT,
        -OFFSET_LIMIT <= p.y <= OFFSET_LIMIT,
{
    proof {
        lemma_mul_bound(k as int, spec_row_height(*c), 512, 30_000);
    }
    let y = height / 2 - c.padding - title_height(c) - (k as i64) * row_height(c)
        - c.handle_size_io - c.padding;
    Position { x: -(width / 2) + c.padding - c.handle_size_io, y }
}

} // verus!
