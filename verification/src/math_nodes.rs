//! A small arithmetic node set: integer literals, an adder, and a printing
//! sink. It is the working example of the node-kind contract — each node
//! kind's executable `resolve` is proved against its specification — and
//! the node set the crate's own tests wire up.

use vstd::prelude::*;

use crate::interactions::Position;
use crate::node::{FlowNodeInput, FlowNodeOutput, FlowNodeSet};
use crate::template::FlowNodeTemplate;
use crate::values::{lookup_or, InputValues};

verus! {

/// Integer addition clamped to the representable range.
pub open spec fn spec_saturating_add(a: int, b: int) -> i64 {
    if a + b > i64::MAX {
        i64::MAX
    } else if a + b < i64::MIN {
        i64::MIN
    } else {
        (a + b) as i64
    }
}

/// Add two values, clamping at the ends of the range instead of wrapping.
pub fn add_clamped(a: i64, b: i64) -> (r: i64)
    ensures
        r == spec_saturating_add(a as int, b as int),
{
    if a > 0 && b > 0 {
        if a > i64::MAX - b {
            i64::MAX
        } else {
            a + b
        }
    } else if a < 0 && b < 0 {
        if a < i64::MIN - b {
            i64::MIN
        } else {
            a + b
        }
    } else {
        a + b
    }
}

/// The closed arithmetic node-kind set: a constant, an adder over inputs
/// `a` and `b`, and a `Print` sink that relays its `value` input.
#[derive(Clone, Copy, PartialEq, Eq, Structural, Debug)]
pub enum MathNodes {
    Add,
    Print,
    Value(i64),
}

impl FlowNodeSet for MathNodes {
    type NodeIO = i64;

    open spec fn resolve_spec(&self, inputs: Seq<(Seq<char>, i64)>, output: Option<Seq<char>>) -> i64 {
        match *self {
            MathNodes::Add => spec_saturating_add(
                lookup_or(inputs, "a"@, 0) as int,
                lookup_or(inputs, "b"@, 0) as int,
            ),
            MathNodes::Print => lookup_or(inputs, "value"@, 0),
            MathNodes::Value(x) => x,
        }
    }

    fn resolve(&self, inputs: &InputValues<i64>, output: Option<&str>) -> i64 {
        match self {
            MathNodes::Add => {
                let a = inputs.get_or("a", 0);
                let b = inputs.get_or("b", 0);
                add_clamped(a, b)
            },
            MathNodes::Print => inputs.get_or("value", 0),
            MathNodes::Value(x) => *x,
        }
    }

    open spec fn template_spec(self, t: FlowNodeTemplate<MathNodes, i64>) -> bool {
        &&& t.node == self
        &&& t.position == (Position { x: 0, y: 0 })
        &&& t.width == 200
        &&& t.slot is None
        &&& t.wf()
        &&& match self {
            MathNodes::Add => {
                &&& t.title@ == "Add"@
                &&& t.inputs matches Some(ins) && ins@.len() == 2 && ins@[0].label@ == "a"@
                    && ins@[0].connection is None && ins@[0].default == 0 && ins@[1].label@
                    == "b"@ && ins@[1].connection is None && ins@[1].default == 0
                &&& t.outputs matches Some(outs) && outs@.len() == 1 && outs@[0].label@
                    == "result"@
            },
            MathNodes::Print => {
                &&& t.title@ == "Print"@
                &&& t.inputs matches Some(ins) && ins@.len() == 1 && ins@[0].label@ == "value"@
                    && ins@[0].connection is None && ins@[0].default == 0
                &&& t.outputs is None
            },
            MathNodes::Value(_) => {
                &&& t.title@ == "Value"@
                &&& t.inputs is None
                &&& t.outputs matches Some(outs) && outs@.len() == 1 && outs@[0].label@
                    == "value"@
            },
        }
    }

    fn template(self) -> FlowNodeTemplate<MathNodes, i64> {
        match self {
            MathNodes::Add => FlowNodeTemplate {
                title: "Add".to_owned(),
                node: self,
                position: Position { x: 0, y: 0 },
                width: 200,
                inputs: Some(
                    vec![FlowNodeInput::from_label("a", 0), FlowNodeInput::from_label("b", 0)],
                ),
                outputs: Some(vec![FlowNodeOutput::from_label("result")]),
                slot: None,
            },
            MathNodes::Print => FlowNodeTemplate {
                title: "Print".to_owned(),
                node: self,
                position: Position { x: 0, y: 0 },
                width: 200,
                inputs: Some(vec![FlowNodeInput::from_label("value", 0)]),
                outputs: None,
                slot: None,
            },
            MathNodes::Value(_) => FlowNodeTemplate {
                title: "Value".to_owned(),
                node: self,
                position: Position { x: 0, y: 0 },
                width: 200,
                inputs: None,
                outputs: Some(vec![FlowNodeOutput::from_label("value")]),
                slot: None,
            },
        }
    }

    fn clone_io(value: &i64) -> i64 {
        *value
    }
}

} // verus!
