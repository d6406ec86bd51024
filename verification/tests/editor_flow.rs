//! End-to-end tests of the editor: wiring by gestures, breaking edges,
//! deleting nodes, and the values the evaluation engine emits.

use flow_nodes::arena::ElementId;
use flow_nodes::connection::{ClickTarget, ConnectionConfig, ConnectionEvent, FlowNodeEditor};
use flow_nodes::interactions::Position;
use flow_nodes::math_nodes::MathNodes;
use flow_nodes::node::{FlowNodeConfig, FlowNodeEvent, FlowNodeSet};

fn editor() -> FlowNodeEditor<MathNodes> {
    FlowNodeEditor::new(FlowNodeConfig::default(), ConnectionConfig::default())
}

fn build_at(e: &mut FlowNodeEditor<MathNodes>, kind: MathNodes, x: i64, y: i64) -> (
    ElementId,
    Vec<ElementId>,
    Vec<ElementId>,
) {
    let mut t = kind.template();
    t.position = Position { x, y };
    e.build_node(t)
}

/// One press, in the order the editor processes a frame: hit test, focus,
/// begin a drag on a free anchor, break an existing edge.
fn press(e: &mut FlowNodeEditor<MathNodes>, p: Position) -> Option<ConnectionEvent> {
    let clicked = e.handle_click(p);
    e.activate_node(clicked);
    e.create_partial_connection(clicked);
    e.break_connection(clicked)
}

fn release(e: &mut FlowNodeEditor<MathNodes>, p: Position) -> Option<ConnectionEvent> {
    e.complete_partial_connection(p)
}

/// Wire an output slot to an input slot through the state machine itself.
fn connect(e: &mut FlowNodeEditor<MathNodes>, oid: ElementId, iid: ElementId) {
    e.create_partial_connection(Some(ClickTarget::Output(oid)));
    let at = e.graph.input_anchor(iid);
    let ev = release(e, at);
    assert!(matches!(ev, Some(ConnectionEvent::Created)));
}

fn sink_value(e: &FlowNodeEditor<MathNodes>, sink: ElementId) -> Option<i64> {
    let events = e.resolve_output_nodes();
    for ev in events {
        if let FlowNodeEvent::Resolved(id, v) = ev {
            if id == sink {
                return Some(v);
            }
        }
    }
    None
}

#[test]
fn unconnected_input_resolves_to_default() {
    let mut e = editor();
    let (print, _, _) = build_at(&mut e, MathNodes::Print, 0, 0);
    // Graph contents elsewhere make no difference to an unconnected input.
    build_at(&mut e, MathNodes::Value(42), -400, 0);
    assert_eq!(sink_value(&e, print), Some(0));
}

#[test]
fn committed_connection_stores_the_output_id() {
    let mut e = editor();
    let (_, _, v_outs) = build_at(&mut e, MathNodes::Value(5), -400, 0);
    let (_, p_ins, _) = build_at(&mut e, MathNodes::Print, 400, 0);
    connect(&mut e, v_outs[0], p_ins[0]);
    let slot = e.graph.inputs.get(p_ins[0]).unwrap();
    assert_eq!(slot.input.connection, Some(v_outs[0]));
}

#[test]
fn second_edge_on_connected_input_needs_a_break_first() {
    let mut e = editor();
    let (_, _, v1_outs) = build_at(&mut e, MathNodes::Value(5), -400, 0);
    let (_, _, v2_outs) = build_at(&mut e, MathNodes::Value(7), -400, -300);
    let (print, p_ins, _) = build_at(&mut e, MathNodes::Print, 400, 0);
    connect(&mut e, v1_outs[0], p_ins[0]);
    // A drag from the second output released over the connected input is
    // discarded: the stored edge stays what it was.
    e.create_partial_connection(Some(ClickTarget::Output(v2_outs[0])));
    let at = e.graph.input_anchor(p_ins[0]);
    let ev = release(&mut e, at);
    assert!(ev.is_none());
    let slot = e.graph.inputs.get(p_ins[0]).unwrap();
    assert_eq!(slot.input.connection, Some(v1_outs[0]));
    assert_eq!(sink_value(&e, print), Some(5));
}

#[test]
fn breaking_restores_the_default() {
    let mut e = editor();
    let (_, _, v_outs) = build_at(&mut e, MathNodes::Value(9), -400, 0);
    let (print, p_ins, _) = build_at(&mut e, MathNodes::Print, 400, 0);
    connect(&mut e, v_outs[0], p_ins[0]);
    assert_eq!(sink_value(&e, print), Some(9));
    // Press on the connected input anchor: the edge breaks and the freed
    // output end re-opens as a pending connection.
    let at = e.graph.input_anchor(p_ins[0]);
    let ev = press(&mut e, at);
    assert!(matches!(ev, Some(ConnectionEvent::Destroyed)));
    let slot = e.graph.inputs.get(p_ins[0]).unwrap();
    assert!(slot.input.connection.is_none());
    assert!(e.partial.is_some());
    assert_eq!(sink_value(&e, print), Some(0));
}

#[test]
fn deleting_a_node_reverts_every_downstream_input() {
    let mut e = editor();
    let (value, _, v_outs) = build_at(&mut e, MathNodes::Value(3), -400, 0);
    let (_, a_ins, _) = build_at(&mut e, MathNodes::Add, 0, 0);
    let (print, p_ins, _) = build_at(&mut e, MathNodes::Print, 400, 0);
    // Fan the one output out to three inputs downstream.
    connect(&mut e, v_outs[0], a_ins[0]);
    connect(&mut e, v_outs[0], a_ins[1]);
    connect(&mut e, v_outs[0], p_ins[0]);
    assert_eq!(sink_value(&e, print), Some(3));
    // Focus the value node by clicking its body, then delete it.
    let pos = e.graph.nodes.get(value).unwrap().position;
    press(&mut e, pos);
    let (conn_ev, node_ev) = e.delete_node();
    assert!(matches!(conn_ev, Some(ConnectionEvent::Destroyed)));
    assert!(matches!(node_ev, Some(FlowNodeEvent::Destroyed(id)) if id == value));
    // The node and its slots are gone; every severed input is back on its
    // default.
    assert!(e.graph.nodes.get(value).is_none());
    assert!(e.graph.outputs.get(v_outs[0]).is_none());
    for iid in [a_ins[0], a_ins[1], p_ins[0]] {
        assert!(e.graph.inputs.get(iid).unwrap().input.connection.is_none());
    }
    assert_eq!(sink_value(&e, print), Some(0));
}

#[test]
fn resolving_twice_gives_identical_results() {
    let mut e = editor();
    let (_, _, v_outs) = build_at(&mut e, MathNodes::Value(11), -400, 0);
    let (print, p_ins, _) = build_at(&mut e, MathNodes::Print, 400, 0);
    connect(&mut e, v_outs[0], p_ins[0]);
    let first = sink_value(&e, print);
    let second = sink_value(&e, print);
    assert_eq!(first, Some(11));
    assert_eq!(first, second);
}

#[test]
fn scenario_sum_of_two_values_reaches_the_sink() {
    let mut e = editor();
    let (_, _, v1_outs) = build_at(&mut e, MathNodes::Value(5), -800, 300);
    let (_, _, v2_outs) = build_at(&mut e, MathNodes::Value(7), -800, -300);
    let (_, a_ins, a_outs) = build_at(&mut e, MathNodes::Add, 0, 0);
    let (print, p_ins, _) = build_at(&mut e, MathNodes::Print, 800, 0);
    connect(&mut e, v1_outs[0], a_ins[0]);
    connect(&mut e, v2_outs[0], a_ins[1]);
    connect(&mut e, a_outs[0], p_ins[0]);
    let events = e.resolve_output_nodes();
    assert_eq!(events.len(), 1);
    assert!(matches!(events[0], FlowNodeEvent::Resolved(id, 12) if id == print));
}

#[test]
fn scenario_disconnecting_one_addend_falls_back_to_its_default() {
    let mut e = editor();
    let (_, _, v1_outs) = build_at(&mut e, MathNodes::Value(5), -800, 300);
    let (_, _, v2_outs) = build_at(&mut e, MathNodes::Value(7), -800, -300);
    let (_, a_ins, a_outs) = build_at(&mut e, MathNodes::Add, 0, 0);
    let (print, p_ins, _) = build_at(&mut e, MathNodes::Print, 800, 0);
    connect(&mut e, v1_outs[0], a_ins[0]);
    connect(&mut e, v2_outs[0], a_ins[1]);
    connect(&mut e, a_outs[0], p_ins[0]);
    assert_eq!(sink_value(&e, print), Some(12));
    // Disconnect the `a` input of the adder by pressing its anchor.
    let at = e.graph.input_anchor(a_ins[0]);
    let ev = press(&mut e, at);
    assert!(matches!(ev, Some(ConnectionEvent::Destroyed)));
    assert_eq!(sink_value(&e, print), Some(7));
}

#[test]
fn scenario_same_node_commit_is_rejected() {
    let mut e = editor();
    let (_, a_ins, a_outs) = build_at(&mut e, MathNodes::Add, 0, 0);
    // Begin a drag on the adder's own output anchor, release over one of
    // its own input anchors: no edge, and the drag is consumed.
    let from = e.graph.output_anchor(a_outs[0]);
    let ev = press(&mut e, from);
    assert!(ev.is_none());
    assert!(e.partial.is_some());
    let to = e.graph.input_anchor(a_ins[0]);
    let ev = release(&mut e, to);
    assert!(ev.is_none());
    assert!(e.partial.is_none());
    assert!(e.graph.inputs.get(a_ins[0]).unwrap().input.connection.is_none());
}

#[test]
fn scenario_fan_out_commits_twice_from_one_output() {
    let mut e = editor();
    let (_, _, v_outs) = build_at(&mut e, MathNodes::Value(4), -800, 0);
    let (_, a_ins, _) = build_at(&mut e, MathNodes::Add, 0, 400);
    let (print, p_ins, _) = build_at(&mut e, MathNodes::Print, 0, -400);
    // First drag from the output anchor, committed to the adder's `a`.
    let from = e.graph.output_anchor(v_outs[0]);
    assert!(press(&mut e, from).is_none());
    assert!(matches!(e.partial, Some(_)));
    let to = e.graph.input_anchor(a_ins[0]);
    assert!(matches!(release(&mut e, to), Some(ConnectionEvent::Created)));
    // Second drag from the same output anchor, committed to the sink.
    assert!(press(&mut e, from).is_none());
    let to = e.graph.input_anchor(p_ins[0]);
    assert!(matches!(release(&mut e, to), Some(ConnectionEvent::Created)));
    // Two independent edges now reference the same output slot.
    assert_eq!(e.graph.inputs.get(a_ins[0]).unwrap().input.connection, Some(v_outs[0]));
    assert_eq!(e.graph.inputs.get(p_ins[0]).unwrap().input.connection, Some(v_outs[0]));
    assert_eq!(sink_value(&e, print), Some(4));
}

#[test]
fn freed_identifiers_stay_dead_after_cell_reuse() {
    let mut e = editor();
    let (value, _, v_outs) = build_at(&mut e, MathNodes::Value(8), -400, 0);
    let (print, p_ins, _) = build_at(&mut e, MathNodes::Print, 400, 0);
    connect(&mut e, v_outs[0], p_ins[0]);
    let pos = e.graph.nodes.get(value).unwrap().position;
    press(&mut e, pos);
    e.delete_node();
    let (_, _, new_outs) = build_at(&mut e, MathNodes::Value(99), -400, 0);
    // The freed cell is reused, but under a fresh generation, so the old
    // identifier stays invalid and the severed input stays on its default.
    assert_eq!(new_outs[0].index, v_outs[0].index);
    assert_ne!(new_outs[0].generation, v_outs[0].generation);
    assert!(e.graph.outputs.get(v_outs[0]).is_none());
    assert!(e.graph.outputs.get(new_outs[0]).is_some());
    assert_eq!(sink_value(&e, print), Some(0));
}

#[test]
fn stale_edge_reads_as_absent() {
    let mut e = editor();
    let mut t = MathNodes::Print.template();
    t.position = Position { x: 0, y: 0 };
    if let Some(inputs) = &mut t.inputs {
        inputs[0].default = 21;
    }
    let (print, p_ins, _) = e.build_node(t);
    // A stale reference can arise from partial-frame ordering; evaluation
    // treats such an input as absent and falls back to its default
    // instead of failing.
    e.graph.set_connection(p_ins[0], Some(ElementId { index: 7, generation: 3 }));
    assert_eq!(sink_value(&e, print), Some(21));
}

#[test]
fn template_edges_are_ignored_at_build() {
    let mut e = editor();
    let (_, _, v_outs) = build_at(&mut e, MathNodes::Value(5), -400, 0);
    let mut t = MathNodes::Print.template();
    t.position = Position { x: 400, y: 0 };
    if let Some(inputs) = &mut t.inputs {
        inputs[0].connection = Some(v_outs[0]);
    }
    // Edges are written by the connection state machine alone; a template
    // arriving with one preset yields a fresh, unconnected slot.
    let (print, p_ins, _) = e.build_node(t);
    assert!(e.graph.inputs.get(p_ins[0]).unwrap().input.connection.is_none());
    assert_eq!(sink_value(&e, print), Some(0));
}

#[test]
fn successive_activations_stack_upwards() {
    let mut e = editor();
    let (a, _, _) = build_at(&mut e, MathNodes::Value(1), -400, 0);
    let (b, _, _) = build_at(&mut e, MathNodes::Value(2), 400, 0);
    let z_b = e.graph.nodes.get(b).unwrap().z;
    e.activate_node(Some(ClickTarget::Node(a)));
    let z_a = e.graph.nodes.get(a).unwrap().z;
    assert!(z_a > z_b);
    e.activate_node(Some(ClickTarget::Node(b)));
    assert!(e.graph.nodes.get(b).unwrap().z > z_a);
}

#[test]
fn click_picks_the_topmost_element() {
    let mut e = editor();
    let (first, _, _) = build_at(&mut e, MathNodes::Value(1), 0, 0);
    let (second, _, _) = build_at(&mut e, MathNodes::Value(2), 40, 0);
    // The two bodies overlap around the origin; the later node sits higher.
    let hit = e.handle_click(Position { x: 20, y: 0 });
    assert!(matches!(hit, Some(ClickTarget::Node(id)) if id == second));
    // A point only the first body covers still reaches the first node.
    let hit = e.handle_click(Position { x: -80, y: 0 });
    assert!(matches!(hit, Some(ClickTarget::Node(id)) if id == first));
    // Empty space hits nothing.
    assert!(e.handle_click(Position { x: 100_000, y: 100_000 }).is_none());
}

#[test]
fn pressing_an_anchor_begins_a_drag_not_a_focus() {
    let mut e = editor();
    let (_, _, v_outs) = build_at(&mut e, MathNodes::Value(1), 0, 0);
    let at = e.graph.output_anchor(v_outs[0]);
    let hit = e.handle_click(at);
    assert!(matches!(hit, Some(ClickTarget::Output(oid)) if oid == v_outs[0]));
    press(&mut e, at);
    assert!(e.active.is_none());
    assert!(matches!(e.partial, Some(_)));
}

#[test]
fn value_entry_raises_a_propagate_event() {
    let mut e = editor();
    let (value, _, v_outs) = build_at(&mut e, MathNodes::Value(1), -400, 0);
    let (print, p_ins, _) = build_at(&mut e, MathNodes::Print, 400, 0);
    connect(&mut e, v_outs[0], p_ins[0]);
    assert_eq!(sink_value(&e, print), Some(1));
    let ev = e.set_node_value(value, MathNodes::Value(6));
    assert_eq!(ev, ConnectionEvent::Propagate);
    assert_eq!(sink_value(&e, print), Some(6));
}
