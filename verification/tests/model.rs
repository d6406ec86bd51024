//! Unit tests of the model pieces: named value lookup, clamped addition,
//! the node-kind contract, and the slot anchor layout.

use flow_nodes::connection::{ConnectionConfig, FlowNodeEditor};
use flow_nodes::interactions::Position;
use flow_nodes::math_nodes::{add_clamped, MathNodes};
use flow_nodes::node::{FlowNodeConfig, FlowNodeEvent, FlowNodeSet};
use flow_nodes::template::{FlowNodeSlot, FlowNodeTemplate};
use flow_nodes::values::{str_eq, InputValues};

#[test]
fn lookup_finds_the_first_match_and_misses_cleanly() {
    let mut vals: InputValues<i64> = InputValues::new();
    vals.push("a".to_owned(), 10);
    vals.push("b".to_owned(), 20);
    vals.push("a".to_owned(), 30);
    assert_eq!(vals.get("a"), Some(&10));
    assert_eq!(vals.get("b"), Some(&20));
    assert_eq!(vals.get("c"), None);
    assert_eq!(vals.get_or("c", -1), -1);
    assert_eq!(vals.get_or("b", -1), 20);
    assert_eq!(vals.len(), 3);
}

#[test]
fn string_equality_is_by_characters() {
    assert!(str_eq("", ""));
    assert!(str_eq("abc", "abc"));
    assert!(!str_eq("abc", "abd"));
    assert!(!str_eq("abc", "ab"));
    assert!(str_eq("añc", "añc"));
    assert!(!str_eq("añc", "anc"));
}

#[test]
fn clamped_addition_saturates_at_the_ends() {
    assert_eq!(add_clamped(5, 7), 12);
    assert_eq!(add_clamped(-5, 7), 2);
    assert_eq!(add_clamped(-5, -7), -12);
    assert_eq!(add_clamped(i64::MAX, 1), i64::MAX);
    assert_eq!(add_clamped(i64::MAX, i64::MAX), i64::MAX);
    assert_eq!(add_clamped(i64::MIN, -1), i64::MIN);
    assert_eq!(add_clamped(i64::MIN, i64::MAX), -1);
}

#[test]
fn node_kinds_resolve_their_named_inputs() {
    let mut vals: InputValues<i64> = InputValues::new();
    vals.push("a".to_owned(), 5);
    vals.push("b".to_owned(), 7);
    assert_eq!(MathNodes::Add.resolve(&vals, None), 12);
    assert_eq!(MathNodes::Value(41).resolve(&vals, Some("value")), 41);
    let mut vals: InputValues<i64> = InputValues::new();
    vals.push("value".to_owned(), 9);
    assert_eq!(MathNodes::Print.resolve(&vals, None), 9);
    // A missing input reads as its conventional default of zero.
    let empty: InputValues<i64> = InputValues::new();
    assert_eq!(MathNodes::Add.resolve(&empty, None), 0);
}

#[test]
fn anchors_sit_on_the_node_edges() {
    let mut e: FlowNodeEditor<MathNodes> = FlowNodeEditor::new(
        FlowNodeConfig::default(),
        ConnectionConfig::default(),
    );
    // With the stock measurements a value node is 200 wide and 58 tall:
    // one slot row of 26 plus a title band of 30 plus the border.
    let mut t = MathNodes::Value(5).template();
    t.position = Position { x: 1000, y: 500 };
    let (_, _, outs) = e.build_node(t);
    let anchor = e.graph.output_anchor(outs[0]);
    assert_eq!(anchor, Position { x: 1000 + 100, y: 500 - 17 });

    // An adder has one output row and two input rows below it.
    let mut t = MathNodes::Add.template();
    t.position = Position { x: 0, y: 0 };
    let (_, ins, outs) = e.build_node(t);
    assert_eq!(e.graph.output_anchor(outs[0]), Position { x: 100, y: 9 });
    assert_eq!(e.graph.input_anchor(ins[0]), Position { x: -101, y: -17 });
    assert_eq!(e.graph.input_anchor(ins[1]), Position { x: -101, y: -43 });
}

#[test]
fn an_empty_graph_emits_no_result_events() {
    let e: FlowNodeEditor<MathNodes> = FlowNodeEditor::new(
        FlowNodeConfig::default(),
        ConnectionConfig::default(),
    );
    assert!(e.resolve_output_nodes().is_empty());
}

#[test]
fn pressing_empty_space_neither_focuses_nor_drags() {
    let mut e: FlowNodeEditor<MathNodes> = FlowNodeEditor::new(
        FlowNodeConfig::default(),
        ConnectionConfig::default(),
    );
    let mut t = MathNodes::Value(1).template();
    t.position = Position { x: 0, y: 0 };
    e.build_node(t);
    let far = Position { x: 50_000, y: 50_000 };
    let clicked = e.handle_click(far);
    assert!(clicked.is_none());
    e.activate_node(clicked);
    e.create_partial_connection(clicked);
    assert!(e.active.is_none());
    assert!(e.partial.is_none());
}

#[test]
fn templates_declare_the_documented_shape() {
    let add = MathNodes::Add.template();
    assert_eq!(add.title, "Add");
    let ins = add.inputs.unwrap();
    assert_eq!(ins.len(), 2);
    assert_eq!(ins[0].label, "a");
    assert!(ins[0].connection.is_none());
    assert_eq!(ins[0].default, 0);
    assert_eq!(ins[1].label, "b");
    let outs = add.outputs.unwrap();
    assert_eq!(outs.len(), 1);
    assert_eq!(outs[0].label, "result");

    let print = MathNodes::Print.template();
    assert_eq!(print.title, "Print");
    assert!(print.outputs.is_none());
    assert_eq!(print.inputs.unwrap()[0].label, "value");

    let value = MathNodes::Value(3).template();
    assert_eq!(value.title, "Value");
    assert!(value.inputs.is_none());
    assert_eq!(value.outputs.unwrap()[0].label, "value");
}

#[test]
fn an_empty_output_list_still_makes_a_sink() {
    let mut e: FlowNodeEditor<MathNodes> = FlowNodeEditor::new(
        FlowNodeConfig::default(),
        ConnectionConfig::default(),
    );
    // A sink is a node whose template declared zero output slots, whether
    // the output list is absent or present but empty.
    let t = FlowNodeTemplate {
        title: "Quiet".to_owned(),
        node: MathNodes::Value(5),
        position: Position { x: 0, y: 0 },
        width: 200,
        inputs: None,
        outputs: Some(Vec::new()),
        slot: None,
    };
    let (id, _, _) = e.build_node(t);
    let events = e.resolve_output_nodes();
    assert_eq!(events.len(), 1);
    assert!(matches!(events[0], FlowNodeEvent::Resolved(rid, 5) if rid == id));
}

#[test]
fn a_widget_area_deepens_the_node_box() {
    let mut e: FlowNodeEditor<MathNodes> = FlowNodeEditor::new(
        FlowNodeConfig::default(),
        ConnectionConfig::default(),
    );
    let mut t = MathNodes::Print.template();
    t.position = Position { x: 0, y: 0 };
    t.slot = Some(FlowNodeSlot::new(40));
    let (id, ins, _) = e.build_node(t);
    // One slot row of 26, the widget area of 40 plus its padding, the
    // title band of 30, and the border.
    assert_eq!(e.graph.nodes.get(id).unwrap().height, 108);
    // The input row still hangs under the title band, measured from the
    // deeper box's centre.
    assert_eq!(e.graph.input_anchor(ins[0]), Position { x: -101, y: 8 });
}

#[test]
fn deleting_with_nothing_focused_changes_nothing() {
    let mut e: FlowNodeEditor<MathNodes> = FlowNodeEditor::new(
        FlowNodeConfig::default(),
        ConnectionConfig::default(),
    );
    let mut t = MathNodes::Print.template();
    t.position = Position { x: 0, y: 0 };
    let (print, _, _) = e.build_node(t);
    let (conn_ev, node_ev) = e.delete_node();
    assert!(conn_ev.is_none());
    assert!(node_ev.is_none());
    assert!(e.graph.nodes.get(print).is_some());
}
