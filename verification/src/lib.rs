//! A verified core for a visual node-graph editor.
//!
//! Nodes carry a user-supplied computation kind; input and output slots are
//! owned by nodes and live in generational arenas; an edge is the reference an
//! input slot holds to an output slot. A pull-based evaluation engine resolves
//! a node's value by recursively resolving everything upstream of it, and a
//! connection state machine turns pointer gestures into edge edits.

pub mod arena;
pub mod interactions;
pub mod values;
pub mod node;
pub mod template;
pub mod graph;
pub mod eval;
pub mod connection;
pub mod math_nodes;
