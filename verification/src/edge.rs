//! Directed connections between nodes.
use vstd::prelude::*;

verus! {

/// The position of an edge in the model's list of edges.
pub type EdgeIndex = usize;

/// A directed connection that carries flow from one node to another. An edge
/// has no bounds or cost of its own: those belong to the nodes.
#[derive(Clone, Copy, Debug, PartialEq, Eq)]
pub struct Edge {
    pub index: EdgeIndex,
    pub from_node_index: usize,
    pub to_node_index: usize,
}

impl Edge {
    /// The edge number `index` from node `from_node_index` to node `to_node_index`.
    pub fn new(from_node_index: usize, to_node_index: usize, index: EdgeIndex) -> (edge: Edge)
        ensures
            edge == (Edge { index, from_node_index, to_node_index }),
    {
        Edge { index, from_node_index, to_node_index }
    }
}

} // verus!
