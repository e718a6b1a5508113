//! What a recorder can watch.
use vstd::prelude::*;
use crate::edge::EdgeIndex;
use crate::error::PywrError;
use crate::node::{NodeIndex, ParameterIndex};
use crate::quantity::Quantity;
use crate::state::NetworkState;

verus! {

/// One number of a solved timestep: a flow, a volume or a parameter's value.
#[derive(Clone, Copy, Debug, PartialEq, Eq)]
pub enum Metric {
    /// What entered a node, over all its incoming edges.
    NodeInFlow(NodeIndex),
    /// What left a node, over all its outgoing edges.
    NodeOutFlow(NodeIndex),
    /// What a storage holds.
    NodeVolume(NodeIndex),
    /// What flowed along an edge.
    EdgeFlow(EdgeIndex),
    /// What a parameter gave at this timestep.
    ParameterValue(ParameterIndex),
}

impl Metric {
    /// The number that the metric selects from a state and the parameter
    /// values, or the failure where there is no such number.
    pub open spec fn value(self, state: &NetworkState, values: Seq<Quantity>) -> Result<
        Quantity,
        PywrError,
    > {
        match self {
            Metric::NodeInFlow(i) => if i < state.node_states@.len() {
                Ok(state.node_states@[i as int].in_flow())
            } else {
                Err(PywrError::NodeIndexNotFound)
            },
            Metric::NodeOutFlow(i) => if i < state.node_states@.len() {
                Ok(state.node_states@[i as int].out_flow())
            } else {
                Err(PywrError::NodeIndexNotFound)
            },
            Metric::NodeVolume(i) => if i < state.node_states@.len() {
                match state.node_states@[i as int].volume() {
                    Some(volume) => Ok(volume),
                    None => Err(PywrError::MetricNotDefinedForNode),
                }
            } else {
                Err(PywrError::NodeIndexNotFound)
            },
            Metric::EdgeFlow(e) => if e < state.edge_states@.len() {
                Ok(state.edge_states@[e as int].flow)
            } else {
                Err(PywrError::EdgeIndexNotFound)
            },
            Metric::ParameterValue(p) => if p < values.len() {
                Ok(values[p as int])
            } else {
                Err(PywrError::ParameterIndexNotFound)
            },
        }
    }

    /// Reads the metric from a state and the parameter values.
    pub fn get_value(&self, state: &NetworkState, values: &[Quantity]) -> (r: Result<
        Quantity,
        PywrError,
    >)
        ensures
            r == self.value(state, values@),
    {
        match *self {
            Metric::NodeInFlow(i) => state.get_node_in_flow(i),
            Metric::NodeOutFlow(i) => state.get_node_out_flow(i),
            Metric::NodeVolume(i) => state.get_node_volume(i),
            Metric::EdgeFlow(e) => state.get_edge_flow(e),
            Metric::ParameterValue(p) => if p < values.len() {
                Ok(values[p])
            } else {
                Err(PywrError::ParameterIndexNotFound)
            },
        }
    }
}

} // verus!
