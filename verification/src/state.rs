//! The state of a network in one scenario: what flows through each node and
//! along each edge, and what each storage holds.
use vstd::prelude::*;
use crate::edge::EdgeIndex;
use crate::error::PywrError;
use crate::node::NodeIndex;
use crate::quantity::Quantity;

verus! {

/// The values of the parameters at one timestep, in the order of the
/// parameters.
pub type ParameterState = Vec<Quantity>;

/// What entered and what left a node during a timestep.
#[derive(Clone, Copy, Debug, PartialEq)]
pub struct FlowState {
    pub in_flow: Quantity,
    pub out_flow: Quantity,
}

impl FlowState {
    /// Nothing has flowed.
    pub open spec fn spec_new() -> FlowState {
        FlowState { in_flow: Quantity::spec_zero(), out_flow: Quantity::spec_zero() }
    }

    /// The state in which nothing has flowed.
    pub fn new() -> (state: FlowState)
        ensures
            state == Self::spec_new(),
    {
        FlowState { in_flow: Quantity::zero(), out_flow: Quantity::zero() }
    }
}

/// The volume of a storage, and what entered and left it during a timestep.
#[derive(Clone, Copy, Debug, PartialEq)]
pub struct StorageState {
    pub volume: Quantity,
    pub flows: FlowState,
}

/// The state of a node: flows alone, or flows and a volume.
#[derive(Clone, Copy, Debug, PartialEq)]
pub enum NodeState {
    Flow(FlowState),
    Storage(StorageState),
}

impl NodeState {
    /// What entered the node.
    pub open spec fn in_flow(self) -> Quantity {
        match self {
            NodeState::Flow(s) => s.in_flow,
            NodeState::Storage(s) => s.flows.in_flow,
        }
    }

    /// What left the node.
    pub open spec fn out_flow(self) -> Quantity {
        match self {
            NodeState::Flow(s) => s.out_flow,
            NodeState::Storage(s) => s.flows.out_flow,
        }
    }

    /// What the node holds, if it is a storage.
    pub open spec fn volume(self) -> Option<Quantity> {
        match self {
            NodeState::Flow(_) => None,
            NodeState::Storage(s) => Some(s.volume),
        }
    }

    /// The state with nothing flowed. A volume stays.
    pub open spec fn at_rest(self) -> NodeState {
        match self {
            NodeState::Flow(_) => NodeState::Flow(FlowState::spec_new()),
            NodeState::Storage(s) => NodeState::Storage(
                StorageState { volume: s.volume, flows: FlowState::spec_new() },
            ),
        }
    }

    /// The state with `flow` having entered.
    pub open spec fn with_in_flow(self, flow: Quantity) -> NodeState {
        match self {
            NodeState::Flow(s) => NodeState::Flow(FlowState { in_flow: flow, ..s }),
            NodeState::Storage(s) => NodeState::Storage(
                StorageState { flows: FlowState { in_flow: flow, ..s.flows }, ..s },
            ),
        }
    }

    /// The state with `flow` having left.
    pub open spec fn with_out_flow(self, flow: Quantity) -> NodeState {
        match self {
            NodeState::Flow(s) => NodeState::Flow(FlowState { out_flow: flow, ..s }),
            NodeState::Storage(s) => NodeState::Storage(
                StorageState { flows: FlowState { out_flow: flow, ..s.flows }, ..s },
            ),
        }
    }

    /// The state of a node that stores nothing, at rest.
    pub fn new_flow_state() -> (state: NodeState)
        ensures
            state == NodeState::Flow(FlowState::spec_new()),
    {
        NodeState::Flow(FlowState::new())
    }

    /// The state of a storage that holds `volume`, at rest.
    pub fn new_storage_state(volume: Quantity) -> (state: NodeState)
        ensures
            state == NodeState::Storage(StorageState { volume, flows: FlowState::spec_new() }),
    {
        NodeState::Storage(StorageState { volume, flows: FlowState::new() })
    }

    /// The state as a timestep begins: nothing has flowed yet, and a storage
    /// holds what it held.
    pub fn reset(&mut self)
        ensures
            *final(self) == old(self).at_rest(),
    {
        *self = match *self {
            NodeState::Flow(_) => NodeState::new_flow_state(),
            NodeState::Storage(s) => NodeState::new_storage_state(s.volume),
        };
    }
}

/// What flowed along an edge during a timestep.
#[derive(Clone, Copy, Debug, PartialEq)]
pub struct EdgeState {
    pub flow: Quantity,
}

impl EdgeState {
    /// Nothing has flowed.
    pub open spec fn spec_new() -> EdgeState {
        EdgeState { flow: Quantity::spec_zero() }
    }

    /// The state in which nothing has flowed.
    pub fn new() -> (state: EdgeState)
        ensures
            state == Self::spec_new(),
    {
        EdgeState { flow: Quantity::zero() }
    }
}

/// The state of a whole network in one scenario: one entry for each node, in
/// the order of the nodes, and one for each edge, in the order of the edges.
#[derive(Clone, Debug, PartialEq)]
pub struct NetworkState {
    pub node_states: Vec<NodeState>,
    pub edge_states: Vec<EdgeState>,
}

impl NetworkState {
    /// The state at rest: every node and edge of `self` with nothing flowed,
    /// every storage with its volume.
    pub open spec fn at_rest(&self, other: &NetworkState) -> bool {
        &&& other.node_states@.len() == self.node_states@.len()
        &&& other.edge_states@.len() == self.edge_states@.len()
        &&& forall|i: int|
            0 <= i < self.node_states@.len() ==> #[trigger] other.node_states@[i]
                == self.node_states@[i].at_rest()
        &&& forall|e: int|
            0 <= e < self.edge_states@.len() ==> #[trigger] other.edge_states@[e]
                == EdgeState::spec_new()
    }

    /// The state of a network without nodes or edges.
    pub fn new() -> (state: NetworkState)
        ensures
            state.node_states@ == Seq::<NodeState>::empty(),
            state.edge_states@ == Seq::<EdgeState>::empty(),
    {
        NetworkState { node_states: Vec::new(), edge_states: Vec::new() }
    }

    /// Adds the state of one more node.
    pub fn push_node_state(&mut self, node_state: NodeState)
        ensures
            final(self).node_states@ == old(self).node_states@.push(node_state),
            final(self).edge_states@ == old(self).edge_states@,
    {
        self.node_states.push(node_state);
    }

    /// Adds the state of one more edge.
    pub fn push_edge_state(&mut self, edge_state: EdgeState)
        ensures
            final(self).node_states@ == old(self).node_states@,
            final(self).edge_states@ == old(self).edge_states@.push(edge_state),
    {
        self.edge_states.push(edge_state);
    }

    /// The state as the next timestep begins: the same nodes and edges with
    /// nothing flowed, every storage with the volume that it has in `self`.
    pub fn next_at_rest(&self) -> (next: NetworkState)
        ensures
            self.at_rest(&next),
    {
        let mut next = NetworkState::new();
        let mut i: usize = 0;
        while i < self.node_states.len()
            invariant
                i <= self.node_states@.len(),
                next.node_states@.len() == i,
                next.edge_states@.len() == 0,
                forall|k: int|
                    0 <= k < i ==> #[trigger] next.node_states@[k] == self.node_states@[k].at_rest(),
            decreases self.node_states.len() - i,
        {
            let mut node_state = self.node_states[i];
            node_state.reset();
            next.push_node_state(node_state);
            i += 1;
        }
        let mut e: usize = 0;
        while e < self.edge_states.len()
            invariant
                e <= self.edge_states@.len(),
                next.node_states@.len() == self.node_states@.len(),
                next.edge_states@.len() == e,
                forall|k: int|
                    0 <= k < self.node_states@.len() ==> #[trigger] next.node_states@[k]
                        == self.node_states@[k].at_rest(),
                forall|k: int|
                    0 <= k < e ==> #[trigger] next.edge_states@[k] == EdgeState::spec_new(),
            decreases self.edge_states.len() - e,
        {
            next.push_edge_state(EdgeState::new());
            e += 1;
        }
        next
    }

    /// What entered node `node_index`.
    pub fn get_node_in_flow(&self, node_index: NodeIndex) -> (r: Result<Quantity, PywrError>)
        ensures
            r == if node_index < self.node_states@.len() {
                Ok::<Quantity, PywrError>(self.node_states@[node_index as int].in_flow())
            } else {
                Err(PywrError::NodeIndexNotFound)
            },
    {
        if node_index < self.node_states.len() {
            match self.node_states[node_index] {
                NodeState::Flow(s) => Ok(s.in_flow),
                NodeState::Storage(s) => Ok(s.flows.in_flow),
            }
        } else {
            Err(PywrError::NodeIndexNotFound)
        }
    }

    /// What left node `node_index`.
    pub fn get_node_out_flow(&self, node_index: NodeIndex) -> (r: Result<Quantity, PywrError>)
        ensures
            r == if node_index < self.node_states@.len() {
                Ok::<Quantity, PywrError>(self.node_states@[node_index as int].out_flow())
            } else {
                Err(PywrError::NodeIndexNotFound)
            },
    {
        if node_index < self.node_states.len() {
            match self.node_states[node_index] {
                NodeState::Flow(s) => Ok(s.out_flow),
                NodeState::Storage(s) => Ok(s.flows.out_flow),
            }
        } else {
            Err(PywrError::NodeIndexNotFound)
        }
    }

    /// What node `node_index` holds. Only a storage holds anything.
    pub fn get_node_volume(&self, node_index: NodeIndex) -> (r: Result<Quantity, PywrError>)
        ensures
            r == if node_index >= self.node_states@.len() {
                Err::<Quantity, PywrError>(PywrError::NodeIndexNotFound)
            } else {
                match self.node_states@[node_index as int].volume() {
                    Some(volume) => Ok(volume),
                    None => Err(PywrError::MetricNotDefinedForNode),
                }
            },
    {
        if node_index < self.node_states.len() {
            match self.node_states[node_index] {
                NodeState::Flow(_) => Err(PywrError::MetricNotDefinedForNode),
                NodeState::Storage(s) => Ok(s.volume),
            }
        } else {
            Err(PywrError::NodeIndexNotFound)
        }
    }

    /// What flowed along edge `edge_index`.
    pub fn get_edge_flow(&self, edge_index: EdgeIndex) -> (r: Result<Quantity, PywrError>)
        ensures
            r == if edge_index < self.edge_states@.len() {
                Ok::<Quantity, PywrError>(self.edge_states@[edge_index as int].flow)
            } else {
                Err(PywrError::EdgeIndexNotFound)
            },
    {
        if edge_index < self.edge_states.len() {
            Ok(self.edge_states[edge_index].flow)
        } else {
            Err(PywrError::EdgeIndexNotFound)
        }
    }

    /// Writes what entered node `node_index`. Nothing else changes, and
    /// nothing at all where there is no such node.
    pub fn set_node_in_flow(&mut self, node_index: NodeIndex, flow: Quantity) -> (r: Result<
        (),
        PywrError,
    >)
        ensures
            final(self).edge_states@ == old(self).edge_states@,
            node_index < old(self).node_states@.len() ==> r is Ok && final(self).node_states@
                == old(self).node_states@.update(
                node_index as int,
                old(self).node_states@[node_index as int].with_in_flow(flow),
            ),
            node_index >= old(self).node_states@.len() ==> r == Err::<(), PywrError>(
                PywrError::NodeIndexNotFound,
            ) && final(self).node_states@ == old(self).node_states@,
    {
        if node_index >= self.node_states.len() {
            return Err(PywrError::NodeIndexNotFound);
        }
        let next = match self.node_states[node_index] {
            NodeState::Flow(s) => NodeState::Flow(FlowState { in_flow: flow, out_flow: s.out_flow }),
            NodeState::Storage(s) => NodeState::Storage(
                StorageState {
                    volume: s.volume,
                    flows: FlowState { in_flow: flow, out_flow: s.flows.out_flow },
                },
            ),
        };
        self.node_states.set(node_index, next);
        Ok(())
    }

    /// Writes what left node `node_index`. Nothing else changes, and nothing
    /// at all where there is no such node.
    pub fn set_node_out_flow(&mut self, node_index: NodeIndex, flow: Quantity) -> (r: Result<
        (),
        PywrError,
    >)
        ensures
            final(self).edge_states@ == old(self).edge_states@,
            node_index < old(self).node_states@.len() ==> r is Ok && final(self).node_states@
                == old(self).node_states@.update(
                node_index as int,
                old(self).node_states@[node_index as int].with_out_flow(flow),
            ),
            node_index >= old(self).node_states@.len() ==> r == Err::<(), PywrError>(
                PywrError::NodeIndexNotFound,
            ) && final(self).node_states@ == old(self).node_states@,
    {
        if node_index >= self.node_states.len() {
            return Err(PywrError::NodeIndexNotFound);
        }
        let next = match self.node_states[node_index] {
            NodeState::Flow(s) => NodeState::Flow(FlowState { in_flow: s.in_flow, out_flow: flow }),
            NodeState::Storage(s) => NodeState::Storage(
                StorageState {
                    volume: s.volume,
                    flows: FlowState { in_flow: s.flows.in_flow, out_flow: flow },
                },
            ),
        };
        self.node_states.set(node_index, next);
        Ok(())
    }

    /// Writes what the storage `node_index` holds. Nothing else changes, and
    /// nothing at all where there is no such node or it is no storage.
    pub fn set_node_volume(&mut self, node_index: NodeIndex, volume: Quantity) -> (r: Result<
        (),
        PywrError,
    >)
        ensures
            final(self).edge_states@ == old(self).edge_states@,
            node_index >= old(self).node_states@.len() ==> r == Err::<(), PywrError>(
                PywrError::NodeIndexNotFound,
            ) && final(self).node_states@ == old(self).node_states@,
            node_index < old(self).node_states@.len() ==> match old(self).node_states@[node_index as int] {
                NodeState::Flow(_) => r == Err::<(), PywrError>(
                    PywrError::MetricNotDefinedForNode,
                ) && final(self).node_states@ == old(self).node_states@,
                NodeState::Storage(s) => r is Ok && final(self).node_states@ == old(self).node_states@.update(
                    node_index as int,
                    NodeState::Storage(StorageState { volume, flows: s.flows }),
                ),
            },
    {
        if node_index >= self.node_states.len() {
            return Err(PywrError::NodeIndexNotFound);
        }
        match self.node_states[node_index] {
            NodeState::Flow(_) => Err(PywrError::MetricNotDefinedForNode),
            NodeState::Storage(s) => {
                self.node_states.set(
                    node_index,
                    NodeState::Storage(StorageState { volume, flows: s.flows }),
                );
                Ok(())
            },
        }
    }

    /// Writes what flowed along edge `edge_index`. Nothing else changes, and
    /// nothing at all where there is no such edge.
    pub fn set_edge_flow(&mut self, edge_index: EdgeIndex, flow: Quantity) -> (r: Result<
        (),
        PywrError,
    >)
        ensures
            final(self).node_states@ == old(self).node_states@,
            edge_index < old(self).edge_states@.len() ==> r is Ok && final(self).edge_states@
                == old(self).edge_states@.update(edge_index as int, EdgeState { flow }),
            edge_index >= old(self).edge_states@.len() ==> r == Err::<(), PywrError>(
                PywrError::EdgeIndexNotFound,
            ) && final(self).edge_states@ == old(self).edge_states@,
    {
        if edge_index >= self.edge_states.len() {
            return Err(PywrError::EdgeIndexNotFound);
        }
        self.edge_states.set(edge_index, EdgeState { flow });
        Ok(())
    }
}

} // verus!
