//! The model: the owner of a network, its parameters and its recorders, and
//! the loop that runs them.
use vstd::prelude::*;
use crate::edge::{Edge, EdgeIndex};
use crate::error::PywrError;
use crate::node::{Constraint, Node, NodeIndex, NodeView, ParameterIndex, Role};
use crate::parameters::{all_below, lies_below, Parameter};
use crate::quantity::Quantity;
use crate::recorders::{Recorder, RecorderIndex};
use crate::scenario::{all_positive, product, ScenarioGroupCollection, ScenarioIndex};
use crate::solvers::Solver;
use crate::state::{EdgeState, FlowState, NetworkState, NodeState, ParameterState, StorageState};
use crate::timestep::{Timestep, Timestepper};

verus! {

/// `name` stands at place `i` of `names`, and at no place before it.
pub open spec fn first_at(names: Seq<Seq<char>>, name: Seq<char>, i: int) -> bool {
    &&& 0 <= i < names.len()
    &&& names[i] == name
    &&& forall|j: int| 0 <= j < i ==> names[j] != name
}

/// `name` stands nowhere in `names`.
pub open spec fn absent(names: Seq<Seq<char>>, name: Seq<char>) -> bool {
    forall|j: int| 0 <= j < names.len() ==> names[j] != name
}

/// No name stands twice in `names`.
pub open spec fn distinct(names: Seq<Seq<char>>) -> bool {
    forall|i: int, j: int| 0 <= i < j < names.len() ==> names[i] != names[j]
}

/// What a model knows of one of its parameters.
pub struct ParameterEntry {
    pub name: Seq<char>,
    pub dependencies: Seq<ParameterIndex>,
}

/// What a model is: its nodes, edges, parameters, recorders and scenario
/// groups, each in the order in which they were added.
pub struct ModelView {
    pub nodes: Seq<NodeView>,
    pub edges: Seq<Edge>,
    pub parameters: Seq<ParameterEntry>,
    pub recorders: Seq<Seq<char>>,
    pub scenario_names: Seq<Seq<char>>,
    pub scenario_sizes: Seq<usize>,
}

impl ModelView {
    /// The names of the nodes, in the order of the nodes.
    pub open spec fn node_names(self) -> Seq<Seq<char>> {
        Seq::new(self.nodes.len(), |i: int| self.nodes[i].name)
    }

    /// The names of the parameters, in the order of the parameters.
    pub open spec fn parameter_names(self) -> Seq<Seq<char>> {
        Seq::new(self.parameters.len(), |i: int| self.parameters[i].name)
    }

    /// Edge `e` exists and starts at node `i`.
    pub open spec fn starts_at(self, e: EdgeIndex, i: int) -> bool {
        e < self.edges.len() && self.edges[e as int].from_node_index == i
    }

    /// Edge `e` exists and ends at node `i`.
    pub open spec fn ends_at(self, e: EdgeIndex, i: int) -> bool {
        e < self.edges.len() && self.edges[e as int].to_node_index == i
    }

    /// Node `i` is in order: it knows its place, it has what its role allows,
    /// it refers to parameters that exist, and it lists, once each, edges
    /// that exist and that end or start at it.
    pub open spec fn node_wf(self, i: int) -> bool {
        let node = self.nodes[i];
        &&& node.index == i
        &&& node.fits_role()
        &&& node.refers_below(self.parameters.len())
        &&& node.incoming.no_duplicates()
        &&& node.outgoing.no_duplicates()
        &&& forall|k: int| 0 <= k < node.incoming.len() ==> self.ends_at(#[trigger] node.incoming[k], i)
        &&& forall|k: int|
            0 <= k < node.outgoing.len() ==> self.starts_at(#[trigger] node.outgoing[k], i)
    }

    /// Edge `e` is in order: it knows its place, it joins two different nodes
    /// that exist, and both list it.
    pub open spec fn edge_wf(self, e: int) -> bool {
        let edge = self.edges[e];
        &&& edge.index == e
        &&& edge.from_node_index != edge.to_node_index
        &&& edge.from_node_index < self.nodes.len()
        &&& edge.to_node_index < self.nodes.len()
        &&& self.nodes[edge.from_node_index as int].outgoing.contains(edge.index)
        &&& self.nodes[edge.to_node_index as int].incoming.contains(edge.index)
    }

    /// Parameter `p` reads only parameters that were added before it.
    pub open spec fn parameter_wf(self, p: int) -> bool {
        all_below(self.parameters[p].dependencies, p as nat)
    }

    /// The model is in order: every node, edge and parameter is, no two
    /// nodes, parameters or recorders share a name, every scenario group has
    /// at least one scenario, and the number of scenarios fits the machine.
    pub open spec fn wf(self) -> bool {
        &&& forall|i: int| 0 <= i < self.nodes.len() ==> #[trigger] self.node_wf(i)
        &&& forall|e: int| 0 <= e < self.edges.len() ==> #[trigger] self.edge_wf(e)
        &&& forall|p: int| 0 <= p < self.parameters.len() ==> #[trigger] self.parameter_wf(p)
        &&& distinct(self.node_names())
        &&& distinct(self.parameter_names())
        &&& distinct(self.recorders)
        &&& self.scenario_names.len() == self.scenario_sizes.len()
        &&& all_positive(self.scenario_sizes)
        &&& product(self.scenario_sizes) <= usize::MAX
    }

    /// The model with one more node.
    pub open spec fn with_node(self, node: NodeView) -> ModelView {
        ModelView { nodes: self.nodes.push(node), ..self }
    }

    /// The model with one more edge, from node `from` to node `to`: the edge
    /// is added to the edges, to the edges that leave `from` and to those
    /// that enter `to`.
    pub open spec fn with_edge(self, from: NodeIndex, to: NodeIndex) -> ModelView {
        let e = self.edges.len() as usize;
        let sender = self.nodes[from as int];
        let receiver = self.nodes[to as int];
        ModelView {
            nodes: self.nodes.update(
                from as int,
                NodeView { outgoing: sender.outgoing.push(e), ..sender },
            ).update(to as int, NodeView { incoming: receiver.incoming.push(e), ..receiver }),
            edges: self.edges.push(Edge { index: e, from_node_index: from, to_node_index: to }),
            ..self
        }
    }

    /// The model with node `i` replaced.
    pub open spec fn with_node_at(self, i: NodeIndex, node: NodeView) -> ModelView {
        ModelView { nodes: self.nodes.update(i as int, node), ..self }
    }

    /// The model with one more parameter.
    pub open spec fn with_parameter(self, entry: ParameterEntry) -> ModelView {
        ModelView { parameters: self.parameters.push(entry), ..self }
    }

    /// The model with one more recorder.
    pub open spec fn with_recorder(self, name: Seq<char>) -> ModelView {
        ModelView { recorders: self.recorders.push(name), ..self }
    }

    /// The model with one more scenario group.
    pub open spec fn with_scenario(self, name: Seq<char>, size: usize) -> ModelView {
        ModelView {
            scenario_names: self.scenario_names.push(name),
            scenario_sizes: self.scenario_sizes.push(size),
            ..self
        }
    }

    /// Why nodes `from` and `to` cannot be joined by an edge, or `None`
    /// where they can: a node cannot be joined to itself, both nodes must
    /// exist, an output sends nothing and an input receives nothing.
    pub open spec fn connection_fault(self, from: NodeIndex, to: NodeIndex) -> Option<PywrError> {
        if from == to {
            Some(PywrError::InvalidNodeConnection)
        } else if from >= self.nodes.len() || to >= self.nodes.len() {
            Some(PywrError::NodeIndexNotFound)
        } else if self.nodes[from as int].role is Output || self.nodes[to as int].role is Input {
            Some(PywrError::InvalidConnectionForRole)
        } else {
            None
        }
    }

    /// Why the bound `constraint` of node `node` cannot be tied to
    /// `parameter`, or `None` where it can: the parameter and the node must
    /// exist, and the node's role must have such a bound.
    pub open spec fn constraint_fault(
        self,
        node: NodeIndex,
        parameter: Option<ParameterIndex>,
        constraint: Constraint,
    ) -> Option<PywrError> {
        if parameter is Some && parameter->Some_0 >= self.parameters.len() {
            Some(PywrError::ParameterIndexNotFound)
        } else if node >= self.nodes.len() {
            Some(PywrError::NodeIndexNotFound)
        } else if !self.nodes[node as int].admits(constraint) {
            if constraint.on_flow() {
                Some(PywrError::FlowConstraintsUndefined)
            } else {
                Some(PywrError::StorageConstraintsUndefined)
            }
        } else {
            None
        }
    }

    /// Why the cost of node `node` cannot be tied to `parameter`, or `None`
    /// where it can: the parameter and the node must exist.
    pub open spec fn cost_fault(self, node: NodeIndex, parameter: Option<ParameterIndex>) -> Option<
        PywrError,
    > {
        if parameter is Some && parameter->Some_0 >= self.parameters.len() {
            Some(PywrError::ParameterIndexNotFound)
        } else if node >= self.nodes.len() {
            Some(PywrError::NodeIndexNotFound)
        } else {
            None
        }
    }
}

/// Names that were distinct stay distinct when a name that was absent is
/// added.
pub proof fn lemma_distinct_push(names: Seq<Seq<char>>, name: Seq<char>)
    requires
        distinct(names),
        absent(names, name),
    ensures
        distinct(names.push(name)),
{
}

impl ModelView {
    /// A node that is in order stays in order in a model with the same
    /// edges, if it keeps its place and its edges, has what its role allows
    /// and refers to parameters that exist.
    pub proof fn lemma_node_kept(self, next: ModelView, j: int)
        requires
            0 <= j < self.nodes.len(),
            j < next.nodes.len(),
            self.node_wf(j),
            next.edges == self.edges,
            next.nodes[j].index == self.nodes[j].index,
            next.nodes[j].incoming == self.nodes[j].incoming,
            next.nodes[j].outgoing == self.nodes[j].outgoing,
            next.nodes[j].fits_role(),
            next.nodes[j].refers_below(next.parameters.len()),
        ensures
            next.node_wf(j),
    {
        let node = self.nodes[j];
        assert forall|k: int| 0 <= k < node.incoming.len() implies next.ends_at(
            #[trigger] node.incoming[k],
            j,
        ) by {
            assert(self.ends_at(node.incoming[k], j));
        }
        assert forall|k: int| 0 <= k < node.outgoing.len() implies next.starts_at(
            #[trigger] node.outgoing[k],
            j,
        ) by {
            assert(self.starts_at(node.outgoing[k], j));
        }
    }

    /// A model in order stays in order when a node without edges, bounds or
    /// cost is added under a name that no node has.
    pub proof fn lemma_with_node(self, name: Seq<char>, role: Role, volume: Option<Quantity>)
        requires
            self.wf(),
            absent(self.node_names(), name),
            volume is Some <==> role is Storage,
            self.nodes.len() <= usize::MAX,
        ensures
            self.with_node(NodeView::fresh(self.nodes.len() as usize, name, role, volume)).wf(),
    {
        let node = NodeView::fresh(self.nodes.len() as usize, name, role, volume);
        let next = self.with_node(node);
        assert forall|i: int| 0 <= i < next.nodes.len() implies #[trigger] next.node_wf(i) by {
            if i < self.nodes.len() {
                assert(self.node_wf(i));
                self.lemma_node_kept(next, i);
            }
        }
        assert forall|e: int| 0 <= e < next.edges.len() implies #[trigger] next.edge_wf(e) by {
            assert(self.edge_wf(e));
        }
        assert forall|p: int| 0 <= p < next.parameters.len() implies #[trigger] next.parameter_wf(
            p,
        ) by {
            assert(self.parameter_wf(p));
        }
        assert(next.node_names() =~= self.node_names().push(name));
        lemma_distinct_push(self.node_names(), name);
    }

    /// A model in order stays in order when two different nodes are joined
    /// by an edge that the sender can send and the receiver can receive.
    pub proof fn lemma_with_edge(self, from: NodeIndex, to: NodeIndex)
        requires
            self.wf(),
            self.connection_fault(from, to) is None,
            self.edges.len() <= usize::MAX,
        ensures
            self.with_edge(from, to).wf(),
    {
        let next = self.with_edge(from, to);
        let e = self.edges.len() as usize;
        assert(self.node_wf(from as int));
        assert(self.node_wf(to as int));
        assert forall|i: int| 0 <= i < next.nodes.len() implies #[trigger] next.node_wf(i) by {
            assert(self.node_wf(i));
            let old_node = self.nodes[i];
            let node = next.nodes[i];
            assert forall|k: int| 0 <= k < node.incoming.len() implies next.ends_at(
                #[trigger] node.incoming[k],
                i,
            ) by {
                if k < old_node.incoming.len() {
                    assert(self.ends_at(old_node.incoming[k], i));
                }
            }
            assert forall|k: int| 0 <= k < node.outgoing.len() implies next.starts_at(
                #[trigger] node.outgoing[k],
                i,
            ) by {
                if k < old_node.outgoing.len() {
                    assert(self.starts_at(old_node.outgoing[k], i));
                }
            }
            assert(node.incoming.no_duplicates()) by {
                assert forall|a: int, b: int|
                    0 <= a < node.incoming.len() && 0 <= b < node.incoming.len() && a
                        != b implies node.incoming[a] != node.incoming[b] by {
                    if a < old_node.incoming.len() {
                        assert(self.ends_at(old_node.incoming[a], i));
                    }
                    if b < old_node.incoming.len() {
                        assert(self.ends_at(old_node.incoming[b], i));
                    }
                }
            }
            assert(node.outgoing.no_duplicates()) by {
                assert forall|a: int, b: int|
                    0 <= a < node.outgoing.len() && 0 <= b < node.outgoing.len() && a
                        != b implies node.outgoing[a] != node.outgoing[b] by {
                    if a < old_node.outgoing.len() {
                        assert(self.starts_at(old_node.outgoing[a], i));
                    }
                    if b < old_node.outgoing.len() {
                        assert(self.starts_at(old_node.outgoing[b], i));
                    }
                }
            }
        }
        assert forall|x: int| 0 <= x < next.edges.len() implies #[trigger] next.edge_wf(x) by {
            if x < self.edges.len() {
                assert(self.edge_wf(x));
                let edge = self.edges[x];
                let sender = self.nodes[edge.from_node_index as int];
                let receiver = self.nodes[edge.to_node_index as int];
                let k = choose|k: int| 0 <= k < sender.outgoing.len() && sender.outgoing[k] == edge.index;
                assert(next.nodes[edge.from_node_index as int].outgoing[k] == edge.index);
                let m = choose|m: int|
                    0 <= m < receiver.incoming.len() && receiver.incoming[m] == edge.index;
                assert(next.nodes[edge.to_node_index as int].incoming[m] == edge.index);
            } else {
                let sender = next.nodes[from as int];
                let receiver = next.nodes[to as int];
                assert(sender.outgoing[sender.outgoing.len() - 1] == e);
                assert(receiver.incoming[receiver.incoming.len() - 1] == e);
            }
        }
        assert forall|p: int| 0 <= p < next.parameters.len() implies #[trigger] next.parameter_wf(
            p,
        ) by {
            assert(self.parameter_wf(p));
        }
        assert(next.node_names() =~= self.node_names());
    }

    /// A model in order stays in order when a node is replaced by one that
    /// differs from it in its bounds and its cost alone, and that refers to
    /// parameters that exist and has the bounds that its role allows.
    pub proof fn lemma_with_node_at(self, i: NodeIndex, node: NodeView)
        requires
            self.wf(),
            i < self.nodes.len(),
            node.index == self.nodes[i as int].index,
            node.name == self.nodes[i as int].name,
            node.incoming == self.nodes[i as int].incoming,
            node.outgoing == self.nodes[i as int].outgoing,
            node.fits_role(),
            node.refers_below(self.parameters.len()),
        ensures
            self.with_node_at(i, node).wf(),
    {
        let next = self.with_node_at(i, node);
        assert forall|j: int| 0 <= j < next.nodes.len() implies #[trigger] next.node_wf(j) by {
            assert(self.node_wf(j));
            self.lemma_node_kept(next, j);
        }
        assert forall|e: int| 0 <= e < next.edges.len() implies #[trigger] next.edge_wf(e) by {
            assert(self.edge_wf(e));
        }
        assert forall|p: int| 0 <= p < next.parameters.len() implies #[trigger] next.parameter_wf(
            p,
        ) by {
            assert(self.parameter_wf(p));
        }
        assert(next.node_names() =~= self.node_names());
    }

    /// A model in order stays in order when a parameter is added under a
    /// name that no parameter has, if it reads only parameters that are
    /// there.
    pub proof fn lemma_with_parameter(self, entry: ParameterEntry)
        requires
            self.wf(),
            absent(self.parameter_names(), entry.name),
            all_below(entry.dependencies, self.parameters.len()),
        ensures
            self.with_parameter(entry).wf(),
    {
        let next = self.with_parameter(entry);
        assert forall|j: int| 0 <= j < next.nodes.len() implies #[trigger] next.node_wf(j) by {
            assert(self.node_wf(j));
            self.lemma_node_kept(next, j);
        }
        assert forall|e: int| 0 <= e < next.edges.len() implies #[trigger] next.edge_wf(e) by {
            assert(self.edge_wf(e));
        }
        assert forall|p: int| 0 <= p < next.parameters.len() implies #[trigger] next.parameter_wf(
            p,
        ) by {
            if p < self.parameters.len() {
                assert(self.parameter_wf(p));
            }
        }
        assert(next.parameter_names() =~= self.parameter_names().push(entry.name));
        lemma_distinct_push(self.parameter_names(), entry.name);
    }

    /// What the rest of a model needs to stay in order when something other
    /// than its nodes, edges and parameters changes.
    pub proof fn lemma_same_network(self, next: ModelView)
        requires
            self.wf(),
            next.nodes == self.nodes,
            next.edges == self.edges,
            next.parameters == self.parameters,
            distinct(next.recorders),
            next.scenario_names.len() == next.scenario_sizes.len(),
            all_positive(next.scenario_sizes),
            product(next.scenario_sizes) <= usize::MAX,
        ensures
            next.wf(),
    {
        assert forall|j: int| 0 <= j < next.nodes.len() implies #[trigger] next.node_wf(j) by {
            assert(self.node_wf(j));
            self.lemma_node_kept(next, j);
        }
        assert forall|e: int| 0 <= e < next.edges.len() implies #[trigger] next.edge_wf(e) by {
            assert(self.edge_wf(e));
        }
        assert forall|p: int| 0 <= p < next.parameters.len() implies #[trigger] next.parameter_wf(
            p,
        ) by {
            assert(self.parameter_wf(p));
        }
        assert(next.node_names() =~= self.node_names());
        assert(next.parameter_names() =~= self.parameter_names());
    }
}

/// The state with which a node starts a run: nothing has flowed, and a
/// storage holds its initial volume.
pub open spec fn initial_node_state(node: NodeView) -> NodeState {
    match node.initial_volume {
        Some(volume) => NodeState::Storage(StorageState { volume, flows: FlowState::spec_new() }),
        None => NodeState::Flow(FlowState::spec_new()),
    }
}

/// `state` is the state with which a network of these nodes and this many
/// edges starts a run.
pub open spec fn is_initial_state(state: &NetworkState, nodes: Seq<NodeView>, edges: nat) -> bool {
    &&& state.node_states@.len() == nodes.len()
    &&& state.edge_states@.len() == edges
    &&& forall|i: int|
        0 <= i < nodes.len() ==> #[trigger] state.node_states@[i] == initial_node_state(nodes[i])
    &&& forall|e: int| 0 <= e < edges ==> #[trigger] state.edge_states@[e] == EdgeState::spec_new()
}

/// The state of the scenario `scenario_index` among `states`, which has its
/// place by the scenario's number.
pub fn scenario_state<'a>(states: &'a [NetworkState], scenario_index: &ScenarioIndex) -> (r: Result<
    &'a NetworkState,
    PywrError,
>)
    ensures
        match r {
            Ok(state) => scenario_index.index < states@.len() && *state
                == states@[scenario_index.index as int],
            Err(e) => e == PywrError::ScenarioStateNotFound && scenario_index.index
                >= states@.len(),
        },
{
    if scenario_index.index < states.len() {
        Ok(&states[scenario_index.index])
    } else {
        Err(PywrError::ScenarioStateNotFound)
    }
}

/// A parameter in a model, under the name and with the dependencies that it
/// was added with.
struct ParameterSlot {
    name: String,
    dependencies: Vec<ParameterIndex>,
    parameter: Box<dyn Parameter>,
}

impl ParameterSlot {
    fn new(name: String, dependencies: Vec<ParameterIndex>, parameter: Box<dyn Parameter>) -> (slot:
        ParameterSlot)
        ensures
            slot.name == name,
            slot.dependencies == dependencies,
    {
        ParameterSlot { name, dependencies, parameter }
    }
}

/// A recorder in a model, under the name that it was added with.
struct RecorderSlot {
    name: String,
    recorder: Box<dyn Recorder>,
}

impl RecorderSlot {
    fn new(name: String, recorder: Box<dyn Recorder>) -> (slot: RecorderSlot)
        ensures
            slot.name == name,
    {
        RecorderSlot { name, recorder }
    }
}

/// A network with its parameters, recorders and scenario groups.
///
/// Everything is added once and stays: nodes, edges, parameters and recorders
/// are known by their position, which never changes.
pub struct Model {
    nodes: Vec<Node>,
    edges: Vec<Edge>,
    parameters: Vec<ParameterSlot>,
    recorders: Vec<RecorderSlot>,
    scenarios: ScenarioGroupCollection,
}

impl View for Model {
    type V = ModelView;

    closed spec fn view(&self) -> ModelView {
        ModelView {
            nodes: Seq::new(self.nodes@.len(), |i: int| self.nodes@[i]@),
            edges: self.edges@,
            parameters: Seq::new(
                self.parameters@.len(),
                |i: int|
                    ParameterEntry {
                        name: self.parameters@[i].name@,
                        dependencies: self.parameters@[i].dependencies@,
                    },
            ),
            recorders: Seq::new(self.recorders@.len(), |i: int| self.recorders@[i].name@),
            scenario_names: self.scenarios.names(),
            scenario_sizes: self.scenarios.sizes(),
        }
    }
}

impl Default for Model {
    fn default() -> (model: Model)
        ensures
            model.wf(),
            model@.nodes.len() == 0,
            model@.edges.len() == 0,
            model@.parameters.len() == 0,
            model@.recorders.len() == 0,
            model@.scenario_sizes.len() == 0,
    {
        Model::new()
    }
}

impl Model {
    /// The model is in order.
    pub open spec fn wf(&self) -> bool {
        self@.wf()
    }

    /// The empty model.
    pub fn new() -> (model: Model)
        ensures
            model.wf(),
            model@.nodes.len() == 0,
            model@.edges.len() == 0,
            model@.parameters.len() == 0,
            model@.recorders.len() == 0,
            model@.scenario_names.len() == 0,
            model@.scenario_sizes.len() == 0,
    {
        Model {
            nodes: Vec::new(),
            edges: Vec::new(),
            parameters: Vec::new(),
            recorders: Vec::new(),
            scenarios: ScenarioGroupCollection::new(),
        }
    }

    /// The nodes, in the order in which they were added.
    pub fn nodes(&self) -> (nodes: &Vec<Node>)
        ensures
            nodes@.len() == self@.nodes.len(),
            forall|i: int| 0 <= i < nodes@.len() ==> (#[trigger] nodes@[i])@ == self@.nodes[i],
    {
        &self.nodes
    }

    /// The edges, in the order in which they were added.
    pub fn edges(&self) -> (edges: &Vec<Edge>)
        ensures
            edges@ == self@.edges,
    {
        &self.edges
    }

    /// How many parameters the model has.
    pub fn parameter_count(&self) -> (count: usize)
        ensures
            count == self@.parameters.len(),
    {
        self.parameters.len()
    }

    /// How many recorders the model has.
    pub fn recorder_count(&self) -> (count: usize)
        ensures
            count == self@.recorders.len(),
    {
        self.recorders.len()
    }

    /// The scenario groups that were added to the model.
    pub fn scenarios(&self) -> (scenarios: &ScenarioGroupCollection)
        ensures
            scenarios.names() == self@.scenario_names,
            scenarios.sizes() == self@.scenario_sizes,
    {
        &self.scenarios
    }

    /// The node at `node_index`.
    pub fn get_node(&self, node_index: NodeIndex) -> (r: Result<&Node, PywrError>)
        ensures
            match r {
                Ok(node) => node_index < self@.nodes.len() && node@ == self@.nodes[node_index as int],
                Err(e) => e == PywrError::NodeIndexNotFound && node_index >= self@.nodes.len(),
            },
    {
        if node_index < self.nodes.len() {
            Ok(&self.nodes[node_index])
        } else {
            Err(PywrError::NodeIndexNotFound)
        }
    }

    /// The state with which every scenario starts a run, once for each of
    /// `scenario_indices`: nothing has flowed, and every storage holds its
    /// initial volume.
    pub fn get_initial_state(&self, scenario_indices: &[ScenarioIndex]) -> (states: Vec<
        NetworkState,
    >)
        ensures
            states@.len() == scenario_indices@.len(),
            forall|k: int|
                0 <= k < states@.len() ==> is_initial_state(
                    #[trigger] &states@[k],
                    self@.nodes,
                    self@.edges.len(),
                ),
    {
        let mut states: Vec<NetworkState> = Vec::new();
        let mut k: usize = 0;
        while k < scenario_indices.len()
            invariant
                k <= scenario_indices@.len(),
                states@.len() == k,
                forall|j: int|
                    0 <= j < k ==> is_initial_state(
                        #[trigger] &states@[j],
                        self@.nodes,
                        self@.edges.len(),
                    ),
            decreases scenario_indices.len() - k,
        {
            let mut state = NetworkState::new();
            let mut i: usize = 0;
            while i < self.nodes.len()
                invariant
                    i <= self.nodes@.len(),
                    state.node_states@.len() == i,
                    state.edge_states@.len() == 0,
                    forall|j: int|
                        0 <= j < i ==> #[trigger] state.node_states@[j] == initial_node_state(
                            self@.nodes[j],
                        ),
                decreases self.nodes.len() - i,
            {
                let node_state = match self.nodes[i].initial_volume() {
                    Some(volume) => NodeState::new_storage_state(volume),
                    None => NodeState::new_flow_state(),
                };
                state.push_node_state(node_state);
                i += 1;
            }
            let mut e: usize = 0;
            while e < self.edges.len()
                invariant
                    e <= self.edges@.len(),
                    state.node_states@.len() == self@.nodes.len(),
                    state.edge_states@.len() == e,
                    forall|j: int|
                        0 <= j < self@.nodes.len() ==> #[trigger] state.node_states@[j]
                            == initial_node_state(self@.nodes[j]),
                    forall|j: int|
                        0 <= j < e ==> #[trigger] state.edge_states@[j] == EdgeState::spec_new(),
                decreases self.edges.len() - e,
            {
                state.push_edge_state(EdgeState::new());
                e += 1;
            }
            states.push(state);
            k += 1;
        }
        states
    }

    /// The index of the node named `name`.
    pub fn get_node_index(&self, name: &str) -> (r: Result<NodeIndex, PywrError>)
        ensures
            match r {
                Ok(index) => first_at(self@.node_names(), name@, index as int),
                Err(e) => e == PywrError::NodeIndexNotFound && absent(self@.node_names(), name@),
            },
    {
        let wanted: String = name.to_owned();
        let mut i: usize = 0;
        while i < self.nodes.len()
            invariant
                i <= self.nodes@.len(),
                wanted@ == name@,
                forall|j: int| 0 <= j < i ==> self@.node_names()[j] != name@,
            decreases self.nodes.len() - i,
        {
            if self.nodes[i].meta().name == wanted {
                return Ok(i);
            }
            i += 1;
        }
        Err(PywrError::NodeIndexNotFound)
    }

    /// The index of the parameter named `name`.
    pub fn get_parameter_index(&self, name: &str) -> (r: Result<ParameterIndex, PywrError>)
        ensures
            match r {
                Ok(index) => first_at(self@.parameter_names(), name@, index as int),
                Err(e) => e == PywrError::ParameterIndexNotFound && absent(
                    self@.parameter_names(),
                    name@,
                ),
            },
    {
        let wanted: String = name.to_owned();
        let mut i: usize = 0;
        while i < self.parameters.len()
            invariant
                i <= self.parameters@.len(),
                wanted@ == name@,
                forall|j: int| 0 <= j < i ==> self@.parameter_names()[j] != name@,
            decreases self.parameters.len() - i,
        {
            if self.parameters[i].name == wanted {
                return Ok(i);
            }
            i += 1;
        }
        Err(PywrError::ParameterIndexNotFound)
    }

    /// The index of the recorder named `name`.
    pub fn get_recorder_index(&self, name: &str) -> (r: Result<RecorderIndex, PywrError>)
        ensures
            match r {
                Ok(index) => first_at(self@.recorders, name@, index as int),
                Err(e) => e == PywrError::RecorderIndexNotFound && absent(self@.recorders, name@),
            },
    {
        let wanted: String = name.to_owned();
        let mut i: usize = 0;
        while i < self.recorders.len()
            invariant
                i <= self.recorders@.len(),
                wanted@ == name@,
                forall|j: int| 0 <= j < i ==> self@.recorders[j] != name@,
            decreases self.recorders.len() - i,
        {
            if self.recorders[i].name == wanted {
                return Ok(i);
            }
            i += 1;
        }
        Err(PywrError::RecorderIndexNotFound)
    }
    /// Adds a node of the given role under a name that no node has yet.
    fn add_node(&mut self, name: &str, role: Role, volume: Option<Quantity>) -> (r: Result<
        NodeIndex,
        PywrError,
    >)
        requires
            old(self).wf(),
            volume is Some <==> role is Storage,
        ensures
            final(self).wf(),
            !absent(old(self)@.node_names(), name@) ==> r is Err && final(self)@ == old(self)@,
            match r {
                Ok(index) => absent(old(self)@.node_names(), name@) && index == old(self)@.nodes.len() && final(self)@ == old(self)@.with_node(
                    NodeView::fresh(index, name@, role, volume),
                ),
                Err(e) => final(self)@ == old(self)@ && (e matches PywrError::NodeNameAlreadyExists(
                    taken,
                    index,
                ) && taken@ == name@ && first_at(old(self)@.node_names(), name@, index as int)),
            },
    {
        match self.get_node_index(name) {
            Ok(index) => {
                return Err(PywrError::NodeNameAlreadyExists(name.to_owned(), index));
            },
            Err(_) => {},
        }
        let node_index: usize = self.nodes.len();
        let node = match role {
            Role::Input => Node::new_input(node_index, name),
            Role::Link => Node::new_link(node_index, name),
            Role::Output => Node::new_output(node_index, name),
            Role::Storage => match volume {
                Some(initial_volume) => Node::new_storage(node_index, name, initial_volume),
                None => Node::new_link(node_index, name),
            },
        };
        self.nodes.push(node);
        proof {
            let fresh = NodeView::fresh(node_index, name@, role, volume);
            assert(self@.nodes =~= old(self)@.nodes.push(fresh));
            old(self)@.lemma_with_node(name@, role, volume);
        }
        Ok(node_index)
    }

    /// Adds an input named `name`. A name that a node has already is
    /// refused, and the model stays as it is.
    pub fn add_input_node(&mut self, name: &str) -> (r: Result<NodeIndex, PywrError>)
        requires
            old(self).wf(),
        ensures
            final(self).wf(),
            !absent(old(self)@.node_names(), name@) ==> r is Err && final(self)@ == old(self)@,
            match r {
                Ok(index) => absent(old(self)@.node_names(), name@) && index == old(self)@.nodes.len() && final(self)@ == old(self)@.with_node(
                    NodeView::fresh(index, name@, Role::Input, None),
                ),
                Err(e) => final(self)@ == old(self)@ && (e matches PywrError::NodeNameAlreadyExists(
                    taken,
                    index,
                ) && taken@ == name@ && first_at(old(self)@.node_names(), name@, index as int)),
            },
    {
        self.add_node(name, Role::Input, None)
    }

    /// Adds a link named `name`. A name that a node has already is refused,
    /// and the model stays as it is.
    pub fn add_link_node(&mut self, name: &str) -> (r: Result<NodeIndex, PywrError>)
        requires
            old(self).wf(),
        ensures
            final(self).wf(),
            !absent(old(self)@.node_names(), name@) ==> r is Err && final(self)@ == old(self)@,
            match r {
                Ok(index) => absent(old(self)@.node_names(), name@) && index == old(self)@.nodes.len() && final(self)@ == old(self)@.with_node(
                    NodeView::fresh(index, name@, Role::Link, None),
                ),
                Err(e) => final(self)@ == old(self)@ && (e matches PywrError::NodeNameAlreadyExists(
                    taken,
                    index,
                ) && taken@ == name@ && first_at(old(self)@.node_names(), name@, index as int)),
            },
    {
        self.add_node(name, Role::Link, None)
    }

    /// Adds an output named `name`. A name that a node has already is
    /// refused, and the model stays as it is.
    pub fn add_output_node(&mut self, name: &str) -> (r: Result<NodeIndex, PywrError>)
        requires
            old(self).wf(),
        ensures
            final(self).wf(),
            !absent(old(self)@.node_names(), name@) ==> r is Err && final(self)@ == old(self)@,
            match r {
                Ok(index) => absent(old(self)@.node_names(), name@) && index == old(self)@.nodes.len() && final(self)@ == old(self)@.with_node(
                    NodeView::fresh(index, name@, Role::Output, None),
                ),
                Err(e) => final(self)@ == old(self)@ && (e matches PywrError::NodeNameAlreadyExists(
                    taken,
                    index,
                ) && taken@ == name@ && first_at(old(self)@.node_names(), name@, index as int)),
            },
    {
        self.add_node(name, Role::Output, None)
    }

    /// Adds a storage named `name` that starts a run with the volume
    /// `initial_volume`. A name that a node has already is refused, and the
    /// model stays as it is.
    pub fn add_storage_node(&mut self, name: &str, initial_volume: Quantity) -> (r: Result<
        NodeIndex,
        PywrError,
    >)
        requires
            old(self).wf(),
        ensures
            final(self).wf(),
            !absent(old(self)@.node_names(), name@) ==> r is Err && final(self)@ == old(self)@,
            match r {
                Ok(index) => absent(old(self)@.node_names(), name@) && index == old(self)@.nodes.len() && final(self)@ == old(self)@.with_node(
                    NodeView::fresh(index, name@, Role::Storage, Some(initial_volume)),
                ),
                Err(e) => final(self)@ == old(self)@ && (e matches PywrError::NodeNameAlreadyExists(
                    taken,
                    index,
                ) && taken@ == name@ && first_at(old(self)@.node_names(), name@, index as int)),
            },
    {
        self.add_node(name, Role::Storage, Some(initial_volume))
    }

    /// Joins node `from_node_index` to node `to_node_index` by a new edge,
    /// and gives the edge's index. Where the two cannot be joined, the
    /// reason is given and the model stays as it is. Two nodes may be joined
    /// by more than one edge; each such edge is a flow of its own.
    pub fn connect_nodes(&mut self, from_node_index: NodeIndex, to_node_index: NodeIndex) -> (r:
        Result<EdgeIndex, PywrError>)
        requires
            old(self).wf(),
        ensures
            final(self).wf(),
            from_node_index == to_node_index ==> r == Err::<EdgeIndex, PywrError>(
                PywrError::InvalidNodeConnection,
            ),
            match old(self)@.connection_fault(from_node_index, to_node_index) {
                Some(e) => r == Err::<EdgeIndex, PywrError>(e) && final(self)@ == old(self)@,
                None => r == Ok::<EdgeIndex, PywrError>(old(self)@.edges.len() as usize) && final(self)@ == old(self)@.with_edge(from_node_index, to_node_index),
            },
    {
        if from_node_index == to_node_index {
            return Err(PywrError::InvalidNodeConnection);
        }
        if from_node_index >= self.nodes.len() || to_node_index >= self.nodes.len() {
            return Err(PywrError::NodeIndexNotFound);
        }
        if !self.nodes[from_node_index].can_send() || !self.nodes[to_node_index].can_receive() {
            return Err(PywrError::InvalidConnectionForRole);
        }
        let edge_index: usize = self.edges.len();
        self.nodes[from_node_index].add_outgoing_edge(edge_index)?;
        self.nodes[to_node_index].add_incoming_edge(edge_index)?;
        self.edges.push(Edge::new(from_node_index, to_node_index, edge_index));
        proof {
            let next = old(self)@.with_edge(from_node_index, to_node_index);
            assert(self@.nodes =~= next.nodes);
            assert(self@.edges =~= next.edges);
            old(self)@.lemma_with_edge(from_node_index, to_node_index);
        }
        Ok(edge_index)
    }

    /// Ties the bound `constraint` of node `node_idx` to the parameter
    /// `parameter_idx`, or to none. Where that cannot be done, the reason is
    /// given and the model stays as it is.
    pub fn set_node_constraint(
        &mut self,
        node_idx: NodeIndex,
        parameter_idx: Option<ParameterIndex>,
        constraint: Constraint,
    ) -> (r: Result<(), PywrError>)
        requires
            old(self).wf(),
        ensures
            final(self).wf(),
            match old(self)@.constraint_fault(node_idx, parameter_idx, constraint) {
                Some(e) => r == Err::<(), PywrError>(e) && final(self)@ == old(self)@,
                None => r is Ok && final(self)@ == old(self)@.with_node_at(
                    node_idx,
                    old(self)@.nodes[node_idx as int].with_bound(parameter_idx, constraint),
                ),
            },
    {
        if let Some(idx) = parameter_idx {
            if idx >= self.parameters.len() {
                return Err(PywrError::ParameterIndexNotFound);
            }
        }
        if node_idx >= self.nodes.len() {
            return Err(PywrError::NodeIndexNotFound);
        }
        let r = self.nodes[node_idx].set_constraint(parameter_idx, constraint);
        proof {
            let before = old(self)@.nodes[node_idx as int];
            assert(old(self)@.node_wf(node_idx as int));
            if before.admits(constraint) {
                let after = before.with_bound(parameter_idx, constraint);
                assert(self@.nodes =~= old(self)@.nodes.update(node_idx as int, after));
                old(self)@.lemma_with_node_at(node_idx, after);
            } else {
                assert(self@.nodes =~= old(self)@.nodes);
            }
        }
        r
    }

    /// Ties the cost of node `node_idx` to the parameter `parameter_idx`, or
    /// to none. Where that cannot be done, the reason is given and the model
    /// stays as it is.
    pub fn set_node_cost(&mut self, node_idx: NodeIndex, parameter_idx: Option<ParameterIndex>) -> (r:
        Result<(), PywrError>)
        requires
            old(self).wf(),
        ensures
            final(self).wf(),
            match old(self)@.cost_fault(node_idx, parameter_idx) {
                Some(e) => r == Err::<(), PywrError>(e) && final(self)@ == old(self)@,
                None => r is Ok && final(self)@ == old(self)@.with_node_at(
                    node_idx,
                    NodeView { cost: parameter_idx, ..old(self)@.nodes[node_idx as int] },
                ),
            },
    {
        if let Some(idx) = parameter_idx {
            if idx >= self.parameters.len() {
                return Err(PywrError::ParameterIndexNotFound);
            }
        }
        if node_idx >= self.nodes.len() {
            return Err(PywrError::NodeIndexNotFound);
        }
        self.nodes[node_idx].set_cost(parameter_idx);
        proof {
            let before = old(self)@.nodes[node_idx as int];
            let after = NodeView { cost: parameter_idx, ..before };
            assert(old(self)@.node_wf(node_idx as int));
            assert(self@.nodes =~= old(self)@.nodes.update(node_idx as int, after));
            old(self)@.lemma_with_node_at(node_idx, after);
        }
        Ok(())
    }

    /// Adds `parameter` under the name `name`, as one that reads the
    /// parameters `dependencies`, and gives its index. A name that a
    /// parameter has already is refused, and so is a dependency that is not
    /// the index of a parameter added before; the model then stays as it is.
    pub fn add_parameter_as(
        &mut self,
        name: &str,
        dependencies: Vec<ParameterIndex>,
        parameter: Box<dyn Parameter>,
    ) -> (r: Result<ParameterIndex, PywrError>)
        requires
            old(self).wf(),
        ensures
            final(self).wf(),
            !absent(old(self)@.parameter_names(), name@) ==> r is Err && final(self)@ == old(self)@,
            !all_below(dependencies@, old(self)@.parameters.len()) ==> r is Err && final(self)@
                == old(self)@,
            match r {
                Ok(index) => index == old(self)@.parameters.len() && absent(
                    old(self)@.parameter_names(),
                    name@,
                ) && all_below(dependencies@, index as nat) && final(self)@ == old(self)@.with_parameter(ParameterEntry { name: name@, dependencies: dependencies@ }),
                Err(e) => final(self)@ == old(self)@ && if absent(
                    old(self)@.parameter_names(),
                    name@,
                ) {
                    e == PywrError::ParameterIndexNotFound && !all_below(
                        dependencies@,
                        old(self)@.parameters.len(),
                    )
                } else {
                    e matches PywrError::ParameterNameAlreadyExists(taken, index) && taken@ == name@
                        && first_at(old(self)@.parameter_names(), name@, index as int)
                },
            },
    {
        match self.get_parameter_index(name) {
            Ok(index) => {
                return Err(PywrError::ParameterNameAlreadyExists(name.to_owned(), index));
            },
            Err(_) => {},
        }
        let parameter_index: usize = self.parameters.len();
        if !lies_below(&dependencies, parameter_index) {
            return Err(PywrError::ParameterIndexNotFound);
        }
        self.parameters.push(ParameterSlot::new(name.to_owned(), dependencies, parameter));
        proof {
            let entry = ParameterEntry { name: name@, dependencies: dependencies@ };
            assert(self@.parameters =~= old(self)@.parameters.push(entry));
            old(self)@.lemma_with_parameter(entry);
        }
        Ok(parameter_index)
    }

    /// Adds `parameter` under the name, and with the dependencies, that its
    /// description gives, and gives its index. It is refused as
    /// `add_parameter_as` refuses it, and the model then stays as it is.
    pub fn add_parameter(&mut self, parameter: Box<dyn Parameter>) -> (r: Result<
        ParameterIndex,
        PywrError,
    >)
        requires
            old(self).wf(),
        ensures
            final(self).wf(),
            match r {
                Ok(index) => index == old(self)@.parameters.len() && exists|entry: ParameterEntry|
                    absent(old(self)@.parameter_names(), entry.name) && all_below(
                        entry.dependencies,
                        index as nat,
                    ) && final(self)@ == old(self)@.with_parameter(entry),
                Err(e) => final(self)@ == old(self)@ && (e == PywrError::ParameterIndexNotFound || (
                e matches PywrError::ParameterNameAlreadyExists(taken, index) && first_at(
                    old(self)@.parameter_names(),
                    taken@,
                    index as int,
                ))),
            },
    {
        let meta = parameter.meta();
        let name = meta.name.clone();
        let dependencies = meta.dependencies.clone();
        let r = self.add_parameter_as(name.as_str(), dependencies, parameter);
        proof {
            if r is Ok {
                let entry = ParameterEntry { name: name@, dependencies: dependencies@ };
                assert(self@ == old(self)@.with_parameter(entry));
            }
        }
        r
    }

    /// Adds `recorder` under the name `name` and gives its index. A name
    /// that a recorder has already is refused, and the model then stays as
    /// it is.
    pub fn add_recorder_as(&mut self, name: &str, recorder: Box<dyn Recorder>) -> (r: Result<
        RecorderIndex,
        PywrError,
    >)
        requires
            old(self).wf(),
        ensures
            final(self).wf(),
            !absent(old(self)@.recorders, name@) ==> r is Err && final(self)@ == old(self)@,
            match r {
                Ok(index) => index == old(self)@.recorders.len() && absent(
                    old(self)@.recorders,
                    name@,
                ) && final(self)@ == old(self)@.with_recorder(name@),
                Err(e) => final(self)@ == old(self)@ && (
                e matches PywrError::RecorderNameAlreadyExists(taken, index) && taken@ == name@
                    && first_at(old(self)@.recorders, name@, index as int)),
            },
    {
        match self.get_recorder_index(name) {
            Ok(index) => {
                return Err(PywrError::RecorderNameAlreadyExists(name.to_owned(), index));
            },
            Err(_) => {},
        }
        let recorder_index: usize = self.recorders.len();
        self.recorders.push(RecorderSlot::new(name.to_owned(), recorder));
        proof {
            assert(self@.recorders =~= old(self)@.recorders.push(name@));
            lemma_distinct_push(old(self)@.recorders, name@);
            old(self)@.lemma_same_network(self@);
        }
        Ok(recorder_index)
    }

    /// Adds `recorder` under the name that its description gives, and gives
    /// its index. A name that a recorder has already is refused, and the
    /// model then stays as it is.
    pub fn add_recorder(&mut self, recorder: Box<dyn Recorder>) -> (r: Result<
        RecorderIndex,
        PywrError,
    >)
        requires
            old(self).wf(),
        ensures
            final(self).wf(),
            match r {
                Ok(index) => index == old(self)@.recorders.len() && exists|name: Seq<char>|
                    absent(old(self)@.recorders, name) && final(self)@ == old(self)@.with_recorder(name),
                Err(e) => final(self)@ == old(self)@ && (
                e matches PywrError::RecorderNameAlreadyExists(taken, index) && first_at(
                    old(self)@.recorders,
                    taken@,
                    index as int,
                )),
            },
    {
        let name = recorder.meta().name.clone();
        let r = self.add_recorder_as(name.as_str(), recorder);
        proof {
            if r is Ok {
                assert(self@ == old(self)@.with_recorder(name@));
            }
        }
        r
    }

    /// Adds a group of `size` scenarios named `name` after the groups that
    /// are there.
    pub fn add_scenario(&mut self, name: &str, size: usize) -> (r: Result<(), PywrError>)
        requires
            old(self).wf(),
            size >= 1,
            product(old(self)@.scenario_sizes) * size <= usize::MAX,
        ensures
            final(self).wf(),
            r is Ok,
            final(self)@ == old(self)@.with_scenario(name@, size),
    {
        self.scenarios.add_group(name, size);
        proof {
            old(self)@.lemma_same_network(self@);
        }
        Ok(())
    }
    /// The values of the parameters at one timestep of one scenario, in the
    /// order of the parameters. Each parameter is shown the values of those
    /// before it. The first failure of a parameter ends the evaluation and
    /// is handed on.
    pub fn compute_parameters(
        &self,
        timestep: &Timestep,
        scenario_index: &ScenarioIndex,
        state: &NetworkState,
    ) -> (r: Result<ParameterState, PywrError>)
        ensures
            r matches Ok(values) ==> values@.len() == self@.parameters.len(),
            self@.parameters.len() == 0 ==> r is Ok,
    {
        let mut parameter_state: Vec<Quantity> = Vec::new();
        let mut p: usize = 0;
        while p < self.parameters.len()
            invariant
                p <= self.parameters@.len(),
                parameter_state@.len() == p,
            decreases self.parameters.len() - p,
        {
            let value = self.parameters[p].parameter.compute(
                timestep,
                scenario_index,
                state,
                parameter_state.as_slice(),
            )?;
            parameter_state.push(value);
            p += 1;
        }
        Ok(parameter_state)
    }

    /// Shows a solved timestep of one scenario to the recorders, in their
    /// order. The first failure of a recorder ends the round and is handed
    /// on. The model itself stays as it is.
    pub fn save_recorders(
        &mut self,
        timestep: &Timestep,
        scenario_index: &ScenarioIndex,
        network_state: &NetworkState,
        parameter_state: &[Quantity],
    ) -> (r: Result<(), PywrError>)
        ensures
            final(self)@ == old(self)@,
            old(self)@.recorders.len() == 0 ==> r is Ok,
    {
        let mut i: usize = 0;
        while i < self.recorders.len()
            invariant
                i <= self.recorders@.len(),
                self@ == old(self)@,
            decreases self.recorders.len() - i,
        {
            let ghost before = self@;
            let saved = self.recorders[i].recorder.save(
                timestep,
                scenario_index,
                network_state,
                parameter_state,
            );
            assert(self@.recorders =~= before.recorders);
            match saved {
                Ok(()) => {},
                Err(e) => {
                    return Err(e);
                },
            }
            i += 1;
        }
        Ok(())
    }

    /// One timestep for every scenario of `scenario_indices`, in their
    /// order: the scenario's state is looked up among `current_states`, the
    /// parameters are evaluated, the solver is asked for the next state, the
    /// recorders are shown it, and it is kept. The result holds the next
    /// states in the order of the scenarios. The first failure ends the
    /// timestep and is handed on; a scenario without a state is such a
    /// failure. The model itself stays as it is.
    pub fn step(
        &mut self,
        timestep: &Timestep,
        scenario_indices: &[ScenarioIndex],
        solver: &mut Box<dyn Solver>,
        current_states: &[NetworkState],
    ) -> (r: Result<Vec<NetworkState>, PywrError>)
        requires
            old(self).wf(),
        ensures
            final(self)@ == old(self)@,
            r matches Ok(next_states) ==> next_states@.len() == scenario_indices@.len() && (
            forall|k: int|
                0 <= k < scenario_indices@.len() ==> (#[trigger] scenario_indices@[k]).index
                    < current_states@.len()),
            r matches Ok(next_states) ==> (scenario_indices@.len() == current_states@.len()
                ==> next_states@.len() == current_states@.len()),
            scenario_indices@.len() == 0 ==> r is Ok,
            scenario_indices@.len() > 0 && scenario_indices@[0].index >= current_states@.len() ==> r
                == Err::<Vec<NetworkState>, PywrError>(PywrError::ScenarioStateNotFound),
    {
        let mut next_states: Vec<NetworkState> = Vec::new();
        let mut k: usize = 0;
        while k < scenario_indices.len()
            invariant
                k <= scenario_indices@.len(),
                self@ == old(self)@,
                old(self).wf(),
                next_states@.len() == k,
                forall|j: int|
                    0 <= j < k ==> (#[trigger] scenario_indices@[j]).index < current_states@.len(),
            decreases scenario_indices.len() - k,
        {
            let scenario_index = &scenario_indices[k];
            let current_state = scenario_state(current_states, scenario_index)?;
            let parameter_state = self.compute_parameters(timestep, scenario_index, current_state)?;
            let next_state = solver.solve(
                self,
                timestep,
                current_state,
                parameter_state.as_slice(),
            )?;
            self.save_recorders(
                timestep,
                scenario_index,
                &next_state,
                parameter_state.as_slice(),
            )?;
            next_states.push(next_state);
            k += 1;
        }
        Ok(next_states)
    }

    /// Runs the model: over the timesteps of `timestepper` in order, and in
    /// each over the scenarios of `scenarios` in the order of their
    /// enumeration. Every scenario starts from the initial state, and each
    /// timestep starts from the states that the one before ended with. The
    /// solver is set up once, before the first timestep. The first failure
    /// ends the run and is handed on. The model itself stays as it is.
    pub fn run(
        &mut self,
        timestepper: Timestepper,
        scenarios: ScenarioGroupCollection,
        solver: &mut Box<dyn Solver>,
    ) -> (r: Result<(), PywrError>)
        requires
            old(self).wf(),
            timestepper.wf(),
            scenarios.wf(),
        ensures
            final(self)@ == old(self)@,
    {
        let timesteps = timestepper.timesteps();
        let scenario_indices = scenarios.scenario_indices();
        let mut current_states = self.get_initial_state(scenario_indices.as_slice());
        solver.setup(self)?;
        let mut t: usize = 0;
        while t < timesteps.len()
            invariant
                t <= timesteps@.len(),
                self@ == old(self)@,
                old(self).wf(),
                current_states@.len() == scenario_indices@.len(),
            decreases timesteps.len() - t,
        {
            let next_states = self.step(
                &timesteps[t],
                scenario_indices.as_slice(),
                solver,
                current_states.as_slice(),
            )?;
            current_states = next_states;
            t += 1;
        }
        Ok(())
    }
}

} // verus!
