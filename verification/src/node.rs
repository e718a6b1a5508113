//! The nodes of a network.
//!
//! A node has one of four roles. An input sends flow into the network and
//! receives none; an output receives flow and sends none; a link passes on
//! what it receives; a storage keeps a volume from one timestep to the next.
//! Bounds and costs are not numbers but references to parameters, which give
//! them their value anew at every timestep.
use vstd::prelude::*;
use crate::edge::EdgeIndex;
use crate::error::PywrError;
use crate::quantity::Quantity;

verus! {

/// The position of a node in the model's list of nodes.
pub type NodeIndex = usize;

/// The position of a parameter in the model's list of parameters.
pub type ParameterIndex = usize;

/// The four roles of a node.
#[derive(Clone, Copy, Debug, PartialEq, Eq)]
pub enum Role {
    Input,
    Link,
    Output,
    Storage,
}

/// The bounds that a node can have. Flow bounds belong to inputs, links and
/// outputs, volume bounds to storage nodes.
#[derive(Clone, Copy, Debug, PartialEq, Eq)]
pub enum Constraint {
    MinFlow,
    MaxFlow,
    MinVolume,
    MaxVolume,
}

impl Constraint {
    /// Whether the bound is one on flow.
    pub open spec fn on_flow(self) -> bool {
        self is MinFlow || self is MaxFlow
    }
}

/// What identifies a node: its index and its name.
#[derive(Debug)]
pub struct NodeMeta {
    pub index: NodeIndex,
    pub name: String,
}

/// The parameters that bound the flow through a node.
#[derive(Clone, Copy, Debug)]
pub struct FlowConstraints {
    pub min_flow: Option<ParameterIndex>,
    pub max_flow: Option<ParameterIndex>,
}

/// The parameters that bound the volume of a storage node.
#[derive(Clone, Copy, Debug)]
pub struct StorageConstraints {
    pub min_volume: Option<ParameterIndex>,
    pub max_volume: Option<ParameterIndex>,
}

#[derive(Debug)]
pub struct InputNode {
    pub meta: NodeMeta,
    pub cost: Option<ParameterIndex>,
    pub flow_constraints: FlowConstraints,
    pub outgoing_edges: Vec<EdgeIndex>,
}

#[derive(Debug)]
pub struct LinkNode {
    pub meta: NodeMeta,
    pub cost: Option<ParameterIndex>,
    pub flow_constraints: FlowConstraints,
    pub incoming_edges: Vec<EdgeIndex>,
    pub outgoing_edges: Vec<EdgeIndex>,
}

#[derive(Debug)]
pub struct OutputNode {
    pub meta: NodeMeta,
    pub cost: Option<ParameterIndex>,
    pub flow_constraints: FlowConstraints,
    pub incoming_edges: Vec<EdgeIndex>,
}

#[derive(Debug)]
pub struct StorageNode {
    pub meta: NodeMeta,
    pub cost: Option<ParameterIndex>,
    pub initial_volume: Quantity,
    pub storage_constraints: StorageConstraints,
    pub incoming_edges: Vec<EdgeIndex>,
    pub outgoing_edges: Vec<EdgeIndex>,
}

/// A node of the network, by its role.
#[derive(Debug)]
pub enum Node {
    Input(InputNode),
    Link(LinkNode),
    Output(OutputNode),
    Storage(StorageNode),
}

/// What a node is, role by role laid flat: a role that lacks a field has it
/// empty.
pub struct NodeView {
    pub index: NodeIndex,
    pub name: Seq<char>,
    pub role: Role,
    pub incoming: Seq<EdgeIndex>,
    pub outgoing: Seq<EdgeIndex>,
    pub cost: Option<ParameterIndex>,
    pub min_flow: Option<ParameterIndex>,
    pub max_flow: Option<ParameterIndex>,
    pub min_volume: Option<ParameterIndex>,
    pub max_volume: Option<ParameterIndex>,
    pub initial_volume: Option<Quantity>,
}

impl NodeView {
    /// A node without edges, bounds or cost.
    pub open spec fn fresh(
        index: NodeIndex,
        name: Seq<char>,
        role: Role,
        initial_volume: Option<Quantity>,
    ) -> NodeView {
        NodeView {
            index,
            name,
            role,
            incoming: Seq::empty(),
            outgoing: Seq::empty(),
            cost: None,
            min_flow: None,
            max_flow: None,
            min_volume: None,
            max_volume: None,
            initial_volume,
        }
    }

    /// Whether a node of this role can have the bound `constraint`.
    pub open spec fn admits(self, constraint: Constraint) -> bool {
        constraint.on_flow() <==> !(self.role is Storage)
    }

    /// The parameter that the bound `constraint` is tied to, if any.
    pub open spec fn bound(self, constraint: Constraint) -> Option<ParameterIndex> {
        match constraint {
            Constraint::MinFlow => self.min_flow,
            Constraint::MaxFlow => self.max_flow,
            Constraint::MinVolume => self.min_volume,
            Constraint::MaxVolume => self.max_volume,
        }
    }

    /// The node with the bound `constraint` tied to `value`.
    pub open spec fn with_bound(self, value: Option<ParameterIndex>, constraint: Constraint)
        -> NodeView {
        match constraint {
            Constraint::MinFlow => NodeView { min_flow: value, ..self },
            Constraint::MaxFlow => NodeView { max_flow: value, ..self },
            Constraint::MinVolume => NodeView { min_volume: value, ..self },
            Constraint::MaxVolume => NodeView { max_volume: value, ..self },
        }
    }

    /// Every parameter that the node refers to lies below `count`.
    pub open spec fn refers_below(self, count: nat) -> bool {
        &&& self.cost matches Some(p) ==> p < count
        &&& self.min_flow matches Some(p) ==> p < count
        &&& self.max_flow matches Some(p) ==> p < count
        &&& self.min_volume matches Some(p) ==> p < count
        &&& self.max_volume matches Some(p) ==> p < count
    }

    /// What a role rules out: an input receives no edge, an output sends
    /// none, only a storage has volume bounds and an initial volume, and a
    /// storage has no flow bounds.
    pub open spec fn fits_role(self) -> bool {
        &&& self.role is Input ==> self.incoming.len() == 0
        &&& self.role is Output ==> self.outgoing.len() == 0
        &&& self.role is Storage ==> self.min_flow is None && self.max_flow is None
        &&& !(self.role is Storage) ==> self.min_volume is None && self.max_volume is None
        &&& self.role is Storage <==> self.initial_volume is Some
    }
}

/// The value that a parameter reference has under the parameter values
/// `values`: `Ok(None)` where nothing is referred to, and a failure where the
/// reference has no value.
pub open spec fn resolved(reference: Option<ParameterIndex>, values: Seq<Quantity>) -> Result<
    Option<Quantity>,
    PywrError,
> {
    match reference {
        None => Ok(None),
        Some(p) => if p < values.len() {
            Ok(Some(values[p as int]))
        } else {
            Err(PywrError::ParameterIndexNotFound)
        },
    }
}

/// `resolved`, with `default` in place of a missing reference.
pub open spec fn resolved_or(
    reference: Option<ParameterIndex>,
    values: Seq<Quantity>,
    default: Quantity,
) -> Result<Quantity, PywrError> {
    match resolved(reference, values) {
        Ok(Some(value)) => Ok(value),
        Ok(None) => Ok(default),
        Err(e) => Err(e),
    }
}

/// Looks a parameter reference up in the parameter values.
pub fn resolve(reference: Option<ParameterIndex>, values: &[Quantity]) -> (r: Result<
    Option<Quantity>,
    PywrError,
>)
    ensures
        r == resolved(reference, values@),
{
    match reference {
        None => Ok(None),
        Some(p) => if p < values.len() {
            Ok(Some(values[p]))
        } else {
            Err(PywrError::ParameterIndexNotFound)
        },
    }
}

/// Looks a parameter reference up in the parameter values, with a default for
/// a missing reference.
pub fn resolve_or(reference: Option<ParameterIndex>, values: &[Quantity], default: Quantity) -> (r:
    Result<Quantity, PywrError>)
    ensures
        r == resolved_or(reference, values@, default),
{
    match resolve(reference, values) {
        Ok(Some(value)) => Ok(value),
        Ok(None) => Ok(default),
        Err(e) => Err(e),
    }
}

/// A list of the same edges in the same order.
fn copy_of(edges: &Vec<EdgeIndex>) -> (copy: Vec<EdgeIndex>)
    ensures
        copy@ == edges@,
{
    let mut copy: Vec<EdgeIndex> = Vec::new();
    let mut k: usize = 0;
    while k < edges.len()
        invariant
            k <= edges@.len(),
            copy@ == edges@.take(k as int),
        decreases edges.len() - k,
    {
        copy.push(edges[k]);
        assert(edges@.take(k as int + 1) =~= edges@.take(k as int).push(edges@[k as int]));
        k += 1;
    }
    assert(edges@.take(k as int) =~= edges@);
    copy
}

impl View for Node {
    type V = NodeView;

    open spec fn view(&self) -> NodeView {
        match self {
            Node::Input(n) => NodeView {
                index: n.meta.index,
                name: n.meta.name@,
                role: Role::Input,
                incoming: Seq::empty(),
                outgoing: n.outgoing_edges@,
                cost: n.cost,
                min_flow: n.flow_constraints.min_flow,
                max_flow: n.flow_constraints.max_flow,
                min_volume: None,
                max_volume: None,
                initial_volume: None,
            },
            Node::Link(n) => NodeView {
                index: n.meta.index,
                name: n.meta.name@,
                role: Role::Link,
                incoming: n.incoming_edges@,
                outgoing: n.outgoing_edges@,
                cost: n.cost,
                min_flow: n.flow_constraints.min_flow,
                max_flow: n.flow_constraints.max_flow,
                min_volume: None,
                max_volume: None,
                initial_volume: None,
            },
            Node::Output(n) => NodeView {
                index: n.meta.index,
                name: n.meta.name@,
                role: Role::Output,
                incoming: n.incoming_edges@,
                outgoing: Seq::empty(),
                cost: n.cost,
                min_flow: n.flow_constraints.min_flow,
                max_flow: n.flow_constraints.max_flow,
                min_volume: None,
                max_volume: None,
                initial_volume: None,
            },
            Node::Storage(n) => NodeView {
                index: n.meta.index,
                name: n.meta.name@,
                role: Role::Storage,
                incoming: n.incoming_edges@,
                outgoing: n.outgoing_edges@,
                cost: n.cost,
                min_flow: None,
                max_flow: None,
                min_volume: n.storage_constraints.min_volume,
                max_volume: n.storage_constraints.max_volume,
                initial_volume: Some(n.initial_volume),
            },
        }
    }
}

impl Node {
    /// An input named `name`, without edges, bounds or cost.
    pub fn new_input(node_index: NodeIndex, name: &str) -> (node: Node)
        ensures
            node@ == NodeView::fresh(node_index, name@, Role::Input, None),
    {
        Node::Input(
            InputNode {
                meta: NodeMeta { index: node_index, name: name.to_owned() },
                cost: None,
                flow_constraints: FlowConstraints { min_flow: None, max_flow: None },
                outgoing_edges: Vec::new(),
            },
        )
    }

    /// A link named `name`, without edges, bounds or cost.
    pub fn new_link(node_index: NodeIndex, name: &str) -> (node: Node)
        ensures
            node@ == NodeView::fresh(node_index, name@, Role::Link, None),
    {
        Node::Link(
            LinkNode {
                meta: NodeMeta { index: node_index, name: name.to_owned() },
                cost: None,
                flow_constraints: FlowConstraints { min_flow: None, max_flow: None },
                incoming_edges: Vec::new(),
                outgoing_edges: Vec::new(),
            },
        )
    }

    /// An output named `name`, without edges, bounds or cost.
    pub fn new_output(node_index: NodeIndex, name: &str) -> (node: Node)
        ensures
            node@ == NodeView::fresh(node_index, name@, Role::Output, None),
    {
        Node::Output(
            OutputNode {
                meta: NodeMeta { index: node_index, name: name.to_owned() },
                cost: None,
                flow_constraints: FlowConstraints { min_flow: None, max_flow: None },
                incoming_edges: Vec::new(),
            },
        )
    }

    /// A storage named `name` that starts a run with the volume
    /// `initial_volume`, without edges, bounds or cost.
    pub fn new_storage(node_index: NodeIndex, name: &str, initial_volume: Quantity) -> (node: Node)
        ensures
            node@ == NodeView::fresh(node_index, name@, Role::Storage, Some(initial_volume)),
    {
        Node::Storage(
            StorageNode {
                meta: NodeMeta { index: node_index, name: name.to_owned() },
                cost: None,
                initial_volume,
                storage_constraints: StorageConstraints { min_volume: None, max_volume: None },
                incoming_edges: Vec::new(),
                outgoing_edges: Vec::new(),
            },
        )
    }

    /// A node's view fits its role, whatever the node.
    pub proof fn lemma_fits_role(&self)
        ensures
            self@.fits_role(),
    {
    }

    /// What identifies the node.
    pub fn meta(&self) -> (meta: &NodeMeta)
        ensures
            meta.index == self@.index,
            meta.name@ == self@.name,
    {
        match self {
            Node::Input(n) => &n.meta,
            Node::Link(n) => &n.meta,
            Node::Output(n) => &n.meta,
            Node::Storage(n) => &n.meta,
        }
    }

    /// The node's name.
    pub fn name(&self) -> (name: &str)
        ensures
            name@ == self@.name,
    {
        self.meta().name.as_str()
    }

    /// The node's index.
    pub fn index(&self) -> (index: NodeIndex)
        ensures
            index == self@.index,
    {
        self.meta().index
    }

    /// The node's role.
    pub fn role(&self) -> (role: Role)
        ensures
            role == self@.role,
    {
        match self {
            Node::Input(_) => Role::Input,
            Node::Link(_) => Role::Link,
            Node::Output(_) => Role::Output,
            Node::Storage(_) => Role::Storage,
        }
    }

    /// The volume with which a storage starts a run; `None` for another node.
    pub fn initial_volume(&self) -> (volume: Option<Quantity>)
        ensures
            volume == self@.initial_volume,
    {
        match self {
            Node::Storage(n) => Some(n.initial_volume),
            _ => None,
        }
    }

    /// The edges that end at the node, in the order in which they were added.
    pub fn get_incoming_edges(&self) -> (edges: Vec<EdgeIndex>)
        ensures
            edges@ == self@.incoming,
    {
        match self {
            Node::Input(_) => Vec::new(),
            Node::Link(n) => copy_of(&n.incoming_edges),
            Node::Output(n) => copy_of(&n.incoming_edges),
            Node::Storage(n) => copy_of(&n.incoming_edges),
        }
    }

    /// The edges that start at the node, in the order in which they were added.
    pub fn get_outgoing_edges(&self) -> (edges: Vec<EdgeIndex>)
        ensures
            edges@ == self@.outgoing,
    {
        match self {
            Node::Input(n) => copy_of(&n.outgoing_edges),
            Node::Link(n) => copy_of(&n.outgoing_edges),
            Node::Output(_) => Vec::new(),
            Node::Storage(n) => copy_of(&n.outgoing_edges),
        }
    }

    /// Whether the node can be the end of an edge: an input cannot.
    pub fn can_receive(&self) -> (yes: bool)
        ensures
            yes == !(self@.role is Input),
    {
        match self {
            Node::Input(_) => false,
            _ => true,
        }
    }

    /// Whether the node can be the start of an edge: an output cannot.
    pub fn can_send(&self) -> (yes: bool)
        ensures
            yes == !(self@.role is Output),
    {
        match self {
            Node::Output(_) => false,
            _ => true,
        }
    }

    /// Notes `edge` as one that ends at the node. An input refuses it.
    pub fn add_incoming_edge(&mut self, edge: EdgeIndex) -> (r: Result<(), PywrError>)
        ensures
            old(self)@.role is Input ==> r == Err::<(), PywrError>(
                PywrError::InvalidConnectionForRole,
            ) && final(self)@ == old(self)@,
            !(old(self)@.role is Input) ==> r is Ok && final(self)@ == (NodeView {
                incoming: old(self)@.incoming.push(edge),
                ..old(self)@
            }),
    {
        match self {
            Node::Input(_) => Err(PywrError::InvalidConnectionForRole),
            Node::Link(n) => {
                n.incoming_edges.push(edge);
                Ok(())
            },
            Node::Output(n) => {
                n.incoming_edges.push(edge);
                Ok(())
            },
            Node::Storage(n) => {
                n.incoming_edges.push(edge);
                Ok(())
            },
        }
    }

    /// Notes `edge` as one that starts at the node. An output refuses it.
    pub fn add_outgoing_edge(&mut self, edge: EdgeIndex) -> (r: Result<(), PywrError>)
        ensures
            old(self)@.role is Output ==> r == Err::<(), PywrError>(
                PywrError::InvalidConnectionForRole,
            ) && final(self)@ == old(self)@,
            !(old(self)@.role is Output) ==> r is Ok && final(self)@ == (NodeView {
                outgoing: old(self)@.outgoing.push(edge),
                ..old(self)@
            }),
    {
        match self {
            Node::Input(n) => {
                n.outgoing_edges.push(edge);
                Ok(())
            },
            Node::Link(n) => {
                n.outgoing_edges.push(edge);
                Ok(())
            },
            Node::Output(_) => Err(PywrError::InvalidConnectionForRole),
            Node::Storage(n) => {
                n.outgoing_edges.push(edge);
                Ok(())
            },
        }
    }

    /// Ties the node's cost to the parameter `value`, or to none.
    pub fn set_cost(&mut self, value: Option<ParameterIndex>)
        ensures
            final(self)@ == (NodeView { cost: value, ..old(self)@ }),
    {
        match self {
            Node::Input(n) => {
                n.cost = value;
            },
            Node::Link(n) => {
                n.cost = value;
            },
            Node::Output(n) => {
                n.cost = value;
            },
            Node::Storage(n) => {
                n.cost = value;
            },
        }
    }

    /// Ties the bound `constraint` to the parameter `value`, or to none. A
    /// volume bound on a node that stores nothing, and a flow bound on a
    /// storage, are refused and leave the node as it was.
    pub fn set_constraint(&mut self, value: Option<ParameterIndex>, constraint: Constraint) -> (r:
        Result<(), PywrError>)
        ensures
            old(self)@.admits(constraint) ==> r is Ok && final(self)@ == old(self)@.with_bound(
                value,
                constraint,
            ),
            !old(self)@.admits(constraint) ==> final(self)@ == old(self)@ && r == Err::<
                (),
                PywrError,
            >(
                if constraint.on_flow() {
                    PywrError::FlowConstraintsUndefined
                } else {
                    PywrError::StorageConstraintsUndefined
                },
            ),
    {
        match self {
            Node::Input(n) => Self::set_flow_constraint(&mut n.flow_constraints, value, constraint),
            Node::Link(n) => Self::set_flow_constraint(&mut n.flow_constraints, value, constraint),
            Node::Output(n) => Self::set_flow_constraint(
                &mut n.flow_constraints,
                value,
                constraint,
            ),
            Node::Storage(n) => match constraint {
                Constraint::MinVolume => {
                    n.storage_constraints.min_volume = value;
                    Ok(())
                },
                Constraint::MaxVolume => {
                    n.storage_constraints.max_volume = value;
                    Ok(())
                },
                _ => Err(PywrError::FlowConstraintsUndefined),
            },
        }
    }

    fn set_flow_constraint(
        constraints: &mut FlowConstraints,
        value: Option<ParameterIndex>,
        constraint: Constraint,
    ) -> (r: Result<(), PywrError>)
        ensures
            match constraint {
                Constraint::MinFlow => r is Ok && *final(constraints) == (FlowConstraints {
                    min_flow: value,
                    ..*old(constraints)
                }),
                Constraint::MaxFlow => r is Ok && *final(constraints) == (FlowConstraints {
                    max_flow: value,
                    ..*old(constraints)
                }),
                _ => r == Err::<(), PywrError>(PywrError::StorageConstraintsUndefined)
                    && *final(constraints) == *old(constraints),
            },
    {
        match constraint {
            Constraint::MinFlow => {
                constraints.min_flow = value;
                Ok(())
            },
            Constraint::MaxFlow => {
                constraints.max_flow = value;
                Ok(())
            },
            _ => Err(PywrError::StorageConstraintsUndefined),
        }
    }

    /// The cost of a unit of flow through the node under the parameter values
    /// `values`: zero where the cost is tied to no parameter.
    pub fn get_current_cost(&self, values: &[Quantity]) -> (r: Result<Quantity, PywrError>)
        ensures
            r == resolved_or(self@.cost, values@, Quantity::spec_zero()),
    {
        let cost = match self {
            Node::Input(n) => n.cost,
            Node::Link(n) => n.cost,
            Node::Output(n) => n.cost,
            Node::Storage(n) => n.cost,
        };
        resolve_or(cost, values, Quantity::zero())
    }

    /// The least flow through the node under the parameter values `values`:
    /// zero where the bound is tied to no parameter. A storage has no such
    /// bound.
    pub fn get_current_min_flow(&self, values: &[Quantity]) -> (r: Result<Quantity, PywrError>)
        ensures
            r == if self@.role is Storage {
                Err(PywrError::FlowConstraintsUndefined)
            } else {
                resolved_or(self@.min_flow, values@, Quantity::spec_zero())
            },
    {
        match self {
            Node::Input(n) => resolve_or(n.flow_constraints.min_flow, values, Quantity::zero()),
            Node::Link(n) => resolve_or(n.flow_constraints.min_flow, values, Quantity::zero()),
            Node::Output(n) => resolve_or(n.flow_constraints.min_flow, values, Quantity::zero()),
            Node::Storage(_) => Err(PywrError::FlowConstraintsUndefined),
        }
    }

    /// The greatest flow through the node under the parameter values
    /// `values`: infinite where the bound is tied to no parameter. A storage
    /// has no such bound.
    pub fn get_current_max_flow(&self, values: &[Quantity]) -> (r: Result<Quantity, PywrError>)
        ensures
            r == if self@.role is Storage {
                Err(PywrError::FlowConstraintsUndefined)
            } else {
                resolved_or(self@.max_flow, values@, Quantity::spec_infinity())
            },
    {
        match self {
            Node::Input(n) => resolve_or(
                n.flow_constraints.max_flow,
                values,
                Quantity::infinity(),
            ),
            Node::Link(n) => resolve_or(n.flow_constraints.max_flow, values, Quantity::infinity()),
            Node::Output(n) => resolve_or(
                n.flow_constraints.max_flow,
                values,
                Quantity::infinity(),
            ),
            Node::Storage(_) => Err(PywrError::FlowConstraintsUndefined),
        }
    }

    /// The least volume of a storage under the parameter values `values`, or
    /// `None` where the bound is tied to no parameter. Other nodes have no
    /// such bound.
    pub fn get_current_min_volume(&self, values: &[Quantity]) -> (r: Result<
        Option<Quantity>,
        PywrError,
    >)
        ensures
            r == if self@.role is Storage {
                resolved(self@.min_volume, values@)
            } else {
                Err(PywrError::StorageConstraintsUndefined)
            },
    {
        match self {
            Node::Storage(n) => resolve(n.storage_constraints.min_volume, values),
            _ => Err(PywrError::StorageConstraintsUndefined),
        }
    }

    /// The greatest volume of a storage under the parameter values `values`,
    /// or `None` where the bound is tied to no parameter. Other nodes have no
    /// such bound.
    pub fn get_current_max_volume(&self, values: &[Quantity]) -> (r: Result<
        Option<Quantity>,
        PywrError,
    >)
        ensures
            r == if self@.role is Storage {
                resolved(self@.max_volume, values@)
            } else {
                Err(PywrError::StorageConstraintsUndefined)
            },
    {
        match self {
            Node::Storage(n) => resolve(n.storage_constraints.max_volume, values),
            _ => Err(PywrError::StorageConstraintsUndefined),
        }
    }
}

} // verus!
