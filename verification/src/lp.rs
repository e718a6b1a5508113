//! The linear program of a timestep, as far as the network alone decides it.
//!
//! The program has one column for each edge: the flow along the edge, which
//! is never negative. It has one row for each node, which sums the flows of
//! the edges that end at the node and of those that start at it. What a row
//! asks of the two sums depends on the node's role. The program minimises the
//! cost of the flows: every column pays the cost of the nodes through which
//! its flow is counted.
//!
//! The numbers of the program, its bounds and its costs, change with every
//! timestep and are the solver's to fill in.
use vstd::prelude::*;
use crate::edge::EdgeIndex;
use crate::model::{Model, ModelView};
use crate::node::{NodeIndex, Role};

verus! {

/// What a row asks of the flows that enter and leave its node.
#[derive(Clone, Copy, Debug, PartialEq, Eq)]
pub enum RowKind {
    /// The row of an input: what leaves lies between the node's flow bounds.
    Supply,
    /// The row of a link: what enters is what leaves.
    Conservation,
    /// The row of an output: what enters lies between the node's flow bounds.
    Demand,
    /// The row of a storage: what enters less what leaves, times the length
    /// of the timestep, is what the volume changes by, and the volume stays
    /// between the node's volume bounds.
    Storage,
}

impl RowKind {
    /// The kind of row that a node of the given role has.
    pub open spec fn spec_of(role: Role) -> RowKind {
        match role {
            Role::Input => RowKind::Supply,
            Role::Link => RowKind::Conservation,
            Role::Output => RowKind::Demand,
            Role::Storage => RowKind::Storage,
        }
    }

    /// The kind of row that a node of the given role has.
    pub fn of(role: Role) -> (kind: RowKind)
        ensures
            kind == Self::spec_of(role),
    {
        match role {
            Role::Input => RowKind::Supply,
            Role::Link => RowKind::Conservation,
            Role::Output => RowKind::Demand,
            Role::Storage => RowKind::Storage,
        }
    }
}

/// The row of one node: the columns that enter the node and those that leave
/// it.
#[derive(Clone, Debug, PartialEq, Eq)]
pub struct Row {
    pub node: NodeIndex,
    pub kind: RowKind,
    pub incoming: Vec<EdgeIndex>,
    pub outgoing: Vec<EdgeIndex>,
}

/// The part of the program that stays the same from timestep to timestep.
#[derive(Clone, Debug, PartialEq, Eq)]
pub struct Skeleton {
    /// The number of columns.
    pub columns: usize,
    /// The rows, in the order of the nodes.
    pub rows: Vec<Row>,
    /// For each column, the nodes whose cost its flow pays.
    pub priced_by: Vec<Vec<NodeIndex>>,
}

/// The nodes whose cost the flow along edge `e` pays: the node at which the
/// edge starts, and the node at which it ends if that is an output.
pub open spec fn payers(model: ModelView, e: int) -> Seq<NodeIndex> {
    let edge = model.edges[e];
    if model.nodes[edge.to_node_index as int].role is Output {
        seq![edge.from_node_index, edge.to_node_index]
    } else {
        seq![edge.from_node_index]
    }
}

impl ModelView {
    /// In a model that is in order, an edge leaves the node at which it
    /// starts and no other, and enters the node at which it ends and no
    /// other: a column stands in the row of its two ends alone.
    pub proof fn lemma_edge_in_two_rows(self, e: EdgeIndex, i: int)
        requires
            self.wf(),
            e < self.edges.len(),
            0 <= i < self.nodes.len(),
        ensures
            self.nodes[i].outgoing.contains(e) <==> self.edges[e as int].from_node_index == i,
            self.nodes[i].incoming.contains(e) <==> self.edges[e as int].to_node_index == i,
    {
        assert(self.edge_wf(e as int));
        assert(self.node_wf(i));
        let node = self.nodes[i];
        if node.outgoing.contains(e) {
            let k = choose|k: int| 0 <= k < node.outgoing.len() && node.outgoing[k] == e;
            assert(self.starts_at(node.outgoing[k], i));
        }
        if node.incoming.contains(e) {
            let k = choose|k: int| 0 <= k < node.incoming.len() && node.incoming[k] == e;
            assert(self.ends_at(node.incoming[k], i));
        }
    }
}

impl Skeleton {
    /// The skeleton is that of the program of `model`.
    pub open spec fn describes(&self, model: ModelView) -> bool {
        &&& self.columns == model.edges.len()
        &&& self.rows@.len() == model.nodes.len()
        &&& forall|i: int|
            0 <= i < self.rows@.len() ==> {
                let row = #[trigger] self.rows@[i];
                &&& row.node == i
                &&& row.kind == RowKind::spec_of(model.nodes[i].role)
                &&& row.incoming@ == model.nodes[i].incoming
                &&& row.outgoing@ == model.nodes[i].outgoing
            }
        &&& self.priced_by@.len() == model.edges.len()
        &&& forall|e: int|
            0 <= e < self.priced_by@.len() ==> (#[trigger] self.priced_by@[e])@ == payers(model, e)
    }

    /// The skeleton of the program of `model`.
    pub fn new(model: &Model) -> (skeleton: Skeleton)
        requires
            model.wf(),
        ensures
            skeleton.describes(model@),
    {
        let nodes = model.nodes();
        let edges = model.edges();
        let mut rows: Vec<Row> = Vec::new();
        let mut i: usize = 0;
        while i < nodes.len()
            invariant
                i <= nodes@.len(),
                nodes@.len() == model@.nodes.len(),
                forall|j: int| 0 <= j < nodes@.len() ==> (#[trigger] nodes@[j])@ == model@.nodes[j],
                rows@.len() == i,
                forall|j: int|
                    0 <= j < i ==> {
                        let row = #[trigger] rows@[j];
                        &&& row.node == j
                        &&& row.kind == RowKind::spec_of(model@.nodes[j].role)
                        &&& row.incoming@ == model@.nodes[j].incoming
                        &&& row.outgoing@ == model@.nodes[j].outgoing
                    },
            decreases nodes.len() - i,
        {
            let node = &nodes[i];
            rows.push(
                Row {
                    node: i,
                    kind: RowKind::of(node.role()),
                    incoming: node.get_incoming_edges(),
                    outgoing: node.get_outgoing_edges(),
                },
            );
            i += 1;
        }
        let mut priced_by: Vec<Vec<NodeIndex>> = Vec::new();
        let mut e: usize = 0;
        while e < edges.len()
            invariant
                e <= edges@.len(),
                model.wf(),
                edges@ == model@.edges,
                nodes@.len() == model@.nodes.len(),
                forall|j: int| 0 <= j < nodes@.len() ==> (#[trigger] nodes@[j])@ == model@.nodes[j],
                priced_by@.len() == e,
                forall|j: int| 0 <= j < e ==> (#[trigger] priced_by@[j])@ == payers(model@, j),
            decreases edges.len() - e,
        {
            let edge = edges[e];
            assert(model@.edge_wf(e as int));
            let mut nodes_paid: Vec<NodeIndex> = Vec::new();
            nodes_paid.push(edge.from_node_index);
            match nodes[edge.to_node_index].role() {
                Role::Output => {
                    nodes_paid.push(edge.to_node_index);
                },
                _ => {},
            }
            assert(nodes_paid@ =~= payers(model@, e as int));
            priced_by.push(nodes_paid);
            e += 1;
        }
        Skeleton { columns: edges.len(), rows, priced_by }
    }
}

} // verus!
