//! The failures that the library reports.
use vstd::prelude::*;
use crate::quantity::Quantity;

verus! {

/// Every way in which building or running a model can fail.
#[derive(Clone, Debug, PartialEq)]
pub enum PywrError {
    /// No node has the index, or the name, that was asked for.
    NodeIndexNotFound,
    /// No edge has the index that was asked for.
    EdgeIndexNotFound,
    /// A node of this name exists already, at the given index.
    NodeNameAlreadyExists(String, usize),
    /// No parameter has the index, or the name, that was asked for.
    ParameterIndexNotFound,
    /// A parameter of this name exists already, at the given index.
    ParameterNameAlreadyExists(String, usize),
    /// No recorder has the index, or the name, that was asked for.
    RecorderIndexNotFound,
    /// A recorder of this name exists already, at the given index.
    RecorderNameAlreadyExists(String, usize),
    /// A node cannot be connected to itself.
    InvalidNodeConnection,
    /// An input cannot receive an edge, and an output cannot send one.
    InvalidConnectionForRole,
    /// Volume bounds exist on storage nodes only.
    StorageConstraintsUndefined,
    /// Flow bounds do not exist on storage nodes.
    FlowConstraintsUndefined,
    /// The metric asks a node for what its role does not have.
    MetricNotDefinedForNode,
    /// A series has no value for the timestep.
    TimestepIndexOutOfRange,
    /// A date could not be read in the given format.
    InvalidDate,
    /// A scenario's index has no state in the list of states.
    ScenarioStateNotFound,
    SolverSetupFailed,
    SolverInfeasible,
    SolverUnbounded,
    SolverNumeric,
    /// A parameter hosted outside the library failed, with its message.
    ExternalParameterError(String),
    /// A recorder saw a value other than the expected one: its name, the
    /// timestep's index, the scenario's index, the expected and the seen value.
    AssertionFailed(String, usize, usize, Quantity, Quantity),
}

} // verus!
