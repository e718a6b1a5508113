//! Simulation of flow and storage over a directed network, one timestep at a
//! time and once for every scenario.
//!
//! A [`Model`] owns the nodes, the edges, the parameters and the recorders of a
//! network. Its run loop evaluates the parameters in the order in which they
//! were added, hands the network to a [`Solver`], and shows the solved state to
//! the recorders.
//!
//! Real numbers travel through the library as [`Quantity`] values, which it
//! stores and moves and never computes with: arithmetic on them belongs to the
//! solver, the parameters and the recorders that the embedding program brings.
pub mod edge;
pub mod error;
pub mod lp;
pub mod metric;
pub mod model;
pub mod node;
pub mod parameters;
pub mod quantity;
pub mod recorders;
pub mod scenario;
pub mod solvers;
pub mod state;
pub mod timestep;

pub use edge::{Edge, EdgeIndex};
pub use error::PywrError;
pub use metric::Metric;
pub use model::Model;
pub use node::{Constraint, Node, NodeIndex, ParameterIndex, Role};
pub use parameters::{Parameter, ParameterMeta};
pub use quantity::Quantity;
pub use recorders::{Recorder, RecorderIndex, RecorderMeta};
pub use scenario::{ScenarioGroup, ScenarioGroupCollection, ScenarioIndex};
pub use solvers::Solver;
pub use state::{EdgeState, FlowState, NetworkState, NodeState, ParameterState, StorageState};
pub use timestep::{Timestep, TimestepIndex, Timestepper};
