//! The solver: the engine that finds the flows of one timestep.
//!
//! The library does not solve anything itself. It hands a solver the model,
//! the timestep, the state with which the timestep begins and the values of the
//! parameters, and takes the state with which the timestep ends.
use vstd::prelude::*;
use crate::error::PywrError;
use crate::model::Model;
use crate::quantity::Quantity;
use crate::state::NetworkState;
use crate::timestep::Timestep;

verus! {

/// What a solver does for a run. It is set up once, before the first
/// timestep, and then asked to solve every timestep of every scenario. The
/// model that it is shown is always in order, and when it is asked to solve,
/// every parameter of the model has a value.
pub trait Solver {
    fn setup(&mut self, model: &Model) -> Result<(), PywrError>
        requires
            model.wf(),
    ;

    fn solve(
        &mut self,
        model: &Model,
        timestep: &Timestep,
        network_state: &NetworkState,
        parameter_state: &[Quantity],
    ) -> Result<NetworkState, PywrError>
        requires
            model.wf(),
            parameter_state@.len() == model@.parameters.len(),
    ;
}

} // verus!
