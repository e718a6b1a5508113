//! Parameters: the named producers of the numbers that bound and price the
//! flows, evaluated anew at every timestep of every scenario.
//!
//! The parameters of a model are evaluated in the order in which they were
//! added, and each sees the values of those before it. A parameter names the
//! earlier parameters that it reads in its [`ParameterMeta`].
use vstd::prelude::*;
use crate::error::PywrError;
use crate::node::ParameterIndex;
use crate::quantity::Quantity;
use crate::scenario::ScenarioIndex;
use crate::state::NetworkState;
use crate::timestep::Timestep;

verus! {

/// What a model needs to know of a parameter: its name, and the parameters
/// whose values it reads.
#[derive(Clone, Debug, PartialEq, Eq)]
pub struct ParameterMeta {
    pub name: String,
    pub dependencies: Vec<ParameterIndex>,
}

impl ParameterMeta {
    /// The description of a parameter that reads no other.
    pub fn new(name: &str) -> (meta: ParameterMeta)
        ensures
            meta.name@ == name@,
            meta.dependencies@ == Seq::<ParameterIndex>::empty(),
    {
        ParameterMeta { name: name.to_owned(), dependencies: Vec::new() }
    }

    /// The description of a parameter that reads the parameters
    /// `dependencies`.
    pub fn with_dependencies(name: &str, dependencies: Vec<ParameterIndex>) -> (meta: ParameterMeta)
        ensures
            meta.name@ == name@,
            meta.dependencies == dependencies,
    {
        ParameterMeta { name: name.to_owned(), dependencies }
    }
}

/// A producer of one number for each timestep and scenario.
///
/// `compute` is given the timestep, the scenario, the state with which the
/// timestep begins, and the values of the parameters that were added before
/// this one, in their order.
pub trait Parameter {
    fn meta(&self) -> &ParameterMeta;

    fn compute(
        &self,
        timestep: &Timestep,
        scenario_index: &ScenarioIndex,
        state: &NetworkState,
        parameter_state: &[Quantity],
    ) -> Result<Quantity, PywrError>;
}

/// A parameter that always gives the same number.
#[derive(Clone, Debug, PartialEq)]
pub struct ConstantParameter {
    pub meta: ParameterMeta,
    pub value: Quantity,
}

impl ConstantParameter {
    /// The parameter named `name` that gives `value`.
    pub fn new(name: &str, value: Quantity) -> (parameter: ConstantParameter)
        ensures
            parameter.meta.name@ == name@,
            parameter.meta.dependencies@ == Seq::<ParameterIndex>::empty(),
            parameter.value == value,
    {
        ConstantParameter { meta: ParameterMeta::new(name), value }
    }
}

impl Parameter for ConstantParameter {
    fn meta(&self) -> (meta: &ParameterMeta)
        ensures
            *meta == self.meta,
    {
        &self.meta
    }

    fn compute(
        &self,
        timestep: &Timestep,
        scenario_index: &ScenarioIndex,
        state: &NetworkState,
        parameter_state: &[Quantity],
    ) -> (r: Result<Quantity, PywrError>)
        ensures
            r == Ok::<Quantity, PywrError>(self.value),
    {
        Ok(self.value)
    }
}

/// A parameter that gives one number for each timestep, by the timestep's
/// position.
#[derive(Clone, Debug, PartialEq)]
pub struct VectorParameter {
    pub meta: ParameterMeta,
    pub values: Vec<Quantity>,
}

impl VectorParameter {
    /// The parameter named `name` that gives `values[i]` at timestep `i`.
    pub fn new(name: &str, values: Vec<Quantity>) -> (parameter: VectorParameter)
        ensures
            parameter.meta.name@ == name@,
            parameter.meta.dependencies@ == Seq::<ParameterIndex>::empty(),
            parameter.values == values,
    {
        VectorParameter { meta: ParameterMeta::new(name), values }
    }
}

impl Parameter for VectorParameter {
    fn meta(&self) -> (meta: &ParameterMeta)
        ensures
            *meta == self.meta,
    {
        &self.meta
    }

    fn compute(
        &self,
        timestep: &Timestep,
        scenario_index: &ScenarioIndex,
        state: &NetworkState,
        parameter_state: &[Quantity],
    ) -> (r: Result<Quantity, PywrError>)
        ensures
            r == if timestep.index < self.values@.len() {
                Ok::<Quantity, PywrError>(self.values@[timestep.index as int])
            } else {
                Err(PywrError::TimestepIndexOutOfRange)
            },
    {
        if timestep.index < self.values.len() {
            Ok(self.values[timestep.index])
        } else {
            Err(PywrError::TimestepIndexOutOfRange)
        }
    }
}

/// How an aggregated parameter folds the values that it reads.
#[derive(Clone, Copy, Debug, PartialEq, Eq)]
pub enum AggFunc {
    Sum,
    Product,
    Mean,
    Min,
    Max,
}

/// The values at the places `indices` of `values`, in the order of `indices`.
pub open spec fn selected(indices: Seq<ParameterIndex>, values: Seq<Quantity>) -> Seq<Quantity> {
    Seq::new(indices.len(), |k: int| values[indices[k] as int])
}

/// Every place in `indices` lies below `count`.
pub open spec fn all_below(indices: Seq<ParameterIndex>, count: nat) -> bool {
    forall|k: int| 0 <= k < indices.len() ==> indices[k] < count
}

/// Whether every place in `indices` lies below `count`.
pub fn lies_below(indices: &Vec<ParameterIndex>, count: usize) -> (yes: bool)
    ensures
        yes == all_below(indices@, count as nat),
{
    let mut k: usize = 0;
    while k < indices.len()
        invariant
            k <= indices@.len(),
            forall|j: int| 0 <= j < k ==> indices@[j] < count,
        decreases indices.len() - k,
    {
        if indices[k] >= count {
            return false;
        }
        k += 1;
    }
    true
}

/// The description of a parameter that folds the values of earlier
/// parameters into one: which parameters, and by which function.
///
/// The fold itself is arithmetic on quantities, which the library leaves to
/// the embedding program; `operands` hands it the values to fold.
#[derive(Clone, Debug, PartialEq, Eq)]
pub struct AggregatedParameter {
    pub meta: ParameterMeta,
    pub func: AggFunc,
}

impl AggregatedParameter {
    /// The parameter named `name` that folds the values of the parameters
    /// `parameters` with `func`.
    pub fn new(name: &str, parameters: Vec<ParameterIndex>, func: AggFunc) -> (parameter:
        AggregatedParameter)
        ensures
            parameter.meta.name@ == name@,
            parameter.meta.dependencies == parameters,
            parameter.func == func,
    {
        AggregatedParameter { meta: ParameterMeta::with_dependencies(name, parameters), func }
    }

    /// The values to fold, in the order in which the parameters were named.
    /// A parameter without a value among `parameter_state` is a failure.
    pub fn operands(&self, parameter_state: &[Quantity]) -> (r: Result<Vec<Quantity>, PywrError>)
        ensures
            match r {
                Ok(operands) => all_below(self.meta.dependencies@, parameter_state@.len())
                    && operands@ == selected(self.meta.dependencies@, parameter_state@),
                Err(e) => e == PywrError::ParameterIndexNotFound && !all_below(
                    self.meta.dependencies@,
                    parameter_state@.len(),
                ),
            },
    {
        let mut operands: Vec<Quantity> = Vec::new();
        let mut k: usize = 0;
        while k < self.meta.dependencies.len()
            invariant
                k <= self.meta.dependencies@.len(),
                operands@.len() == k,
                forall|j: int| 0 <= j < k ==> self.meta.dependencies@[j] < parameter_state@.len(),
                forall|j: int|
                    0 <= j < k ==> operands@[j]
                        == parameter_state@[self.meta.dependencies@[j] as int],
            decreases self.meta.dependencies.len() - k,
        {
            let p: usize = self.meta.dependencies[k];
            if p >= parameter_state.len() {
                return Err(PywrError::ParameterIndexNotFound);
            }
            operands.push(parameter_state[p]);
            k += 1;
        }
        assert(operands@ =~= selected(self.meta.dependencies@, parameter_state@));
        Ok(operands)
    }
}

} // verus!
