//! Recorders: the named sinks that are shown every solved timestep of every
//! scenario.
use vstd::prelude::*;
use crate::error::PywrError;
use crate::metric::Metric;
use crate::quantity::Quantity;
use crate::scenario::ScenarioIndex;
use crate::state::NetworkState;
use crate::timestep::{Timestep, TimestepIndex};

verus! {

/// The position of a recorder in the model's list of recorders.
pub type RecorderIndex = usize;

/// What a model needs to know of a recorder: its name.
#[derive(Clone, Debug, PartialEq, Eq)]
pub struct RecorderMeta {
    pub name: String,
}

impl RecorderMeta {
    pub fn new(name: &str) -> (meta: RecorderMeta)
        ensures
            meta.name@ == name@,
    {
        RecorderMeta { name: name.to_owned() }
    }
}

/// A sink for what a run produces.
///
/// `save` is given the timestep, the scenario, the state that the solver
/// found for them, and the values of the parameters.
pub trait Recorder {
    fn meta(&self) -> &RecorderMeta;

    fn save(
        &mut self,
        timestep: &Timestep,
        scenario_index: &ScenarioIndex,
        network_state: &NetworkState,
        parameter_state: &[Quantity],
    ) -> Result<(), PywrError>;
}

/// One number that a recorder saw, with the timestep and the scenario in
/// which it saw it.
#[derive(Clone, Copy, Debug, PartialEq)]
pub struct Observation {
    pub timestep: TimestepIndex,
    pub scenario: usize,
    pub value: Quantity,
}

/// A recorder that keeps what its metric gives, for every timestep and
/// scenario that it is shown, in the order in which it is shown them.
#[derive(Clone, Debug, PartialEq)]
pub struct ArrayRecorder {
    pub meta: RecorderMeta,
    pub metric: Metric,
    pub observations: Vec<Observation>,
}

impl ArrayRecorder {
    /// The recorder named `name` that watches `metric`. It has seen nothing
    /// yet.
    pub fn new(name: &str, metric: Metric) -> (recorder: ArrayRecorder)
        ensures
            recorder.meta.name@ == name@,
            recorder.metric == metric,
            recorder.observations@ == Seq::<Observation>::empty(),
    {
        ArrayRecorder { meta: RecorderMeta::new(name), metric, observations: Vec::new() }
    }

    /// `k` is the first place at which an observation of the given timestep
    /// and scenario stands.
    pub open spec fn first_seen_at(&self, timestep: TimestepIndex, scenario: usize, k: int) -> bool {
        &&& 0 <= k < self.observations@.len()
        &&& self.observations@[k].timestep == timestep
        &&& self.observations@[k].scenario == scenario
        &&& forall|j: int|
            0 <= j < k ==> !(self.observations@[j].timestep == timestep
                && self.observations@[j].scenario == scenario)
    }

    /// What the recorder saw first at the given timestep in the given
    /// scenario, or `None` where it saw nothing there.
    pub fn get(&self, timestep: TimestepIndex, scenario: usize) -> (r: Option<Quantity>)
        ensures
            match r {
                Some(value) => exists|k: int|
                    self.first_seen_at(timestep, scenario, k) && self.observations@[k].value
                        == value,
                None => forall|j: int|
                    0 <= j < self.observations@.len() ==> !(self.observations@[j].timestep
                        == timestep && self.observations@[j].scenario == scenario),
            },
    {
        let mut k: usize = 0;
        while k < self.observations.len()
            invariant
                k <= self.observations@.len(),
                forall|j: int|
                    0 <= j < k ==> !(self.observations@[j].timestep == timestep
                        && self.observations@[j].scenario == scenario),
            decreases self.observations.len() - k,
        {
            let seen = self.observations[k];
            if seen.timestep == timestep && seen.scenario == scenario {
                assert(self.first_seen_at(timestep, scenario, k as int));
                return Some(seen.value);
            }
            k += 1;
        }
        None
    }
}

impl Recorder for ArrayRecorder {
    fn meta(&self) -> (meta: &RecorderMeta)
        ensures
            *meta == self.meta,
    {
        &self.meta
    }

    /// Keeps what the metric gives. Where the metric gives nothing, the
    /// failure is handed on and nothing is kept.
    fn save(
        &mut self,
        timestep: &Timestep,
        scenario_index: &ScenarioIndex,
        network_state: &NetworkState,
        parameter_state: &[Quantity],
    ) -> (r: Result<(), PywrError>)
        ensures
            final(self).meta == old(self).meta,
            final(self).metric == old(self).metric,
            match old(self).metric.value(network_state, parameter_state@) {
                Ok(value) => r is Ok && final(self).observations@ == old(self).observations@.push(
                    Observation {
                        timestep: timestep.index,
                        scenario: scenario_index.index,
                        value,
                    },
                ),
                Err(e) => r == Err::<(), PywrError>(e) && final(self).observations@ == old(self).observations@,
            },
    {
        match self.metric.get_value(network_state, parameter_state) {
            Ok(value) => {
                self.observations.push(
                    Observation {
                        timestep: timestep.index,
                        scenario: scenario_index.index,
                        value,
                    },
                );
                Ok(())
            },
            Err(e) => Err(e),
        }
    }
}

/// The description of a recorder that holds every number that its metric
/// gives against an expected one: the expected numbers, a row for each
/// timestep and in it a place for each scenario.
///
/// Whether two quantities are close enough is arithmetic, which the library
/// leaves to the embedding program: `observe` hands it the two numbers, and
/// `judge` turns its answer into the recorder's result.
#[derive(Clone, Debug, PartialEq)]
pub struct AssertionRecorder {
    pub meta: RecorderMeta,
    pub metric: Metric,
    pub expected_values: Vec<Vec<Quantity>>,
}

impl AssertionRecorder {
    /// The recorder named `name` that expects `metric` to give
    /// `expected_values[t][s]` at timestep `t` in scenario `s`.
    pub fn new(name: &str, metric: Metric, expected_values: Vec<Vec<Quantity>>) -> (recorder:
        AssertionRecorder)
        ensures
            recorder.meta.name@ == name@,
            recorder.metric == metric,
            recorder.expected_values == expected_values,
    {
        AssertionRecorder { meta: RecorderMeta::new(name), metric, expected_values }
    }

    /// The number that is expected at timestep `timestep` in scenario
    /// `scenario`, or the failure where none is.
    pub open spec fn expected(&self, timestep: TimestepIndex, scenario: usize) -> Result<
        Quantity,
        PywrError,
    > {
        if timestep >= self.expected_values@.len() {
            Err(PywrError::TimestepIndexOutOfRange)
        } else if scenario >= self.expected_values@[timestep as int]@.len() {
            Err(PywrError::ScenarioStateNotFound)
        } else {
            Ok(self.expected_values@[timestep as int]@[scenario as int])
        }
    }

    /// The expected number and the number that the metric gives, in this
    /// order. A missing expectation is reported before a missing number.
    pub fn observe(
        &self,
        timestep: &Timestep,
        scenario_index: &ScenarioIndex,
        network_state: &NetworkState,
        parameter_state: &[Quantity],
    ) -> (r: Result<(Quantity, Quantity), PywrError>)
        ensures
            r == match self.expected(timestep.index, scenario_index.index) {
                Err(e) => Err::<(Quantity, Quantity), PywrError>(e),
                Ok(expected) => match self.metric.value(network_state, parameter_state@) {
                    Err(e) => Err(e),
                    Ok(actual) => Ok((expected, actual)),
                },
            },
    {
        if timestep.index >= self.expected_values.len() {
            return Err(PywrError::TimestepIndexOutOfRange);
        }
        let row = &self.expected_values[timestep.index];
        if scenario_index.index >= row.len() {
            return Err(PywrError::ScenarioStateNotFound);
        }
        let expected = row[scenario_index.index];
        match self.metric.get_value(network_state, parameter_state) {
            Ok(actual) => Ok((expected, actual)),
            Err(e) => Err(e),
        }
    }

    /// The recorder's result for one observation: success where the two
    /// numbers were found close, and otherwise the failure that names the
    /// recorder, the timestep, the scenario and the two numbers.
    pub fn judge(
        &self,
        timestep: &Timestep,
        scenario_index: &ScenarioIndex,
        expected: Quantity,
        actual: Quantity,
        close: bool,
    ) -> (r: Result<(), PywrError>)
        ensures
            close ==> r is Ok,
            !close ==> (r matches Err(PywrError::AssertionFailed(name, t, s, e, a)) && name@
                == self.meta.name@ && t == timestep.index && s == scenario_index.index && e
                == expected && a == actual),
    {
        if close {
            Ok(())
        } else {
            Err(
                PywrError::AssertionFailed(
                    self.meta.name.clone(),
                    timestep.index,
                    scenario_index.index,
                    expected,
                    actual,
                ),
            )
        }
    }
}

} // verus!
