use float_cmp::{ApproxEq, F64Margin};
use ndarray::Array2;
use pywr::node::Node;
use pywr::parameters::{
    AggFunc, AggregatedParameter, ConstantParameter, Parameter, ParameterMeta, VectorParameter,
};
use pywr::recorders::{ArrayRecorder, AssertionRecorder, Recorder, RecorderMeta};
use pywr::solvers::Solver;
use pywr::{
    Constraint, Metric, Model, NetworkState, NodeState, PywrError, Quantity, Role,
    ScenarioGroupCollection, ScenarioIndex, Timestep, Timestepper,
};
use std::cell::RefCell;
use std::rc::Rc;

fn q(value: f64) -> Quantity {
    Quantity::from_bits(value.to_bits())
}

fn value_of(quantity: Quantity) -> f64 {
    f64::from_bits(quantity.to_bits())
}

/// An aggregated parameter with its arithmetic.
struct Aggregated(AggregatedParameter);

impl Parameter for Aggregated {
    fn meta(&self) -> &ParameterMeta {
        &self.0.meta
    }

    fn compute(
        &self,
        _timestep: &Timestep,
        _scenario_index: &ScenarioIndex,
        _state: &NetworkState,
        parameter_state: &[Quantity],
    ) -> Result<Quantity, PywrError> {
        let operands = self.0.operands(parameter_state)?;
        let values = operands.iter().map(|operand| value_of(*operand));
        let value: f64 = match self.0.func {
            AggFunc::Sum => values.sum(),
            AggFunc::Product => values.product(),
            AggFunc::Mean => values.sum::<f64>() / operands.len() as f64,
            AggFunc::Max => values.fold(f64::MIN, f64::max),
            AggFunc::Min => values.fold(f64::MAX, f64::min),
        };
        Ok(q(value))
    }
}

/// An assertion recorder with its comparison.
struct Asserting(AssertionRecorder);

impl Asserting {
    fn new(name: &str, metric: Metric, expected: Array2<f64>) -> Self {
        let rows = expected
            .rows()
            .into_iter()
            .map(|row| row.iter().map(|value| q(*value)).collect())
            .collect();
        Asserting(AssertionRecorder::new(name, metric, rows))
    }
}

impl Recorder for Asserting {
    fn meta(&self) -> &RecorderMeta {
        &self.0.meta
    }

    fn save(
        &mut self,
        timestep: &Timestep,
        scenario_index: &ScenarioIndex,
        network_state: &NetworkState,
        parameter_state: &[Quantity],
    ) -> Result<(), PywrError> {
        let (expected, actual) =
            self.0.observe(timestep, scenario_index, network_state, parameter_state)?;
        let close = value_of(actual).approx_eq(value_of(expected), F64Margin::default());
        self.0.judge(timestep, scenario_index, expected, actual, close)
    }
}

/// A recorder that can still be read when the model owns it.
struct Shared(Rc<RefCell<ArrayRecorder>>, RecorderMeta);

impl Recorder for Shared {
    fn meta(&self) -> &RecorderMeta {
        &self.1
    }

    fn save(
        &mut self,
        timestep: &Timestep,
        scenario_index: &ScenarioIndex,
        network_state: &NetworkState,
        parameter_state: &[Quantity],
    ) -> Result<(), PywrError> {
        self.0.borrow_mut().save(timestep, scenario_index, network_state, parameter_state)
    }
}

/// A solver for small networks: it sends as much as it can along the paths
/// that pay, the cheapest first, and then what the lower bounds still ask.
struct PathSolver {
    paths: Vec<Vec<usize>>,
}

impl PathSolver {
    fn new() -> Self {
        PathSolver { paths: Vec::new() }
    }

    fn outgoing(model: &Model, node: usize) -> Vec<usize> {
        match &model.nodes()[node] {
            Node::Input(n) => n.outgoing_edges.clone(),
            Node::Link(n) => n.outgoing_edges.clone(),
            Node::Storage(n) => n.outgoing_edges.clone(),
            Node::Output(_) => Vec::new(),
        }
    }

    fn walk(&mut self, model: &Model, node: usize, trail: &mut Vec<usize>, seen: &mut Vec<usize>) {
        for e in Self::outgoing(model, node) {
            let to = model.edges()[e].to_node_index;
            if seen.contains(&to) {
                continue;
            }
            trail.push(e);
            match model.nodes()[to].role() {
                Role::Output | Role::Storage => self.paths.push(trail.clone()),
                Role::Link => {
                    seen.push(to);
                    self.walk(model, to, trail, seen);
                    seen.pop();
                }
                Role::Input => {}
            }
            trail.pop();
        }
    }
}

struct Work {
    days: f64,
    edge_flow: Vec<f64>,
    in_flow: Vec<f64>,
    out_flow: Vec<f64>,
    volume: Vec<f64>,
    cost: Vec<f64>,
    min_flow: Vec<f64>,
    max_flow: Vec<f64>,
    min_volume: Vec<f64>,
    max_volume: Vec<f64>,
}

impl Work {
    fn path_cost(&self, model: &Model, path: &[usize]) -> f64 {
        let mut cost = 0.0;
        for e in path {
            cost += self.cost[model.edges()[*e].from_node_index];
        }
        let last = model.edges()[*path.last().unwrap()].to_node_index;
        if model.nodes()[last].role() == Role::Output {
            cost += self.cost[last];
        }
        cost
    }

    fn room(&self, model: &Model, path: &[usize]) -> f64 {
        let mut room = f64::INFINITY;
        for e in path {
            let from = model.edges()[*e].from_node_index;
            let here = match model.nodes()[from].role() {
                Role::Storage => (self.volume[from] - self.min_volume[from]) / self.days,
                _ => self.max_flow[from] - self.out_flow[from],
            };
            room = room.min(here);
        }
        let last = model.edges()[*path.last().unwrap()].to_node_index;
        let here = match model.nodes()[last].role() {
            Role::Storage => (self.max_volume[last] - self.volume[last]) / self.days,
            _ => self.max_flow[last] - self.in_flow[last],
        };
        room.min(here).max(0.0)
    }

    fn push(&mut self, model: &Model, path: &[usize], flow: f64) {
        for e in path {
            let edge = model.edges()[*e];
            self.edge_flow[*e] += flow;
            self.out_flow[edge.from_node_index] += flow;
            self.in_flow[edge.to_node_index] += flow;
            if model.nodes()[edge.from_node_index].role() == Role::Storage {
                self.volume[edge.from_node_index] -= flow * self.days;
            }
            if model.nodes()[edge.to_node_index].role() == Role::Storage {
                self.volume[edge.to_node_index] += flow * self.days;
            }
        }
    }

    fn through(&self, model: &Model, node: usize) -> f64 {
        match model.nodes()[node].role() {
            Role::Output => self.in_flow[node],
            _ => self.out_flow[node],
        }
    }

    fn touches(model: &Model, path: &[usize], node: usize) -> bool {
        path.iter().any(|e| {
            model.edges()[*e].from_node_index == node || model.edges()[*e].to_node_index == node
        })
    }
}

impl Solver for PathSolver {
    fn setup(&mut self, model: &Model) -> Result<(), PywrError> {
        self.paths.clear();
        for (i, node) in model.nodes().iter().enumerate() {
            match node.role() {
                Role::Input | Role::Storage => {
                    self.walk(model, i, &mut Vec::new(), &mut vec![i]);
                }
                _ => {}
            }
        }
        Ok(())
    }

    fn solve(
        &mut self,
        model: &Model,
        timestep: &Timestep,
        network_state: &NetworkState,
        parameter_state: &[Quantity],
    ) -> Result<NetworkState, PywrError> {
        let n = model.nodes().len();
        let mut work = Work {
            days: timestep.days() as f64,
            edge_flow: vec![0.0; model.edges().len()],
            in_flow: vec![0.0; n],
            out_flow: vec![0.0; n],
            volume: vec![0.0; n],
            cost: vec![0.0; n],
            min_flow: vec![0.0; n],
            max_flow: vec![f64::INFINITY; n],
            min_volume: vec![0.0; n],
            max_volume: vec![f64::INFINITY; n],
        };
        for (i, node) in model.nodes().iter().enumerate() {
            work.cost[i] = value_of(node.get_current_cost(parameter_state)?);
            if node.role() == Role::Storage {
                work.volume[i] = value_of(network_state.get_node_volume(i)?);
                if let Some(bound) = node.get_current_min_volume(parameter_state)? {
                    work.min_volume[i] = value_of(bound);
                }
                if let Some(bound) = node.get_current_max_volume(parameter_state)? {
                    work.max_volume[i] = value_of(bound);
                }
            } else {
                work.min_flow[i] = value_of(node.get_current_min_flow(parameter_state)?);
                work.max_flow[i] = value_of(node.get_current_max_flow(parameter_state)?);
            }
        }

        let mut order: Vec<usize> = (0..self.paths.len()).collect();
        order.sort_by(|a, b| {
            work.path_cost(model, &self.paths[*a])
                .partial_cmp(&work.path_cost(model, &self.paths[*b]))
                .unwrap()
        });

        for p in &order {
            let path = &self.paths[*p];
            if work.path_cost(model, path) < 0.0 {
                let room = work.room(model, path);
                if room.is_infinite() {
                    return Err(PywrError::SolverUnbounded);
                }
                work.push(model, path, room);
            }
        }

        for i in 0..n {
            for p in &order {
                let short = work.min_flow[i] - work.through(model, i);
                if short <= 0.0 {
                    break;
                }
                let path = &self.paths[*p];
                if Work::touches(model, path, i) {
                    let flow = work.room(model, path).min(short);
                    work.push(model, path, flow);
                }
            }
            if work.min_flow[i] - work.through(model, i) > 1e-9 {
                return Err(PywrError::SolverInfeasible);
            }
        }

        let mut next = network_state.next_at_rest();
        for e in 0..model.edges().len() {
            next.set_edge_flow(e, q(work.edge_flow[e]))?;
        }
        for i in 0..n {
            next.set_node_in_flow(i, q(work.in_flow[i]))?;
            next.set_node_out_flow(i, q(work.out_flow[i]))?;
            if let NodeState::Storage(_) = next.node_states[i] {
                next.set_node_volume(i, q(work.volume[i]))?;
            }
        }
        Ok(next)
    }
}

fn default_timestepper() -> Timestepper {
    Timestepper::new("2020-01-01", "2020-01-15", "%Y-%m-%d", 1).unwrap()
}

fn default_scenarios() -> ScenarioGroupCollection {
    let mut scenarios = ScenarioGroupCollection::new();
    scenarios.add_group("test-scenario", 10);
    scenarios
}

/// Create a simple test model with three nodes.
fn simple_model() -> Model {
    let mut model = Model::new();

    let input_node_idx = model.add_input_node("input").unwrap();
    let link_node_idx = model.add_link_node("link").unwrap();
    let output_node_idx = model.add_output_node("output").unwrap();

    model.connect_nodes(input_node_idx, link_node_idx).unwrap();
    model.connect_nodes(link_node_idx, output_node_idx).unwrap();

    let inflow = VectorParameter::new("inflow", vec![q(10.0); 366]);
    let inflow_idx = model.add_parameter(Box::new(inflow)).unwrap();
    model
        .set_node_constraint(input_node_idx, Some(inflow_idx), Constraint::MaxFlow)
        .unwrap();

    let base_demand = ConstantParameter::new("base-demand", q(10.0));
    let base_demand_idx = model.add_parameter(Box::new(base_demand)).unwrap();

    let demand_factor = ConstantParameter::new("demand-factor", q(1.2));
    let demand_factor_idx = model.add_parameter(Box::new(demand_factor)).unwrap();

    let total_demand = Aggregated(AggregatedParameter::new(
        "total-demand",
        vec![base_demand_idx, demand_factor_idx],
        AggFunc::Product,
    ));
    let total_demand_idx = model.add_parameter(Box::new(total_demand)).unwrap();

    model
        .set_node_constraint(output_node_idx, Some(total_demand_idx), Constraint::MaxFlow)
        .unwrap();

    let demand_cost = ConstantParameter::new("demand-cost", q(-10.0));
    let demand_cost_idx = model.add_parameter(Box::new(demand_cost)).unwrap();
    model.set_node_cost(output_node_idx, Some(demand_cost_idx)).unwrap();

    model
}

/// A test model with a single storage node.
fn simple_storage_model() -> Model {
    let mut model = Model::new();

    let storage_node_idx = model.add_storage_node("reservoir", q(100.0)).unwrap();
    let output_node_idx = model.add_output_node("output").unwrap();

    model.connect_nodes(storage_node_idx, output_node_idx).unwrap();

    let demand = ConstantParameter::new("demand", q(10.0));
    let demand_idx = model.add_parameter(Box::new(demand)).unwrap();
    model
        .set_node_constraint(output_node_idx, Some(demand_idx), Constraint::MaxFlow)
        .unwrap();

    let demand_cost = ConstantParameter::new("demand-cost", q(-10.0));
    let demand_cost_idx = model.add_parameter(Box::new(demand_cost)).unwrap();
    model.set_node_cost(output_node_idx, Some(demand_cost_idx)).unwrap();

    let max_volume = ConstantParameter::new("max-volume", q(100.0));
    let max_volume_idx = model.add_parameter(Box::new(max_volume)).unwrap();

    model
        .set_node_constraint(storage_node_idx, Some(max_volume_idx), Constraint::MaxVolume)
        .unwrap();

    model
}

#[test]
fn test_step() {
    let mut model = simple_model();
    let timestepper = default_timestepper();
    let scenarios = default_scenarios();
    let mut solver: Box<dyn Solver> = Box::new(PathSolver::new());

    solver.setup(&model).unwrap();

    let timesteps = timestepper.timesteps();
    let mut ts_iter = timesteps.iter();
    let scenario_indices = scenarios.scenario_indices();
    let ts = ts_iter.next().unwrap();
    let current_state = model.get_initial_state(&scenario_indices);
    assert_eq!(current_state.len(), scenario_indices.len());

    let next_state = model.step(ts, &scenario_indices, &mut solver, &current_state).unwrap();

    assert_eq!(next_state.len(), scenario_indices.len());

    let output_node_idx = model.get_node_index("output").unwrap();

    let state0 = next_state.get(0).unwrap();
    let output_inflow = value_of(state0.get_node_in_flow(output_node_idx).unwrap());
    assert!(output_inflow.approx_eq(10.0, F64Margin::default()));
}

#[test]
fn test_run() {
    let mut model = simple_model();
    let timestepper = default_timestepper();
    let scenarios = default_scenarios();
    let mut solver: Box<dyn Solver> = Box::new(PathSolver::new());

    // Set-up assertion for "input" node
    let idx = model.get_node_index("input").unwrap();
    let expected = Array2::from_elem((366, 10), 10.0);
    let recorder = Asserting::new("input-flow", Metric::NodeOutFlow(idx), expected);
    model.add_recorder(Box::new(recorder)).unwrap();

    let idx = model.get_node_index("link").unwrap();
    let expected = Array2::from_elem((366, 10), 10.0);
    let recorder = Asserting::new("link-flow", Metric::NodeOutFlow(idx), expected);
    model.add_recorder(Box::new(recorder)).unwrap();

    let idx = model.get_node_index("output").unwrap();
    let expected = Array2::from_elem((366, 10), 10.0);
    let recorder = Asserting::new("output-flow", Metric::NodeInFlow(idx), expected);
    model.add_recorder(Box::new(recorder)).unwrap();

    let idx = model.get_parameter_index("total-demand").unwrap();
    let expected = Array2::from_elem((366, 10), 12.0);
    let recorder = Asserting::new("total-demand", Metric::ParameterValue(idx), expected);
    model.add_recorder(Box::new(recorder)).unwrap();

    model.run(timestepper, scenarios, &mut solver).unwrap();
}

#[test]
fn test_run_storage() {
    let mut model = simple_storage_model();
    let timestepper = default_timestepper();
    let scenarios = default_scenarios();
    let mut solver: Box<dyn Solver> = Box::new(PathSolver::new());

    let idx = model.get_node_index("output").unwrap();
    let expected = Array2::from_shape_fn((15, 10), |(t, _)| if t < 10 { 10.0 } else { 0.0 });
    let recorder = Asserting::new("output-flow", Metric::NodeInFlow(idx), expected);
    model.add_recorder(Box::new(recorder)).unwrap();

    let idx = model.get_node_index("reservoir").unwrap();
    let expected = Array2::from_shape_fn((15, 10), |(t, _)| {
        [90.0, 80.0, 70.0, 60.0, 50.0, 40.0, 30.0, 20.0, 10.0, 0.0, 0.0, 0.0, 0.0, 0.0, 0.0][t]
    });
    let recorder = Asserting::new("reservoir-volume", Metric::NodeVolume(idx), expected);
    model.add_recorder(Box::new(recorder)).unwrap();

    model.run(timestepper, scenarios, &mut solver).unwrap();
}

#[test]
fn run_fails_where_an_expectation_is_not_met() {
    let mut model = simple_storage_model();
    let mut solver: Box<dyn Solver> = Box::new(PathSolver::new());

    let idx = model.get_node_index("output").unwrap();
    let expected = Array2::from_shape_fn((15, 10), |(t, _)| if t < 9 { 10.0 } else { 0.0 });
    let recorder = Asserting::new("output-flow", Metric::NodeInFlow(idx), expected);
    model.add_recorder(Box::new(recorder)).unwrap();

    assert_eq!(
        model.run(default_timestepper(), default_scenarios(), &mut solver),
        Err(PywrError::AssertionFailed("output-flow".to_string(), 9, 0, q(0.0), q(10.0)))
    );
}

#[test]
fn run_over_a_leap_year_of_daily_timesteps() {
    let mut model = simple_model();
    let timestepper = Timestepper::new("2020-01-01", "2020-12-31", "%Y-%m-%d", 1).unwrap();
    assert_eq!(timestepper.timesteps().len(), 366);
    let mut solver: Box<dyn Solver> = Box::new(PathSolver::new());

    let seen = Rc::new(RefCell::new(ArrayRecorder::new(
        "link-flow",
        Metric::NodeOutFlow(model.get_node_index("link").unwrap()),
    )));
    model
        .add_recorder(Box::new(Shared(seen.clone(), RecorderMeta::new("link-flow"))))
        .unwrap();
    let idx = model.get_parameter_index("total-demand").unwrap();
    let expected = Array2::from_elem((366, 10), 12.0);
    let recorder = Asserting::new("total-demand", Metric::ParameterValue(idx), expected);
    model.add_recorder(Box::new(recorder)).unwrap();

    model.run(timestepper, default_scenarios(), &mut solver).unwrap();

    let seen = seen.borrow();
    assert_eq!(seen.observations.len(), 3660);
    assert!(seen.observations.iter().all(|o| value_of(o.value) == 10.0));
    assert_eq!(seen.observations[11].timestep, 1);
    assert_eq!(seen.observations[11].scenario, 1);
    assert_eq!(seen.get(365, 9).map(value_of), Some(10.0));
    assert_eq!(seen.get(366, 0), None);
}

#[test]
fn a_vector_parameter_that_is_too_short_ends_the_run() {
    let mut model = Model::new();
    let input = model.add_input_node("input").unwrap();
    let output = model.add_output_node("output").unwrap();
    model.connect_nodes(input, output).unwrap();
    let inflow = VectorParameter::new("inflow", vec![q(10.0); 3]);
    let inflow_idx = model.add_parameter(Box::new(inflow)).unwrap();
    model.set_node_constraint(input, Some(inflow_idx), Constraint::MaxFlow).unwrap();
    let mut solver: Box<dyn Solver> = Box::new(PathSolver::new());

    assert_eq!(
        model.run(default_timestepper(), default_scenarios(), &mut solver),
        Err(PywrError::TimestepIndexOutOfRange)
    );
}

#[test]
fn infeasible_demand_fails_the_first_step() {
    let mut model = Model::new();
    let input = model.add_input_node("input").unwrap();
    let output = model.add_output_node("output").unwrap();
    model.connect_nodes(input, output).unwrap();

    let supply = ConstantParameter::new("supply", q(10.0));
    let supply_idx = model.add_parameter(Box::new(supply)).unwrap();
    model.set_node_constraint(input, Some(supply_idx), Constraint::MaxFlow).unwrap();
    let demand = ConstantParameter::new("demand", q(100.0));
    let demand_idx = model.add_parameter(Box::new(demand)).unwrap();
    model.set_node_constraint(output, Some(demand_idx), Constraint::MinFlow).unwrap();

    let seen = Rc::new(RefCell::new(ArrayRecorder::new("output-flow", Metric::NodeInFlow(output))));
    model
        .add_recorder(Box::new(Shared(seen.clone(), RecorderMeta::new("output-flow"))))
        .unwrap();

    let mut solver: Box<dyn Solver> = Box::new(PathSolver::new());
    solver.setup(&model).unwrap();
    let timesteps = default_timestepper().timesteps();
    let scenario_indices = default_scenarios().scenario_indices();
    let current_states = model.get_initial_state(&scenario_indices);

    assert_eq!(
        model.step(&timesteps[0], &scenario_indices, &mut solver, &current_states),
        Err(PywrError::SolverInfeasible)
    );
    assert!(seen.borrow().observations.is_empty());
}

#[test]
fn step_fails_for_a_scenario_without_a_state() {
    let mut model = simple_model();
    let mut solver: Box<dyn Solver> = Box::new(PathSolver::new());
    solver.setup(&model).unwrap();
    let timesteps = default_timestepper().timesteps();
    let scenario_indices = default_scenarios().scenario_indices();
    let current_states = model.get_initial_state(&scenario_indices[..4]);

    assert_eq!(
        model.step(&timesteps[0], &scenario_indices, &mut solver, &current_states),
        Err(PywrError::ScenarioStateNotFound)
    );
    assert_eq!(
        model.step(&timesteps[0], &[], &mut solver, &current_states),
        Ok(Vec::new())
    );
}

#[test]
fn parameters_see_the_values_before_them() {
    let model = simple_model();
    let timesteps = default_timestepper().timesteps();
    let scenario_indices = default_scenarios().scenario_indices();
    let states = model.get_initial_state(&scenario_indices);

    let values = model.compute_parameters(&timesteps[2], &scenario_indices[3], &states[3]).unwrap();
    let values: Vec<f64> = values.into_iter().map(value_of).collect();
    assert_eq!(values, vec![10.0, 10.0, 1.2, 12.0, -10.0]);
}
