use pywr::node::Node;
use pywr::parameters::ConstantParameter;
use pywr::{Constraint, Model, PywrError, Quantity, ScenarioGroupCollection, ScenarioIndex};

fn q(value: f64) -> Quantity {
    Quantity::from_bits(value.to_bits())
}

#[test]
fn test_simple_model() {
    let mut model = Model::new();

    let input_node_idx = model.add_input_node("input").unwrap();
    let link_node_idx = model.add_link_node("link").unwrap();
    let output_node_idx = model.add_output_node("output").unwrap();

    assert_eq!(input_node_idx, 0);
    assert_eq!(link_node_idx, 1);
    assert_eq!(output_node_idx, 2);

    let edge_idx = model.connect_nodes(input_node_idx, link_node_idx).unwrap();
    assert_eq!(edge_idx, 0);
    let edge_idx = model.connect_nodes(link_node_idx, output_node_idx).unwrap();
    assert_eq!(edge_idx, 1);

    // Now assert the internal structure is as expected.
    if let Node::Input(node) = model.nodes().get(input_node_idx).unwrap() {
        assert_eq!(node.outgoing_edges.len(), 1);
    } else {
        panic!("Incorrect node type returned.")
    };

    if let Node::Link(node) = model.nodes().get(link_node_idx).unwrap() {
        assert_eq!(node.incoming_edges.len(), 1);
        assert_eq!(node.outgoing_edges.len(), 1);
    } else {
        panic!("Incorrect node type returned.")
    };

    if let Node::Output(node) = model.nodes().get(output_node_idx).unwrap() {
        assert_eq!(node.incoming_edges.len(), 1);
    } else {
        panic!("Incorrect node type returned.")
    };
}

#[test]
fn test_duplicate_node_name() {
    let mut model = Model::new();

    model.add_input_node("my-node").unwrap();
    // Second add with the same name
    let node_idx = model.add_input_node("my-node");
    assert_eq!(
        node_idx,
        Err(PywrError::NodeNameAlreadyExists("my-node".to_string(), 0))
    );
    let node_idx = model.add_link_node("my-node");
    assert_eq!(
        node_idx,
        Err(PywrError::NodeNameAlreadyExists("my-node".to_string(), 0))
    );
    let node_idx = model.add_output_node("my-node");
    assert_eq!(
        node_idx,
        Err(PywrError::NodeNameAlreadyExists("my-node".to_string(), 0))
    );
    let node_idx = model.add_storage_node("my-node", q(10.0));
    assert_eq!(
        node_idx,
        Err(PywrError::NodeNameAlreadyExists("my-node".to_string(), 0))
    );
    assert_eq!(model.nodes().len(), 1);
}

#[test]
fn test_constant_parameter() {
    let mut model = Model::new();
    let node_idx = model.add_input_node("input").unwrap();

    let input_max_flow = ConstantParameter::new("my-constant", q(10.0));
    let param_idx = model.add_parameter(Box::new(input_max_flow)).unwrap();
    assert_eq!(param_idx, 0);
    // assign the new parameter to one of the nodes.
    model
        .set_node_constraint(node_idx, Some(param_idx), Constraint::MaxFlow)
        .unwrap();

    // Try to assign a constraint not defined for particular node type
    assert_eq!(
        model.set_node_constraint(node_idx, Some(param_idx), Constraint::MaxVolume),
        Err(PywrError::StorageConstraintsUndefined)
    )
}

#[test]
fn test_scenario_iteration() {
    let mut collection = ScenarioGroupCollection::new();
    collection.add_group("Scenarion A", 10);
    collection.add_group("Scenarion B", 2);
    collection.add_group("Scenarion C", 5);

    let scenario_indices = collection.scenario_indices();
    let mut iter = scenario_indices.iter();

    // Test generation of scenario indices
    assert_eq!(iter.next(), Some(&ScenarioIndex { index: 0, indices: vec![0, 0, 0] }));
    assert_eq!(iter.next(), Some(&ScenarioIndex { index: 1, indices: vec![0, 0, 1] }));
    assert_eq!(iter.next(), Some(&ScenarioIndex { index: 2, indices: vec![0, 0, 2] }));
    assert_eq!(iter.next(), Some(&ScenarioIndex { index: 3, indices: vec![0, 0, 3] }));
    assert_eq!(iter.next(), Some(&ScenarioIndex { index: 4, indices: vec![0, 0, 4] }));
    assert_eq!(iter.next(), Some(&ScenarioIndex { index: 5, indices: vec![0, 1, 0] }));
    assert_eq!(iter.next(), Some(&ScenarioIndex { index: 6, indices: vec![0, 1, 1] }));
    assert_eq!(iter.next(), Some(&ScenarioIndex { index: 7, indices: vec![0, 1, 2] }));
    assert_eq!(iter.next(), Some(&ScenarioIndex { index: 8, indices: vec![0, 1, 3] }));
    assert_eq!(iter.next(), Some(&ScenarioIndex { index: 9, indices: vec![0, 1, 4] }));
    assert_eq!(iter.next(), Some(&ScenarioIndex { index: 10, indices: vec![1, 0, 0] }));

    // Test final index
    assert_eq!(iter.last(), Some(&ScenarioIndex { index: 99, indices: vec![9, 1, 4] }));
}
