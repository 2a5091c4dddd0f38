use rig_supervisor::fabric::StateChannel;
use rig_supervisor::nodes::{node_updates, poll_nodes, NodeId, NodeUpdate, NodeValue};
use rig_supervisor::state::{Measured, SharedState};
use rig_supervisor::status::ControlStatus;
use std::sync::{Arc, RwLock};

fn sample() -> SharedState {
    SharedState {
        variables: vec![
            Measured { target: 10, value: 7, busy: true },
            Measured { target: -2, value: -2, busy: false },
        ],
        control_state: ControlStatus::Error,
        error: Some("device error".to_string()),
        timestamp: 1_700_000_000_000,
    }
}

#[test]
fn labels_match_the_status_names() {
    assert_eq!(ControlStatus::Stopped.label(), "Stopped");
    assert_eq!(ControlStatus::Running.label(), "Running");
    assert_eq!(ControlStatus::Error.label(), "Error");
}

#[test]
fn initial_snapshot_is_at_rest() {
    let s = SharedState::initial(3, 42);
    let rest = Measured { target: 0, value: 0, busy: false };
    assert_eq!(s.variables, vec![rest, rest, rest]);
    assert_eq!(s.control_state, ControlStatus::Stopped);
    assert_eq!(s.error, None);
    assert_eq!(s.timestamp, 42);
    assert_eq!(SharedState::initial(0, -1).variables, Vec::new());
}

#[test]
fn snapshot_copies_every_field() {
    let s = sample();
    assert_eq!(s.snapshot(), s);
    let plain = SharedState::initial(1, 5);
    assert_eq!(plain.snapshot(), plain);
}

#[test]
fn node_updates_list_value_and_flag_of_each_variable_and_the_status() {
    assert_eq!(
        node_updates(&sample()),
        vec![
            NodeUpdate { node: NodeId::Position(0), value: NodeValue::Number(7) },
            NodeUpdate { node: NodeId::Busy(0), value: NodeValue::Flag(true) },
            NodeUpdate { node: NodeId::Position(1), value: NodeValue::Number(-2) },
            NodeUpdate { node: NodeId::Busy(1), value: NodeValue::Flag(false) },
            NodeUpdate { node: NodeId::Status, value: NodeValue::Tag(ControlStatus::Error) },
        ]
    );
}

#[test]
fn node_updates_without_variables_hold_the_status_alone() {
    assert_eq!(
        node_updates(&SharedState::initial(0, 0)),
        vec![NodeUpdate { node: NodeId::Status, value: NodeValue::Tag(ControlStatus::Stopped) }]
    );
}

#[test]
fn poll_reads_the_cell() {
    let cell: StateChannel = Arc::new(RwLock::new(sample()));
    assert_eq!(poll_nodes(&cell), Some(node_updates(&sample())));
    *cell.write().unwrap() = SharedState::initial(1, 9);
    assert_eq!(poll_nodes(&cell), Some(node_updates(&SharedState::initial(1, 9))));
}

#[test]
fn poll_is_skipped_while_the_writer_holds_the_cell() {
    let cell: StateChannel = Arc::new(RwLock::new(sample()));
    let guard = cell.write().unwrap();
    assert_eq!(poll_nodes(&cell), None);
    drop(guard);
    assert!(poll_nodes(&cell).is_some());
}

#[test]
fn poll_does_not_hold_readers_up() {
    let cell: StateChannel = Arc::new(RwLock::new(sample()));
    let guard = cell.read().unwrap();
    assert!(poll_nodes(&cell).is_some());
    drop(guard);
}
