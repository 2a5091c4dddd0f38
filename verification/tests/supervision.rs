use crossbeam_channel::{bounded, Receiver, Sender};
use rig_supervisor::backend::DeviceFault;
use rig_supervisor::config::{Backend, Config, Limits};
use rig_supervisor::executor::{CycleOutcome, ExecState, Fault};
use rig_supervisor::fabric::{SetpointCell, StateChannel};
use rig_supervisor::state::SharedState;
use rig_supervisor::status::ControlStatus;
use rig_supervisor::supervisor::{run_ends, Action, Event};
use std::sync::{Arc, RwLock};

struct Rig {
    state: ExecState,
    cell: StateChannel,
    tx_stop: Sender<()>,
    tx_start: Sender<()>,
    rx_start: Receiver<()>,
}

fn rig() -> Rig {
    let config = Config {
        cycle_time: 1000,
        restart_timeout: 2_500,
        backend: Backend::Ramp,
        limits: vec![Limits { min: 0, max: 100, max_speed: 1 }],
        serial_device: "/dev/null".to_string(),
        opcua_config_path: "none".to_string(),
    };
    let cell: StateChannel = Arc::new(RwLock::new(SharedState::initial(0, 0)));
    let setpoints: SetpointCell = Arc::new(RwLock::new(Vec::new()));
    let (tx_stop, rx_stop) = bounded::<()>(1);
    let (tx_start, rx_start) = bounded::<()>(1);
    let mut state = ExecState::new(config, Arc::clone(&cell), rx_stop, setpoints);
    state.shared.timestamp = 1_000;
    Rig { state, cell, tx_stop, tx_start, rx_start }
}

fn published(cell: &StateChannel) -> SharedState {
    cell.read().unwrap().clone()
}

fn fault(cause: DeviceFault) -> Event {
    Event::RunFaulted(Fault { variable: 0, cause })
}

#[test]
fn start_leads_from_stopped_to_running() {
    let mut r = rig();
    assert_eq!(r.state.react_at(Event::StartSignal, 0), Action::Run);
    assert_eq!(r.state.shared.control_state, ControlStatus::Running);
    assert_eq!(r.state.shared.error, None);
    assert_eq!(r.state.shared.timestamp, 1_000);
}

#[test]
fn completed_run_leads_back_to_stopped() {
    let mut r = rig();
    r.state.react_at(Event::StartSignal, 0);
    assert_eq!(r.state.react_at(Event::RunCompleted, 0), Action::AwaitStart);
    assert_eq!(r.state.shared.control_state, ControlStatus::Stopped);
    assert_eq!(r.state.shared.error, None);
}

#[test]
fn fault_leads_to_error_with_text_and_timestamp() {
    let mut r = rig();
    r.state.react_at(Event::StartSignal, 0);
    let action = r.state.react_at(fault(DeviceFault::ConnectionLost), 7_000);
    assert_eq!(action, Action::AwaitStop { timeout: 2_500 });
    assert_eq!(r.state.shared.control_state, ControlStatus::Error);
    assert_eq!(r.state.shared.error, Some("connection lost".to_string()));
    assert_eq!(r.state.shared.timestamp, 7_000);
    assert!(r.state.is_well_formed());
}

#[test]
fn every_fault_shows_a_text_that_is_not_empty() {
    for cause in [
        DeviceFault::InvalidTarget,
        DeviceFault::ConnectionLost,
        DeviceFault::DeviceError,
        DeviceFault::Timeout,
    ] {
        let mut r = rig();
        r.state.react_at(Event::StartSignal, 0);
        r.state.react_at(fault(cause), 7_000);
        assert_eq!(r.state.shared.control_state, ControlStatus::Error);
        assert_eq!(r.state.shared.error, Some(cause.message()));
        assert!(!r.state.shared.error.unwrap().is_empty());
    }
}

#[test]
fn fault_under_a_clock_that_ran_backwards_keeps_the_timestamp() {
    let mut r = rig();
    r.state.react_at(Event::StartSignal, 0);
    r.state.react_at(fault(DeviceFault::Timeout), 999);
    assert_eq!(r.state.shared.timestamp, 1_000);
}

#[test]
fn timeout_in_error_retries_and_clears_the_text() {
    let mut r = rig();
    r.state.react_at(Event::StartSignal, 0);
    r.state.react_at(fault(DeviceFault::Timeout), 7_000);
    assert_eq!(r.state.react_at(Event::RestartTimeout, 0), Action::Run);
    assert_eq!(r.state.shared.control_state, ControlStatus::Running);
    assert_eq!(r.state.shared.error, None);
    assert_eq!(r.state.react_at(Event::RunCompleted, 0), Action::AwaitStart);
    assert_eq!(r.state.shared.control_state, ControlStatus::Stopped);
    assert_eq!(r.state.shared.error, None);
}

#[test]
fn retries_go_on_as_long_as_runs_fail() {
    let mut r = rig();
    r.state.react_at(Event::StartSignal, 0);
    for round in 0..5 {
        let action = r.state.react_at(fault(DeviceFault::DeviceError), 2_000 + round);
        assert_eq!(action, Action::AwaitStop { timeout: 2_500 });
        assert_eq!(r.state.shared.control_state, ControlStatus::Error);
        assert_eq!(r.state.shared.error, Some("device error".to_string()));
        assert_eq!(r.state.react_at(Event::RestartTimeout, 0), Action::Run);
        assert_eq!(r.state.shared.control_state, ControlStatus::Running);
    }
}

#[test]
fn stop_in_error_leads_to_stopped() {
    let mut r = rig();
    r.state.react_at(Event::StartSignal, 0);
    r.state.react_at(fault(DeviceFault::Timeout), 7_000);
    assert_eq!(r.state.react_at(Event::StopSignal, 0), Action::AwaitStart);
    assert_eq!(r.state.shared.control_state, ControlStatus::Stopped);
    assert_eq!(r.state.shared.error, None);
    assert_eq!(r.state.shared.timestamp, 7_000);
}

#[test]
fn events_that_do_not_apply_change_nothing() {
    let stopped = [
        Event::RunCompleted,
        fault(DeviceFault::Timeout),
        Event::StopSignal,
        Event::RestartTimeout,
    ];
    for event in stopped {
        let mut r = rig();
        let before = r.state.shared.clone();
        assert_eq!(r.state.react_at(event, 9_000), Action::AwaitStart);
        assert_eq!(r.state.shared, before);
    }
    for event in [Event::StartSignal, Event::StopSignal, Event::RestartTimeout] {
        let mut r = rig();
        r.state.react_at(Event::StartSignal, 0);
        let before = r.state.shared.clone();
        assert_eq!(r.state.react_at(event, 9_000), Action::Run);
        assert_eq!(r.state.shared, before);
    }
    for event in [Event::StartSignal, Event::RunCompleted, fault(DeviceFault::DeviceError)] {
        let mut r = rig();
        r.state.react_at(Event::StartSignal, 0);
        r.state.react_at(fault(DeviceFault::Timeout), 7_000);
        let before = r.state.shared.clone();
        assert_eq!(r.state.react_at(event, 9_000), Action::AwaitStop { timeout: 2_500 });
        assert_eq!(r.state.shared, before);
    }
}

#[test]
fn status_never_goes_from_stopped_to_error() {
    let events = [
        Event::StartSignal,
        Event::RunCompleted,
        fault(DeviceFault::Timeout),
        Event::StopSignal,
        Event::RestartTimeout,
    ];
    let mut seed: u32 = 12345;
    let mut r = rig();
    for _ in 0..2_000 {
        seed = seed.wrapping_mul(1_103_515_245).wrapping_add(12_345);
        let event = events[((seed >> 16) % 5) as usize];
        let before = r.state.shared.control_state;
        r.state.react_at(event, 0);
        let after = r.state.shared.control_state;
        let allowed = before == after
            || matches!(
                (before, after),
                (ControlStatus::Stopped, ControlStatus::Running)
                    | (ControlStatus::Running, ControlStatus::Stopped)
                    | (ControlStatus::Running, ControlStatus::Error)
                    | (ControlStatus::Error, ControlStatus::Running)
                    | (ControlStatus::Error, ControlStatus::Stopped)
            );
        assert!(allowed);
        assert_eq!(r.state.shared.error.is_some(), after == ControlStatus::Error);
        assert!(r.state.is_well_formed());
    }
}

#[test]
fn every_transition_is_published() {
    let mut r = rig();
    assert_eq!(r.state.react(Event::StartSignal, &r.rx_start), Action::Run);
    assert_eq!(published(&r.cell).control_state, ControlStatus::Running);
    assert_eq!(published(&r.cell), r.state.shared);

    let before = chrono::Local::now().timestamp_millis();
    let action = r.state.react(fault(DeviceFault::ConnectionLost), &r.rx_start);
    let after = chrono::Local::now().timestamp_millis();
    assert_eq!(action, Action::AwaitStop { timeout: 2_500 });
    let shown = published(&r.cell);
    assert_eq!(shown.control_state, ControlStatus::Error);
    assert_eq!(shown.error, Some("connection lost".to_string()));
    assert!(before <= shown.timestamp && shown.timestamp <= after);

    assert_eq!(r.state.react(Event::StopSignal, &r.rx_start), Action::AwaitStart);
    let shown = published(&r.cell);
    assert_eq!(shown.control_state, ControlStatus::Stopped);
    assert_eq!(shown.error, None);
}

#[test]
fn stale_signals_cause_one_transition_only() {
    let mut r = rig();
    assert!(r.tx_stop.try_send(()).is_ok());
    assert!(r.tx_start.try_send(()).is_ok());
    assert!(r.tx_start.try_send(()).is_err());

    assert!(r.rx_start.recv().is_ok());
    assert!(r.tx_start.try_send(()).is_ok());

    let mut transitions = 0;
    let before = r.state.shared.control_state;
    assert_eq!(r.state.react(Event::StartSignal, &r.rx_start), Action::Run);
    if before == ControlStatus::Stopped && r.state.shared.control_state == ControlStatus::Running {
        transitions += 1;
    }
    assert!(r.rx_start.is_empty());
    assert!(r.tx_stop.is_empty());

    let plan = r.state.plan_cycle();
    assert!(!plan.stop);

    r.tx_stop.try_send(()).unwrap();
    let plan = r.state.plan_cycle();
    assert!(plan.stop);
    let outcome = r.state.complete_cycle(&plan, &Vec::new());
    assert_eq!(outcome, CycleOutcome::Halted);
    let event = run_ends(outcome).unwrap();
    assert_eq!(r.state.react(event, &r.rx_start), Action::AwaitStart);
    assert_eq!(r.state.shared.control_state, ControlStatus::Stopped);

    assert!(r.rx_start.try_recv().is_err());
    assert_eq!(transitions, 1);
}

#[test]
fn retry_after_a_fault_keeps_queued_signals() {
    let mut r = rig();
    r.state.react(Event::StartSignal, &r.rx_start);
    r.state.react(fault(DeviceFault::Timeout), &r.rx_start);
    r.tx_stop.try_send(()).unwrap();
    r.tx_start.try_send(()).unwrap();
    assert_eq!(r.state.react(Event::RestartTimeout, &r.rx_start), Action::Run);
    assert!(!r.tx_stop.is_empty());
    assert!(!r.rx_start.is_empty());
}

#[test]
fn draining_leaves_a_larger_mailbox_empty_too() {
    let config = Config::default();
    let cell: StateChannel = Arc::new(RwLock::new(SharedState::initial(0, 0)));
    let setpoints: SetpointCell = Arc::new(RwLock::new(Vec::new()));
    let (tx_stop, rx_stop) = bounded::<()>(4);
    let (tx_start, rx_start) = bounded::<()>(3);
    let mut state = ExecState::new(config, cell, rx_stop, setpoints);
    for _ in 0..4 {
        tx_stop.try_send(()).unwrap();
    }
    for _ in 0..3 {
        tx_start.try_send(()).unwrap();
    }
    assert_eq!(state.react(Event::StartSignal, &rx_start), Action::Run);
    assert!(tx_stop.is_empty());
    assert!(tx_start.is_empty());
}

#[test]
fn a_cycle_outcome_ends_the_run_or_not() {
    assert_eq!(run_ends(CycleOutcome::Published), None);
    assert_eq!(run_ends(CycleOutcome::Halted), Some(Event::RunCompleted));
    let f = Fault { variable: 3, cause: DeviceFault::DeviceError };
    assert_eq!(run_ends(CycleOutcome::Faulted(f)), Some(Event::RunFaulted(f)));
}

#[test]
fn a_stop_and_two_starts_in_a_row_start_the_loop_once() {
    let mut r = rig();
    let mut starts = 0;
    for event in [Event::StopSignal, Event::StartSignal, Event::StartSignal] {
        let before = r.state.shared.control_state;
        r.state.react_at(event, 0);
        let after = r.state.shared.control_state;
        if before == ControlStatus::Stopped && after == ControlStatus::Running {
            starts += 1;
        }
    }
    assert_eq!(starts, 1);
    assert_eq!(r.state.shared.control_state, ControlStatus::Running);
}
