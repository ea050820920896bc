use plumise_agent::state::{
    AgentState, AgentStatus, ExitReport, NodeMode, StartError, StopError, WorkerExitReport,
};

fn running() -> AgentState {
    let mut state = AgentState::new();
    assert!(state.begin_start(18920).is_ok());
    assert!(state.record_launch(Some(4242), 1000, "/m/model.gguf".to_string(), "0xabc".to_string()));
    assert!(state.mark_ready());
    state
}

#[test]
fn new_agent_is_stopped_and_standalone() {
    let state = AgentState::new();
    assert_eq!(state.status, AgentStatus::Stopped);
    assert_eq!(state.http_port, 18920);
    assert_eq!(state.node_mode, NodeMode::Standalone);
    assert_eq!(state.pid, None);
    assert_eq!(state.rpc_server_pid, None);
    assert_eq!(state.cluster_id, None);
    assert!(state.background_tasks.is_empty());
}

#[test]
fn start_moves_stopped_to_starting() {
    let mut state = AgentState::new();
    assert_eq!(state.begin_start(9000), Ok(()));
    assert_eq!(state.status, AgentStatus::Starting);
    assert_eq!(state.http_port, 9000);
}

#[test]
fn start_on_running_agent_is_refused_and_changes_nothing() {
    let mut state = running();
    let before = state.clone();
    assert_eq!(state.begin_start(9999), Err(StartError::AlreadyActive));
    assert_eq!(state.status, AgentStatus::Running);
    assert_eq!(state.http_port, before.http_port);
    assert_eq!(state.pid, before.pid);
    assert_eq!(StartError::AlreadyActive.message(), "Agent is already running or starting");
}

#[test]
fn start_on_starting_agent_is_refused() {
    let mut state = AgentState::new();
    state.begin_start(18920).unwrap();
    assert_eq!(state.begin_start(18921), Err(StartError::AlreadyActive));
    assert_eq!(state.http_port, 18920);
}

#[test]
fn start_is_allowed_after_an_error() {
    let mut state = running();
    state.on_engine_exit(Some(1));
    assert_eq!(state.status, AgentStatus::Error);
    assert_eq!(state.begin_start(18920), Ok(()));
    assert_eq!(state.status, AgentStatus::Starting);
}

#[test]
fn stop_on_stopped_agent_is_refused_and_plans_nothing() {
    let mut state = AgentState::new();
    let outcome = state.begin_stop();
    assert!(matches!(outcome, Err(StopError::NotRunning)));
    assert_eq!(state.status, AgentStatus::Stopped);
    assert_eq!(state.pid, None);
    assert_eq!(StopError::NotRunning.message(), "Agent is not running");
}

#[test]
fn readiness_alone_moves_starting_to_running() {
    let mut state = AgentState::new();
    assert!(!state.mark_ready());
    assert_eq!(state.status, AgentStatus::Stopped);
    state.begin_start(18920).unwrap();
    assert!(state.mark_ready());
    assert_eq!(state.status, AgentStatus::Running);
    assert!(!state.mark_ready());
}

#[test]
fn failed_start_leaves_agent_in_error() {
    let mut state = AgentState::new();
    state.begin_start(18920).unwrap();
    assert!(state.fail_start());
    assert_eq!(state.status, AgentStatus::Error);
    assert_eq!(state.node_mode, NodeMode::Standalone);
    assert!(!state.fail_start());
}

#[test]
fn exit_while_running_is_a_crash() {
    let mut state = running();
    let report = state.on_engine_exit(Some(-1073741819));
    match report {
        ExitReport::Crash { peer_loss, diagnosis } => {
            assert!(!peer_loss);
            assert_eq!(
                diagnosis,
                "llama-server crashed: Access violation. Try reducing GPU layers (gpu_layers=0 for CPU-only mode)."
            );
        }
        ExitReport::Expected => panic!("a crash was expected"),
    }
    assert_eq!(state.status, AgentStatus::Error);
    assert_eq!(state.pid, None);
    assert_eq!(state.node_mode, NodeMode::Standalone);
    assert_eq!(state.cluster_id, None);
}

#[test]
fn exit_before_readiness_is_a_crash() {
    let mut state = AgentState::new();
    state.begin_start(18920).unwrap();
    state.record_launch(Some(7), 5, "m".to_string(), "a".to_string());
    assert!(matches!(state.on_engine_exit(None), ExitReport::Crash { .. }));
    assert_eq!(state.status, AgentStatus::Error);
}

#[test]
fn exit_after_stop_command_is_no_error() {
    let mut state = running();
    state.add_background_task(1);
    state.add_background_task(2);
    let plan = state.begin_stop().unwrap();
    assert_eq!(plan.cancel_tasks, vec![1, 2]);
    assert_eq!(plan.kill_engine, Some(4242));
    assert_eq!(plan.kill_worker, None);
    assert_eq!(state.status, AgentStatus::Stopping);
    assert!(matches!(state.on_engine_exit(Some(137)), ExitReport::Expected));
    assert_eq!(state.status, AgentStatus::Stopping);
    assert!(state.finish_stop());
    assert_eq!(state.status, AgentStatus::Stopped);
    assert_eq!(state.start_time, None);
    assert_eq!(state.node_mode, NodeMode::Standalone);
    assert_eq!(state.cluster_id, None);
    assert!(state.background_tasks.is_empty());
}

#[test]
fn stop_from_error_reaches_stopped() {
    let mut state = running();
    state.on_engine_exit(Some(1));
    let plan = state.begin_stop().unwrap();
    assert_eq!(plan.kill_engine, None);
    assert!(state.finish_stop());
    assert_eq!(state.status, AgentStatus::Stopped);
}

#[test]
fn coordinator_crash_is_diagnosed_as_peer_loss_and_resets_mode() {
    let mut state = running();
    assert_eq!(state.begin_coordinator_restart(), Some(4242));
    assert_eq!(state.status, AgentStatus::Starting);
    assert!(state.record_relaunch(5000));
    assert!(state.mark_ready());
    assert!(state.enter_coordinator(Some("cluster-1".to_string())));
    assert_eq!(state.node_mode, NodeMode::Coordinator);
    assert_eq!(state.cluster_id, Some("cluster-1".to_string()));
    match state.on_engine_exit(Some(1)) {
        ExitReport::Crash { peer_loss, diagnosis } => {
            assert!(peer_loss);
            assert_eq!(diagnosis, "llama-server exited with code 1");
        }
        ExitReport::Expected => panic!("a crash was expected"),
    }
    assert_eq!(state.node_mode, NodeMode::Standalone);
    assert_eq!(state.cluster_id, None);
}

#[test]
fn worker_mode_tracks_worker_and_forbids_relay() {
    let mut state = running();
    assert!(state.relay_allowed());
    assert_eq!(state.release_engine(), Some(4242));
    assert_eq!(state.pid, None);
    assert!(state.enter_worker(777, Some("c9".to_string())));
    assert_eq!(state.node_mode, NodeMode::RpcServer);
    assert_eq!(state.rpc_server_pid, Some(777));
    assert!(!state.relay_allowed());
    let plan = state.begin_stop().unwrap();
    assert_eq!(plan.kill_worker, Some(777));
}

#[test]
fn worker_crash_fails_the_agent() {
    let mut state = running();
    state.release_engine();
    state.enter_worker(777, None);
    assert_eq!(state.on_worker_exit(), WorkerExitReport::Crash);
    assert_eq!(state.status, AgentStatus::Error);
    assert_eq!(state.rpc_server_pid, None);
    assert_eq!(state.node_mode, NodeMode::Standalone);
}

#[test]
fn worker_exit_outside_worker_mode_changes_nothing() {
    let mut state = running();
    assert_eq!(state.on_worker_exit(), WorkerExitReport::Terminated);
    assert_eq!(state.status, AgentStatus::Running);
}

#[test]
fn stopped_agent_takes_no_task_and_no_worker() {
    let mut state = AgentState::new();
    assert!(!state.add_background_task(1));
    assert!(state.background_tasks.is_empty());
    assert!(!state.enter_worker(1, None));
    assert!(!state.enter_coordinator(None));
    assert_eq!(state.release_engine(), None);
    assert_eq!(state.begin_coordinator_restart(), None);
    assert!(!state.record_launch(Some(1), 1, "m".to_string(), "a".to_string()));
}

#[test]
fn status_response_reports_status_and_port() {
    let state = running();
    let response = state.status_response();
    assert_eq!(response.status, AgentStatus::Running);
    assert_eq!(response.http_port, 18920);
}

#[test]
fn mode_names_on_the_wire() {
    assert_eq!(NodeMode::Standalone.as_str(), "standalone");
    assert_eq!(NodeMode::RpcServer.as_str(), "rpc-server");
    assert_eq!(NodeMode::Coordinator.as_str(), "coordinator");
}

#[test]
fn exit_of_the_tracked_engine_is_a_crash() {
    let mut state = running();
    assert!(matches!(state.on_exit_of(Some(4242), Some(1)), ExitReport::Crash { .. }));
    assert_eq!(state.status, AgentStatus::Error);
    assert_eq!(state.pid, None);
}

#[test]
fn exit_of_another_process_changes_nothing() {
    let mut state = running();
    assert!(matches!(state.on_exit_of(Some(9), Some(1)), ExitReport::Expected));
    assert!(matches!(state.on_exit_of(None, Some(1)), ExitReport::Expected));
    assert_eq!(state.status, AgentStatus::Running);
    assert_eq!(state.pid, Some(4242));
}

#[test]
fn coordinator_restart_survives_the_exit_of_the_old_engine() {
    let mut state = running();
    assert_eq!(state.begin_coordinator_restart(), Some(4242));
    assert!(matches!(state.on_exit_of(Some(4242), Some(137)), ExitReport::Expected));
    assert_eq!(state.status, AgentStatus::Starting);
    assert!(state.record_relaunch(5000));
    assert!(state.mark_ready());
    assert!(state.enter_coordinator(Some("c".to_string())));
    assert_eq!(state.status, AgentStatus::Running);
    assert_eq!(state.node_mode, NodeMode::Coordinator);
    match state.on_exit_of(Some(5000), Some(1)) {
        ExitReport::Crash { peer_loss, .. } => assert!(peer_loss),
        ExitReport::Expected => panic!("a crash was expected"),
    }
    assert_eq!(state.node_mode, NodeMode::Standalone);
}

#[test]
fn worker_switch_survives_the_exit_of_the_engine() {
    let mut state = running();
    assert_eq!(state.release_engine(), Some(4242));
    assert!(matches!(state.on_exit_of(Some(4242), None), ExitReport::Expected));
    assert_eq!(state.status, AgentStatus::Running);
    assert!(state.enter_worker(777, Some("c".to_string())));
    assert_eq!(state.node_mode, NodeMode::RpcServer);
}

#[test]
fn exit_after_stop_command_is_expected_whatever_the_pid() {
    let mut state = running();
    state.begin_stop().unwrap();
    assert!(matches!(state.on_exit_of(Some(4242), Some(137)), ExitReport::Expected));
    assert!(matches!(state.on_exit_of(None, Some(137)), ExitReport::Expected));
    assert_eq!(state.status, AgentStatus::Stopping);
}
