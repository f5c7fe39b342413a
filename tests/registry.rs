use std::cell::RefCell;
use std::rc::Rc;

use sidecar_orchestration::credentials::SessionCredentials;
use sidecar_orchestration::registry::{
    EngineState, OpenCodeRouterState, OpenworkServerState, OrchestratorState, ProcessHandle,
};
use sidecar_orchestration::runtime::{
    install_daemon, install_direct_engine, prepare_start, record_orchestrated_engine, stop_all,
};
use sidecar_orchestration::types::EngineRuntime;

#[derive(Clone)]
struct FakeChild {
    pid: u32,
    kills: Rc<RefCell<Vec<u32>>>,
}

impl ProcessHandle for FakeChild {
    fn kill(self) {
        self.kills.borrow_mut().push(self.pid);
    }
}

fn child(pid: u32, kills: &Rc<RefCell<Vec<u32>>>) -> FakeChild {
    FakeChild { pid, kills: kills.clone() }
}

fn creds() -> SessionCredentials {
    SessionCredentials {
        username: Some("opencode".to_string()),
        password: Some("secret-password".to_string()),
    }
}

#[test]
fn stop_on_empty_registry_resets_every_field() {
    let mut state: EngineState<FakeChild> = EngineState::new();
    state.runtime = EngineRuntime::Orchestrator;
    state.port = Some(4096);
    state.base_url = Some("http://127.0.0.1:4096".to_string());
    state.opencode_username = Some("opencode".to_string());
    state.opencode_password = Some("pw".to_string());
    state.last_stderr = Some("boom".to_string());
    state.stop_locked();
    assert!(state.child.is_none());
    assert!(state.child_exited);
    assert_eq!(state.runtime, EngineRuntime::Direct);
    assert!(state.port.is_none() && state.base_url.is_none());
    assert!(state.opencode_username.is_none() && state.opencode_password.is_none());
    assert!(state.last_stdout.is_none() && state.last_stderr.is_none());
    state.stop_locked();
    assert!(state.child_exited && state.port.is_none());
}

#[test]
fn stop_kills_the_running_child_once() {
    let kills = Rc::new(RefCell::new(Vec::new()));
    let mut state: OpenworkServerState<FakeChild> = OpenworkServerState::new();
    state.start_locked(child(7, &kills), 7);
    state.client_token = Some("t".to_string());
    state.stop_locked();
    state.stop_locked();
    assert_eq!(*kills.borrow(), vec![7]);
    assert!(state.client_token.is_none() && state.host_token.is_none());
}

#[test]
fn snapshot_reports_running_until_exit_is_latched() {
    let kills = Rc::new(RefCell::new(Vec::new()));
    let mut state: OpenCodeRouterState<FakeChild> = OpenCodeRouterState::new();
    state.start_locked(child(42, &kills), 42);
    state.record_stdout("hello ");
    state.record_stdout("world");
    let info = state.snapshot_locked();
    assert!(info.running);
    assert_eq!(info.pid, Some(42));
    assert_eq!(info.last_stdout.as_deref(), Some("hello world"));
    state.mark_exited();
    let info = state.snapshot_locked();
    assert!(!info.running);
    assert_eq!(info.pid, None);
    assert!(state.child.is_none());
    assert!(kills.borrow().is_empty());
}

#[test]
fn start_clears_latch_and_output() {
    let kills = Rc::new(RefCell::new(Vec::new()));
    let mut state: OrchestratorState<FakeChild> = OrchestratorState::new();
    state.start_locked(child(1, &kills), 1, "/data".to_string());
    state.record_stderr("err");
    state.mark_exited();
    state.start_locked(child(2, &kills), 2, "/data2".to_string());
    assert!(!state.child_exited);
    assert!(state.last_stderr.is_none());
    assert_eq!(*kills.borrow(), vec![1]);
    assert_eq!(state.stop_locked().as_deref(), Some("/data2"));
    assert!(state.data_dir.is_none());
}

#[test]
fn switching_mode_leaves_no_process_of_the_previous_mode() {
    let kills = Rc::new(RefCell::new(Vec::new()));
    let mut engine: EngineState<FakeChild> = EngineState::new();
    let mut daemon: OrchestratorState<FakeChild> = OrchestratorState::new();

    prepare_start(&mut engine, &mut daemon, EngineRuntime::Direct);
    install_direct_engine(&mut engine, &daemon, child(100, &kills), 100, "/p".to_string(), 4096, creds());
    assert_eq!(engine.snapshot_locked().pid, Some(100));

    let cleared = prepare_start(&mut engine, &mut daemon, EngineRuntime::Orchestrator);
    assert!(cleared.is_none());
    assert_eq!(*kills.borrow(), vec![100]);
    install_daemon(&engine, &mut daemon, child(200, &kills), 200, "/data".to_string());
    record_orchestrated_engine(&mut engine, "/p".to_string(), 5000, creds());
    assert!(engine.child.is_none());
    assert_eq!(daemon.child.as_ref().map(|c| c.pid), Some(200));

    let cleared = prepare_start(&mut engine, &mut daemon, EngineRuntime::Direct);
    assert_eq!(cleared.as_deref(), Some("/data"));
    assert_eq!(*kills.borrow(), vec![100, 200]);
    install_direct_engine(&mut engine, &daemon, child(300, &kills), 300, "/p".to_string(), 4097, creds());
    assert!(daemon.child.is_none());
    assert_eq!(engine.base_url.as_deref(), Some("http://127.0.0.1:4097"));
    assert_eq!(engine.opencode_username.as_deref(), Some("opencode"));
}

#[test]
fn stop_all_resets_three_registries() {
    let kills = Rc::new(RefCell::new(Vec::new()));
    let mut engine: EngineState<FakeChild> = EngineState::new();
    let mut daemon: OrchestratorState<FakeChild> = OrchestratorState::new();
    let mut relay: OpenworkServerState<FakeChild> = OpenworkServerState::new();
    daemon.start_locked(child(5, &kills), 5, "/d".to_string());
    relay.start_locked(child(6, &kills), 6);
    let dir = stop_all(&mut engine, &mut daemon, &mut relay);
    assert_eq!(dir.as_deref(), Some("/d"));
    let mut killed = kills.borrow().clone();
    killed.sort();
    assert_eq!(killed, vec![5, 6]);
    assert!(engine.child_exited && daemon.child.is_none() && relay.child.is_none());
}

use sidecar_orchestration::runtime::plan_engine_start;

#[test]
fn start_plan_puts_project_first() {
    let plan = plan_engine_start(
        "  /p ",
        None,
        vec!["/a".to_string(), " /p ".to_string(), "  ".to_string(), "/b".to_string()],
    )
    .unwrap();
    assert_eq!(plan.project_dir, "/p");
    assert_eq!(plan.runtime, EngineRuntime::Orchestrator);
    assert_eq!(plan.workspace_paths, vec!["/p", "/a", "/b"]);
    let direct = plan_engine_start("/p", Some(EngineRuntime::Direct), vec![]).unwrap();
    assert_eq!(direct.runtime, EngineRuntime::Direct);
    assert_eq!(
        plan_engine_start("   ", None, vec![]).unwrap_err(),
        "projectDir is required"
    );
}
