use std::cell::RefCell;
use std::rc::Rc;

use sidecar_orchestration::bridge::{
    health_check_port, install_router, router_info_with_fallbacks,
    DEFAULT_OPENCODE_ROUTER_HEALTH_PORT,
};
use sidecar_orchestration::registry::{OpenCodeRouterState, OpenworkServerState, ProcessHandle};

struct Fake(Rc<RefCell<u32>>);

impl ProcessHandle for Fake {
    fn kill(self) {
        *self.0.borrow_mut() += 1;
    }
}

#[test]
fn router_install_and_health_port() {
    let kills = Rc::new(RefCell::new(0));
    let mut state: OpenCodeRouterState<Fake> = OpenCodeRouterState::new();
    assert_eq!(health_check_port(&state), DEFAULT_OPENCODE_ROUTER_HEALTH_PORT);
    install_router(&mut state, Fake(kills.clone()), 9, "/w".to_string(), Some("http://e".to_string()), 4000);
    assert_eq!(health_check_port(&state), 4000);
    let info = state.snapshot_locked();
    assert!(info.running);
    assert_eq!(info.workspace_path.as_deref(), Some("/w"));
    state.record_termination(Some(3));
    assert_eq!(state.last_stderr.as_deref(), Some("OpenCodeRouter exited (code 3)."));
    assert!(!state.snapshot_locked().running);
    state.stop_locked();
    assert_eq!(*kills.borrow(), 0);
}

#[test]
fn router_info_uses_health_and_status_output() {
    let mut state: OpenCodeRouterState<Fake> = OpenCodeRouterState::new();
    let info = state.snapshot_locked();
    let r = router_info_with_fallbacks(info, Some(Some("http://h".to_string())), Some("http://cli"), Some("  /dir "));
    assert!(r.running);
    assert_eq!(r.opencode_url.as_deref(), Some("http://h"));
    assert_eq!(r.workspace_path.as_deref(), Some("/dir"));

    let info = state.snapshot_locked();
    let r = router_info_with_fallbacks(info, None, Some("  "), None);
    assert!(!r.running);
    assert!(r.opencode_url.is_none() && r.workspace_path.is_none());

    let info = state.snapshot_locked();
    let r = router_info_with_fallbacks(info, Some(None), Some(" http://cli "), None);
    assert!(r.running);
    assert_eq!(r.opencode_url.as_deref(), Some("http://cli"));
}

#[test]
fn relay_failure_and_termination_notices() {
    let mut relay: OpenworkServerState<Fake> = OpenworkServerState::new();
    relay.start_locked(Fake(Rc::new(RefCell::new(0))), 1);
    relay.record_stderr("warn;");
    relay.record_failure("spawn error");
    assert!(relay.child_exited);
    assert_eq!(relay.last_stderr.as_deref(), Some("warn;spawn error"));
    relay.record_termination(None);
    assert_eq!(relay.last_stderr.as_deref(), Some("warn;spawn error"));
    relay.record_termination(Some(-1));
    assert_eq!(relay.last_stderr.as_deref(), Some("OpenWork server exited (code -1)."));
}
