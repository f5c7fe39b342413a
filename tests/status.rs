use sidecar_orchestration::credentials::{
    auth_enabled, auth_snapshot, new_token, reattach, session_credentials,
};
use sidecar_orchestration::status::{
    endpoint_url, orchestrated_engine_info, orchestrator_status_from_state,
    resolve_orchestrator_status, status_probe_url, EngineMemory, OrchestratorHealth,
    OrchestratorStateFile, OrchestratorWorkspaceList,
};
use sidecar_orchestration::types::{
    EngineRuntime, OrchestratorDaemonState, OrchestratorOpencodeState, OrchestratorWorkspace,
};

fn ws(id: &str, path: &str) -> OrchestratorWorkspace {
    OrchestratorWorkspace {
        id: id.to_string(),
        name: id.to_string(),
        path: path.to_string(),
        workspace_type: "local".to_string(),
        base_url: None,
        directory: None,
        created_at: None,
        last_used_at: None,
    }
}

fn state_file() -> OrchestratorStateFile {
    OrchestratorStateFile {
        version: Some(1),
        daemon: Some(OrchestratorDaemonState {
            pid: 10,
            port: 9000,
            base_url: "http://127.0.0.1:9000/".to_string(),
            started_at: 1,
        }),
        opencode: None,
        cli_version: Some("1.0".to_string()),
        sidecar: None,
        binaries: None,
        active_id: Some("  ".to_string()),
        workspaces: vec![ws("a", "/a"), ws("b", "/b")],
    }
}

fn health(ok: bool) -> OrchestratorHealth {
    OrchestratorHealth {
        ok,
        daemon: None,
        opencode: Some(OrchestratorOpencodeState {
            pid: 77,
            port: 4096,
            base_url: "http://127.0.0.1:4096".to_string(),
            started_at: 2,
        }),
        cli_version: None,
        sidecar: None,
        binaries: None,
        active_id: Some("b".to_string()),
        workspace_count: Some(9),
    }
}

#[test]
fn status_from_state_file() {
    let s = orchestrator_status_from_state("/d", Some("err".to_string()), Some(state_file()));
    assert!(!s.running);
    assert_eq!(s.workspace_count, 2);
    assert!(s.active_id.is_none());
    assert_eq!(s.last_error.as_deref(), Some("err"));
    assert_eq!(status_probe_url(&s).as_deref(), Some("http://127.0.0.1:9000/"));
    let empty = orchestrator_status_from_state("/d", None, None);
    assert_eq!(empty.workspace_count, 0);
    assert!(status_probe_url(&empty).is_none());
}

#[test]
fn status_refreshed_from_health() {
    let fallback = orchestrator_status_from_state("/d", Some("old".to_string()), Some(state_file()));
    let s = resolve_orchestrator_status(fallback, Some(Ok(health(true))), None);
    assert!(s.running);
    assert!(s.last_error.is_none());
    assert_eq!(s.workspace_count, 9);
    assert_eq!(s.workspaces.len(), 2);
    assert_eq!(s.active_id.as_deref(), Some("b"));

    let fallback = orchestrator_status_from_state("/d", None, Some(state_file()));
    let list = OrchestratorWorkspaceList { active_id: Some("a".to_string()), workspaces: vec![ws("a", "/a")] };
    let s = resolve_orchestrator_status(fallback, Some(Ok(health(false))), Some(list));
    assert!(!s.running);
    assert_eq!(s.workspace_count, 1);
    assert_eq!(s.active_id.as_deref(), Some("a"));

    let fallback = orchestrator_status_from_state("/d", None, Some(state_file()));
    let s = resolve_orchestrator_status(fallback, Some(Err("refused".to_string())), None);
    assert_eq!(s.last_error.as_deref(), Some("refused"));
    assert_eq!(s.workspace_count, 2);
}

#[test]
fn endpoint_drops_trailing_slashes() {
    assert_eq!(endpoint_url("http://h:1//", "/health"), "http://h:1/health");
    assert_eq!(endpoint_url("http://h:1", "/workspaces"), "http://h:1/workspaces");
}

#[test]
fn engine_info_falls_back_on_snapshot_after_relaunch() {
    let fallback = orchestrator_status_from_state("/d", None, Some(state_file()));
    let status = resolve_orchestrator_status(fallback, Some(Ok(health(true))), None);
    let memory = EngineMemory {
        runtime: EngineRuntime::Orchestrator,
        project_dir: None,
        opencode_username: None,
        opencode_password: None,
    };
    let snapshot = auth_snapshot(
        Some("opencode".to_string()),
        Some("pw".to_string()),
        Some("/p".to_string()),
        5,
    );
    assert_eq!(snapshot.updated_at, Some(5));
    let info = orchestrated_engine_info(memory, status, Some(snapshot), None, Some("e".to_string()));
    assert!(info.running);
    assert_eq!(info.opencode_username.as_deref(), Some("opencode"));
    assert_eq!(info.opencode_password.as_deref(), Some("pw"));
    assert_eq!(info.project_dir.as_deref(), Some("/b"));
    assert_eq!(info.base_url.as_deref(), Some("http://127.0.0.1:4096"));
    assert_eq!(info.pid, Some(77));
    assert_eq!(info.hostname.as_deref(), Some("127.0.0.1"));
}

#[test]
fn memory_wins_over_snapshot() {
    assert_eq!(reattach(Some("m".to_string()), Some("s".to_string())).as_deref(), Some("m"));
    assert_eq!(reattach(None, Some("s".to_string())).as_deref(), Some("s"));
    assert_eq!(reattach(None, None), None);
}

#[test]
fn auth_switch_and_credentials() {
    assert!(auth_enabled(None));
    assert!(auth_enabled(Some(" ")));
    assert!(auth_enabled(Some("1")));
    assert!(auth_enabled(Some("TRUE")));
    assert!(!auth_enabled(Some("0")));
    assert!(!auth_enabled(Some(" true")));
    let c = session_credentials(true);
    assert_eq!(c.username.as_deref(), Some("opencode"));
    let pw = c.password.unwrap();
    assert_eq!(pw.len(), 36);
    assert!(pw.chars().all(|ch| ch.is_ascii_hexdigit() || ch == '-'));
    let none = session_credentials(false);
    assert!(none.username.is_none() && none.password.is_none());
    assert_ne!(new_token(), new_token());
}
