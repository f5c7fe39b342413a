use sidecar_orchestration::sandbox::{
    container_label, detached_host, detached_tokens, local_url, plan_detached_sandbox,
    SandboxStage, SandboxWatch,
};

#[test]
fn plan_requires_a_workspace() {
    let err = plan_detached_sandbox("   ", None, None, "fresh".to_string()).unwrap_err();
    assert_eq!(err, "workspacePath is required");
}

#[test]
fn plan_for_docker_names_the_container() {
    let plan = plan_detached_sandbox(" /w ", Some("  DOCKER "), Some("  run-1 "), "fresh".to_string()).unwrap();
    assert_eq!(plan.workspace_path, "/w");
    assert!(plan.wants_docker);
    assert_eq!(plan.run_id, "run-1");
    assert_eq!(plan.container_name.as_deref(), Some("openwork-orchestrator-run-1"));
}

#[test]
fn plan_without_backend_uses_fresh_id() {
    let plan = plan_detached_sandbox("/w", None, Some("  "), "fresh-id".to_string()).unwrap();
    assert!(!plan.wants_docker);
    assert_eq!(plan.run_id, "fresh-id");
    assert!(plan.container_name.is_none());
}

#[test]
fn host_reports_container_details_only_for_docker() {
    let plan = plan_detached_sandbox("/w", Some("docker"), Some("r"), "f".to_string()).unwrap();
    let tokens = detached_tokens();
    assert_eq!(tokens.token.len(), 36);
    assert_ne!(tokens.token, tokens.host_token);
    let host = detached_host(plan, 4321, tokens);
    assert_eq!(host.openwork_url, "http://127.0.0.1:4321");
    assert_eq!(host.sandbox_backend.as_deref(), Some("docker"));
    assert_eq!(host.sandbox_run_id.as_deref(), Some("r"));
    assert_eq!(host.sandbox_container_name.as_deref(), Some("openwork-orchestrator-r"));

    let plan = plan_detached_sandbox("/w", Some("none"), None, "f".to_string()).unwrap();
    let host = detached_host(plan, 1, detached_tokens());
    assert!(host.sandbox_backend.is_none() && host.sandbox_run_id.is_none());
    assert_eq!(local_url(1), "http://127.0.0.1:1");
}

#[test]
fn watch_probes_and_ticks_on_their_own_timers() {
    let mut w = SandboxWatch::new(true);
    assert!(w.container_probe_due(0));
    assert!(w.tick_due(0));
    assert!(!w.container_probe_due(1000));
    assert!(w.tick_due(851));
    assert!(!w.container_probe_due(1500));
    assert!(w.container_probe_due(1501));
    let mut plain = SandboxWatch::new(false);
    assert!(!plain.container_probe_due(0));
}

#[test]
fn watch_reports_changes_only() {
    let mut w = SandboxWatch::new(true);
    assert!(!w.record_container_state(None));
    assert!(w.record_container_state(Some("created".to_string())));
    assert!(!w.record_container_state(Some("created".to_string())));
    assert!(w.record_container_probe_error("boom".to_string()));
    assert!(!w.record_container_probe_error("boom".to_string()));
    assert!(w.record_container_state(Some("running".to_string())));
    assert!(w.last_container_probe_error.is_none());
    assert_eq!(w.last_container_state.as_deref(), Some("running"));
}

#[test]
fn stage_names_and_labels() {
    assert_eq!(SandboxStage::DockerConfig.name(), "docker.config");
    assert_eq!(SandboxStage::OpenworkHealthy.name(), "openwork.healthy");
    assert_eq!(SandboxStage::Complete.name(), "complete");
    assert_eq!(container_label(&None), "Sandbox container: not-created");
    assert_eq!(container_label(&Some("running".to_string())), "Sandbox container: running");
}
