use sidecar_orchestration::args::{
    build_detached_args, build_engine_args, build_opencode_router_args, build_openwork_args,
    build_orchestrator_daemon_args, OrchestratorSpawnOptions,
};

#[test]
fn engine_args_carry_the_port_once() {
    let port: u16 = 49152;
    let args = build_engine_args("0.0.0.0", port);
    assert_eq!(
        args,
        vec!["serve", "--hostname", "0.0.0.0", "--port", "49152", "--cors", "*"]
    );
    let at = args.iter().position(|a| a == "--port").unwrap();
    assert_eq!(args[at + 1], port.to_string());
    assert_eq!(args.iter().filter(|a| *a == "--port").count(), 1);
}

#[test]
fn engine_args_are_deterministic() {
    assert_eq!(build_engine_args("127.0.0.1", 0), build_engine_args("127.0.0.1", 0));
    assert_eq!(build_engine_args("h", 65535)[4], "65535");
}

#[test]
fn openwork_args_skip_blank_values() {
    let paths = vec!["/a".to_string(), "  ".to_string(), "/b".to_string()];
    let args = build_openwork_args("0.0.0.0", 8787, &paths, "tok", "host", Some(" "), Some("/a"));
    assert_eq!(
        args,
        vec![
            "--host", "0.0.0.0", "--port", "8787", "--token", "tok", "--host-token", "host",
            "--cors", "*", "--approval", "auto", "--workspace", "/a", "--workspace", "/b",
            "--opencode-directory", "/a",
        ]
    );
}

#[test]
fn router_args_trim_the_url() {
    assert_eq!(
        build_opencode_router_args("/w", Some("  http://x:1  ")),
        vec!["serve", "/w", "--opencode-url", "http://x:1"]
    );
    assert_eq!(build_opencode_router_args("/w", Some("   ")), vec!["serve", "/w"]);
    assert_eq!(build_opencode_router_args("/w", None), vec!["serve", "/w"]);
}

#[test]
fn daemon_args_in_order() {
    let options = OrchestratorSpawnOptions {
        data_dir: "/d".to_string(),
        daemon_host: "127.0.0.1".to_string(),
        daemon_port: 9000,
        opencode_bin: "/bin/opencode".to_string(),
        opencode_host: "0.0.0.0".to_string(),
        opencode_workdir: "/w".to_string(),
        opencode_port: Some(4096),
        opencode_username: Some("opencode".to_string()),
        opencode_password: Some(" ".to_string()),
        cors: Some("*".to_string()),
    };
    assert_eq!(
        build_orchestrator_daemon_args(&options),
        vec![
            "daemon", "run", "--data-dir", "/d", "--daemon-host", "127.0.0.1", "--daemon-port",
            "9000", "--opencode-bin", "/bin/opencode", "--opencode-host", "0.0.0.0",
            "--opencode-workdir", "/w", "--allow-external", "--opencode-port", "4096",
            "--opencode-username", "opencode", "--cors", "*",
        ]
    );
}

#[test]
fn detached_args_add_sandbox_for_containers() {
    let plain = build_detached_args("/w", 1234, "t", "h", "run", false);
    assert_eq!(plain.len(), 19);
    assert_eq!(plain[12], "1234");
    let docker = build_detached_args("/w", 1234, "t", "h", "run", true);
    assert_eq!(&docker[19..], &["--sandbox".to_string(), "docker".to_string()]);
}

use sidecar_orchestration::args::{engine_bind_host, engine_env, relay_env, router_env};

fn pairs(v: &[(String, String)]) -> Vec<(&str, &str)> {
    v.iter().map(|(k, x)| (k.as_str(), x.as_str())).collect()
}

#[test]
fn credentials_go_through_the_environment() {
    assert_eq!(
        pairs(&engine_env(Some("opencode"), Some("pw"))),
        vec![
            ("OPENCODE_CLIENT", "openwork"),
            ("OPENWORK", "1"),
            ("OPENCODE_SERVER_USERNAME", "opencode"),
            ("OPENCODE_SERVER_PASSWORD", "pw"),
        ]
    );
    assert_eq!(
        pairs(&relay_env(Some(" "), Some("pw"))),
        vec![("DOWHAT_OPENCODE_PASSWORD", "pw")]
    );
    assert!(relay_env(None, None).is_empty());
    assert_eq!(
        pairs(&router_env(3005, Some("u"), None)),
        vec![("OPENCODE_ROUTER_HEALTH_PORT", "3005"), ("OPENCODE_SERVER_USERNAME", "u")]
    );
}

#[test]
fn bind_host_defaults_to_every_interface() {
    assert_eq!(engine_bind_host(None), "0.0.0.0");
    assert_eq!(engine_bind_host(Some("  ")), "0.0.0.0");
    assert_eq!(engine_bind_host(Some("127.0.0.1")), "127.0.0.1");
}
