use sidecar_orchestration::text::join_path;
use sidecar_orchestration::docker::{
    classify_info_failure, derive_orchestrator_container_name, docker_candidate_paths,
    docker_failure_message, docker_inspect_outcome, docker_programs, doctor_after_info,
    doctor_after_version, inspect_reports_missing, is_openwork_managed_container,
    list_failure_message, managed_container_names, parse_docker_client_version,
    parse_docker_server_version, parse_path_export_value, truncate_for_debug,
    validate_container_name, DockerCommandResult, DoctorProgress, OpenworkDockerCleanupResult,
};

fn result(status: i32, stdout: &str, stderr: &str) -> DockerCommandResult {
    DockerCommandResult {
        status,
        stdout: stdout.to_string(),
        stderr: stderr.to_string(),
        program: "/usr/bin/docker".to_string(),
    }
}

#[test]
fn container_name_is_sanitized_and_cut() {
    let name = derive_orchestrator_container_name(&"a/b c".repeat(10));
    let tail = name.strip_prefix("openwork-orchestrator-").unwrap();
    assert_eq!(tail.chars().count(), 24);
    assert!(tail.chars().all(|c| c.is_ascii_alphanumeric() || c == '_' || c == '.' || c == '-'));
    assert_eq!(tail, "a-b-ca-b-ca-b-ca-b-ca-b-");
    assert_eq!(name, derive_orchestrator_container_name(&"a/b c".repeat(10)));
}

#[test]
fn container_name_keeps_short_ids() {
    assert_eq!(derive_orchestrator_container_name("run_1.x"), "openwork-orchestrator-run_1.x");
    assert_eq!(derive_orchestrator_container_name(""), "openwork-orchestrator-");
    assert_eq!(derive_orchestrator_container_name("é"), "openwork-orchestrator--");
}

#[test]
fn managed_prefixes() {
    assert!(is_openwork_managed_container("openwork-orchestrator-x"));
    assert!(is_openwork_managed_container("openwork-dev-1"));
    assert!(is_openwork_managed_container("openwrk-1"));
    assert!(!is_openwork_managed_container("postgres"));
}

#[test]
fn validate_names_for_stopping() {
    assert_eq!(validate_container_name("  ").unwrap_err(), "containerName is required");
    assert_eq!(
        validate_container_name("postgres").unwrap_err(),
        "Refusing to stop container: expected name starting with 'openwork-orchestrator-'"
    );
    assert_eq!(
        validate_container_name("openwork-orchestrator-a b").unwrap_err(),
        "containerName contains invalid characters"
    );
    assert_eq!(
        validate_container_name(" openwork-orchestrator-ab ").unwrap(),
        "openwork-orchestrator-ab"
    );
}

#[test]
fn client_version_needs_docker_version_line() {
    assert_eq!(
        parse_docker_client_version("Docker version 26.1.1, build 4cf5afa\nmore"),
        Some("Docker version 26.1.1, build 4cf5afa".to_string())
    );
    assert_eq!(
        parse_docker_client_version("  DOCKER VERSION 1\r\n"),
        Some("DOCKER VERSION 1".to_string())
    );
    assert_eq!(parse_docker_client_version("podman 4"), None);
    assert_eq!(parse_docker_client_version(""), None);
}

#[test]
fn server_version_from_info() {
    assert_eq!(
        parse_docker_server_version("Client:\n Server Version:   \n Server Version: 26.1.1\n"),
        Some("26.1.1".to_string())
    );
    assert_eq!(parse_docker_server_version("nothing"), None);
}

#[test]
fn debug_text_is_trimmed_and_cut() {
    assert_eq!(truncate_for_debug("  x  "), "x");
    let long = "é".repeat(1300);
    let cut = truncate_for_debug(&long);
    assert!(cut.ends_with("...[truncated]"));
    assert_eq!(cut.chars().count(), 1200 + "...[truncated]".len());
}

#[test]
fn inspect_outcomes() {
    assert_eq!(docker_inspect_outcome(&result(0, " running\n", "")), Ok(Some("running".to_string())));
    assert_eq!(docker_inspect_outcome(&result(0, "  ", "")), Ok(None));
    assert_eq!(
        docker_inspect_outcome(&result(1, "", "Error: No such object: x")),
        Ok(None)
    );
    assert_eq!(
        docker_inspect_outcome(&result(2, "", " daemon down ")),
        Err("docker inspect /usr/bin/docker returned status 2 (stderr: daemon down)".to_string())
    );
    assert!(inspect_reports_missing("container does not exist"));
    assert!(!inspect_reports_missing("Not Found"));
}

#[test]
fn classify_info_failures() {
    assert_eq!(classify_info_failure("permission denied while trying"), (true, false));
    assert_eq!(classify_info_failure("cannot connect to the docker daemon"), (false, true));
    assert_eq!(classify_info_failure("something else"), (true, true));
}

#[test]
fn doctor_flow() {
    match doctor_after_version(vec![], Err("Failed to run docker".to_string())) {
        DoctorProgress::Done(d) => {
            assert!(!d.installed && !d.ready);
            assert_eq!(d.error.as_deref(), Some("Failed to run docker"));
        }
        DoctorProgress::NeedsInfo { .. } => panic!("expected a final result"),
    }
    match doctor_after_version(vec![], Ok(result(3, "", " bad \n"))) {
        DoctorProgress::Done(d) => {
            assert_eq!(d.error.as_deref(), Some("docker --version failed (status 3): bad"));
        }
        DoctorProgress::NeedsInfo { .. } => panic!("expected a final result"),
    }
    let (debug, client) = match doctor_after_version(
        vec!["/usr/bin/docker".to_string()],
        Ok(result(0, "Docker version 0.0.0, build test\n", "")),
    ) {
        DoctorProgress::NeedsInfo { debug, client_version } => (debug, client_version),
        DoctorProgress::Done(_) => panic!("expected to go on"),
    };
    assert_eq!(client.as_deref(), Some("Docker version 0.0.0, build test"));
    assert_eq!(debug.selected_bin.as_deref(), Some("/usr/bin/docker"));
    let ready = doctor_after_info(debug, client, Ok(result(0, "Server Version: 0.0.0\n", "")));
    assert!(ready.installed && ready.ready && ready.daemon_running && ready.permission_ok);
    assert_eq!(ready.server_version.as_deref(), Some("0.0.0"));
}

#[test]
fn doctor_info_failure_is_classified() {
    let debug = match doctor_after_version(vec![], Ok(result(0, "Docker version 1", ""))) {
        DoctorProgress::NeedsInfo { debug, .. } => debug,
        DoctorProgress::Done(_) => panic!("expected to go on"),
    };
    let r = doctor_after_info(
        debug,
        None,
        Ok(result(1, "", "Got permission denied while trying to connect")),
    );
    assert!(r.installed && !r.ready && !r.permission_ok && r.daemon_running);
    assert_eq!(r.error.as_deref(), Some("Got permission denied while trying to connect"));
    let debug = match doctor_after_version(vec![], Ok(result(0, "Docker version 1", ""))) {
        DoctorProgress::NeedsInfo { debug, .. } => debug,
        DoctorProgress::Done(_) => panic!("expected to go on"),
    };
    let r = doctor_after_info(debug, None, Ok(result(5, "", "")));
    assert_eq!(r.error.as_deref(), Some("docker info failed (status 5)"));
}

#[test]
fn managed_names_sorted_unique() {
    let out = "openwrk-b\n  openwork-dev-a \npostgres\n\nopenwrk-b\nopenwork-orchestrator-z\n";
    assert_eq!(
        managed_container_names(out),
        vec!["openwork-dev-a", "openwork-orchestrator-z", "openwrk-b"]
    );
    assert!(managed_container_names("").is_empty());
}

#[test]
fn cleanup_collects_each_outcome() {
    let mut c = OpenworkDockerCleanupResult::new(vec!["a".to_string(), "b".to_string(), "c".to_string()]);
    c.record_removal("a", Ok((0, String::new(), String::new())));
    c.record_removal("b", Ok((1, " x ".to_string(), "y".to_string())));
    c.record_removal("c", Err("Failed to run docker".to_string()));
    c.record_removal("d", Ok((2, String::new(), String::new())));
    assert_eq!(c.removed, vec!["a"]);
    assert_eq!(c.errors, vec!["b: exit 1: x\ny", "c: Failed to run docker", "d: exit 2"]);
}

#[test]
fn list_failure_text() {
    assert_eq!(list_failure_message(1, "", ""), "docker ps -a failed (status 1)");
    assert_eq!(list_failure_message(1, " a ", ""), "docker ps -a failed (status 1): a");
}

#[test]
fn candidates_in_order_without_repeats() {
    let overrides = vec![Some(" /x/docker ".to_string()), None, Some("  ".to_string())];
    let path = vec!["/x".to_string(), "/usr/local/bin/".to_string(), "".to_string()];
    let login = vec!["/opt/homebrew/bin".to_string()];
    assert_eq!(
        docker_candidate_paths(&overrides, &path, &login),
        vec![
            "/x/docker",
            "/usr/local/bin/docker",
            "docker",
            "/opt/homebrew/bin/docker",
            "/Applications/Docker.app/Contents/Resources/bin/docker",
        ]
    );
}

#[test]
fn programs_end_with_bare_name() {
    assert_eq!(docker_programs(&vec!["/a/docker".to_string()]), vec!["/a/docker", "docker"]);
    assert_eq!(
        docker_failure_message(&vec!["e1".to_string(), "e2".to_string()]),
        "Failed to run docker: e1; e2 (Set OPENWORK_DOCKER_BIN (or OPENWRK_DOCKER_BIN) to your docker binary, e.g. /opt/homebrew/bin/docker)"
    );
}

#[test]
fn path_export_value() {
    let out = "MANPATH=\"/x\"; export MANPATH;\nPATH=\"/usr/local/bin:/usr/bin\"; export PATH;\n";
    assert_eq!(parse_path_export_value(out), Some("/usr/local/bin:/usr/bin".to_string()));
    assert_eq!(parse_path_export_value("PATH='/a:/b'"), Some("/a:/b".to_string()));
    assert_eq!(parse_path_export_value("PATH=/a\nPATH=\"/b\""), Some("/b".to_string()));
    assert_eq!(parse_path_export_value("PATH=  \nPATH=\"/b\""), None);
    assert_eq!(parse_path_export_value("nothing"), None);
}

#[test]
fn join_adds_one_separator() {
    assert_eq!(join_path("/a", "docker"), "/a/docker");
    assert_eq!(join_path("/a/", "docker"), "/a/docker");
    assert_eq!(join_path("", "docker"), "docker");
}
