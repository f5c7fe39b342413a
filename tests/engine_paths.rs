use sidecar_orchestration::engine_paths::{
    candidate_opencode_paths, resolve_engine_path, resolve_in_path, resolve_opencode_executable,
    resolve_sidecar_candidate, sidecar_binary_candidates, Probe,
};
use sidecar_orchestration::workspace::opencode_executable_name;

/// Probes the candidates as if only the files in `existing` were on disk.
fn probe(candidates: Vec<String>, existing: &[&str]) -> Vec<Probe> {
    candidates
        .into_iter()
        .map(|path| {
            let is_file = existing.contains(&path.as_str());
            Probe { path, is_file }
        })
        .collect()
}

#[test]
fn resolves_sidecar_from_current_binary_dir() {
    let dir = "/tmp/sidecar-test";
    let sidecar_path = format!("{dir}/{}", opencode_executable_name());
    let probes = probe(sidecar_binary_candidates(None, Some(dir)), &[sidecar_path.as_str()]);
    let (resolved, notes) = resolve_sidecar_candidate(true, &probes);
    assert_eq!(resolved.as_ref(), Some(&sidecar_path));
    assert!(
        notes.iter().any(|note| note.contains("Using bundled sidecar")),
        "missing success note: {:?}",
        notes
    );
}

#[test]
fn resolve_engine_path_prefers_sidecar() {
    let dir = "/tmp/engine-path-test";
    let sidecar_path = format!("{dir}/{}", opencode_executable_name());
    let sidecars = probe(sidecar_binary_candidates(None, Some(dir)), &[sidecar_path.as_str()]);
    let on_path = probe(vec!["/usr/bin/opencode".to_string()], &["/usr/bin/opencode"]);
    let known = probe(candidate_opencode_paths(Some("/home/me")), &[]);
    let r = resolve_engine_path(true, None, &sidecars, &on_path, &known);
    assert_eq!(r.resolved.as_ref(), Some(&sidecar_path));
    assert!(!r.in_path);
}

#[test]
fn resolve_engine_path_honors_env_override() {
    let override_path = "/tmp/opencode-override/opencode-custom".to_string();
    let sidecar_path = format!("/tmp/sidecar-override-test/{}", opencode_executable_name());
    let sidecars = probe(
        sidecar_binary_candidates(None, Some("/tmp/sidecar-override-test")),
        &[sidecar_path.as_str()],
    );
    let over = Some(Probe { path: override_path.clone(), is_file: true });
    let r = resolve_engine_path(true, over, &sidecars, &[], &[]);
    assert_eq!(r.resolved.as_ref(), Some(&override_path));
    assert!(r.notes.iter().any(|note| note.contains("Using OPENCODE_BIN_PATH")));
}

#[test]
fn plain_search_walks_path_then_known_places() {
    let on_path = probe(vec!["/a/opencode".to_string(), "/b/opencode".to_string()], &["/b/opencode"]);
    assert_eq!(resolve_in_path(&on_path), Some("/b/opencode".to_string()));
    let r = resolve_opencode_executable(None, &on_path, &[]);
    assert!(r.in_path);
    assert_eq!(r.notes, vec!["Found in PATH: /b/opencode"]);

    let known = probe(candidate_opencode_paths(Some("/h")), &["/usr/bin/opencode"]);
    let missing = Some(Probe { path: " /nope ".to_string(), is_file: false });
    let r = resolve_opencode_executable(missing, &[], &known);
    assert_eq!(r.resolved.as_deref(), Some("/usr/bin/opencode"));
    assert!(!r.in_path);
    assert_eq!(
        r.notes,
        vec![
            "OPENCODE_BIN_PATH set but missing: /nope",
            "Not found on PATH",
            "Missing: /h/.opencode/bin/opencode",
            "Missing: /opt/homebrew/bin/opencode",
            "Missing: /usr/local/bin/opencode",
            "Found at /usr/bin/opencode",
        ]
    );
}

#[test]
fn nothing_found_lists_every_place() {
    let sidecars = probe(sidecar_binary_candidates(Some("/r"), None), &[]);
    let (none, notes) = resolve_sidecar_candidate(true, &sidecars);
    assert!(none.is_none());
    assert_eq!(
        notes,
        vec![
            "Sidecar missing: /r/sidecars/opencode",
            "Sidecar missing: /r/opencode",
            "Sidecar missing: src-tauri/sidecars/opencode",
        ]
    );
    let (none, notes) = resolve_sidecar_candidate(false, &sidecars);
    assert!(none.is_none() && notes.is_empty());
    let r = resolve_engine_path(false, None, &sidecars, &[], &[]);
    assert!(r.resolved.is_none());
    assert_eq!(r.notes, vec!["Not found on PATH"]);
}

use sidecar_orchestration::engine_paths::maybe_infer_xdg_home;

#[test]
fn xdg_home_inferred_only_when_unset() {
    let candidates = vec![
        Probe { path: "/h/.local/share".to_string(), is_file: false },
        Probe { path: "/h/.config".to_string(), is_file: true },
    ];
    assert_eq!(maybe_infer_xdg_home(false, &candidates), Some("/h/.config".to_string()));
    assert_eq!(maybe_infer_xdg_home(true, &candidates), None);
    assert_eq!(maybe_infer_xdg_home(false, &[]), None);
}

use sidecar_orchestration::engine_paths::{engine_doctor_report, help_text, version_from_output, EngineResolution, ServeHelp};

#[test]
fn version_prefers_stdout() {
    assert_eq!(version_from_output(" 1.2.3\n", "warn"), Some("1.2.3".to_string()));
    assert_eq!(version_from_output("  ", " err "), Some("err".to_string()));
    assert_eq!(version_from_output("", ""), None);
    assert_eq!(help_text("   "), None);
    assert_eq!(help_text(&"x".repeat(4005)).unwrap().len(), 4000);
}

#[test]
fn doctor_report_only_trusts_a_found_engine() {
    let found = EngineResolution { resolved: Some("/bin/opencode".to_string()), in_path: true, notes: vec!["n".to_string()] };
    let help = ServeHelp { ok: true, status: Some(0), stdout: " usage ".to_string(), stderr: "".to_string() };
    let r = engine_doctor_report(found, Some("1.0".to_string()), Some(help));
    assert!(r.found && r.in_path && r.supports_serve);
    assert_eq!(r.version.as_deref(), Some("1.0"));
    assert_eq!(r.serve_help_stdout.as_deref(), Some("usage"));
    assert!(r.serve_help_stderr.is_none());
    let missing = EngineResolution { resolved: None, in_path: false, notes: vec![] };
    let r = engine_doctor_report(missing, Some("stale".to_string()), None);
    assert!(!r.found && !r.supports_serve && r.version.is_none());
}
