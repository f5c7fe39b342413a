use sidecar_orchestration::network::{build_urls, resolve_connect_url};
use sidecar_orchestration::number::{i32_to_decimal, parse_u64, u64_to_decimal};
use sidecar_orchestration::paths::{
    candidate_xdg_config_dirs, candidate_xdg_data_dirs, common_tool_paths, home_dir,
    orchestrator_auth_path, orchestrator_data_dir, orchestrator_state_path,
    prepended_path_entries, sidecar_path_candidates,
};
use sidecar_orchestration::text::{contains, lines, split_whitespace, trim};

#[test]
fn urls_prefer_lan_then_mdns() {
    let u = build_urls(" host.local.local ", Some("192.168.1.5".to_string()), 8787);
    assert_eq!(u.mdns_url.as_deref(), Some("http://host.local:8787"));
    assert_eq!(u.lan_url.as_deref(), Some("http://192.168.1.5:8787"));
    assert_eq!(u.connect_url, u.lan_url);
    let u = build_urls("box", None, 1);
    assert_eq!(u.connect_url.as_deref(), Some("http://box.local:1"));
    let u = build_urls("  ", None, 1);
    assert!(u.connect_url.is_none() && u.mdns_url.is_none());
}

#[test]
fn connect_url_on_this_machine() {
    if let Some(url) = resolve_connect_url(4242) {
        assert!(url.starts_with("http://"));
        assert!(url.ends_with(":4242"));
    }
}

#[test]
fn home_and_xdg_candidates() {
    assert_eq!(home_dir(Some(" "), Some("/u")), Some("/u".to_string()));
    assert_eq!(home_dir(Some("/h"), Some("/u")), Some("/h".to_string()));
    assert_eq!(home_dir(None, None), None);
    assert_eq!(candidate_xdg_data_dirs(Some("/h"), false), vec!["/h/.local/share", "/h/.config"]);
    assert_eq!(
        candidate_xdg_config_dirs(Some("/h"), true),
        vec!["/h/.config", "/h/Library/Application Support"]
    );
    assert!(candidate_xdg_data_dirs(None, true).is_empty());
}

#[test]
fn sidecar_candidates_once_each() {
    assert_eq!(
        sidecar_path_candidates(Some("/r"), Some("/r")),
        vec!["/r", "/r/sidecars", "src-tauri/sidecars"]
    );
    assert_eq!(sidecar_path_candidates(None, None), vec!["src-tauri/sidecars"]);
}

#[test]
fn data_dir_precedence() {
    assert_eq!(orchestrator_data_dir(Some("/x"), Some("/y"), Some("/h"), true, false), "/x");
    assert_eq!(orchestrator_data_dir(Some(" "), Some("/y"), Some("/h"), true, false), "/y");
    assert_eq!(
        orchestrator_data_dir(None, None, Some("/h"), true, false),
        "/h/.openwork/openwork-orchestrator"
    );
    assert_eq!(
        orchestrator_data_dir(None, None, Some("/h"), true, true),
        "/h/.do-what/do-what-orchestrator"
    );
    assert_eq!(orchestrator_data_dir(None, None, None, false, false), ".do-what/do-what-orchestrator");
    assert_eq!(orchestrator_auth_path("/d"), "/d/openwork-orchestrator-auth.json");
    assert_eq!(orchestrator_state_path("/d/"), "/d/openwork-orchestrator-state.json");
}

#[test]
fn path_entries_prepend_without_repeats() {
    let prefixes = vec!["/s".to_string(), "/s".to_string()];
    let tools = vec!["/usr/local/bin".to_string(), "/s".to_string()];
    let inherited = vec!["/usr/bin".to_string(), "/usr/local/bin".to_string()];
    assert_eq!(
        prepended_path_entries(&prefixes, &tools, &inherited),
        Some(vec![
            "/s".to_string(),
            "/s".to_string(),
            "/usr/local/bin".to_string(),
            "/usr/bin".to_string()
        ])
    );
    assert_eq!(prepended_path_entries(&[], &[], &[]), None);
    let linux = common_tool_paths(Some("/h"), false);
    assert_eq!(linux.len(), 10);
    assert_eq!(linux[5], "/h/.local/share/pnpm");
    assert_eq!(common_tool_paths(None, true)[0], "/opt/homebrew/bin");
}

#[test]
fn numbers_and_text() {
    assert_eq!(u64_to_decimal(0), "0");
    assert_eq!(u64_to_decimal(18446744073709551615), "18446744073709551615");
    assert_eq!(i32_to_decimal(i32::MIN), "-2147483648");
    assert_eq!(parse_u64("+42"), Some(42));
    assert_eq!(parse_u64("18446744073709551616"), None);
    assert_eq!(parse_u64(""), None);
    assert_eq!(parse_u64("+"), None);
    assert_eq!(trim("\u{3000} x \n"), "x");
    assert!(contains("abc", ""));
    assert!(!contains("ab", "abc"));
    assert_eq!(split_whitespace(" a  b\tc "), vec!["a", "b", "c"]);
    assert_eq!(lines("a\r\nb\n\nc\r"), vec!["a", "b", "", "c\r"]);
}
