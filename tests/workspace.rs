use sidecar_orchestration::workspace::{
    file_name, merge_plugins, opencode_config_candidates, opencode_executable_name,
    resolve_opencode_config_path, sanitize_command_name, WorkspaceDoWhatConfig,
};

#[test]
fn command_names_are_cleaned() {
    assert_eq!(sanitize_command_name("  //my cmd!-1_x "), Some("mycmd-1_x".to_string()));
    assert_eq!(sanitize_command_name(" / "), None);
    assert_eq!(sanitize_command_name("!!"), None);
}

#[test]
fn plugins_are_added_once() {
    let merged = merge_plugins(vec!["a".to_string()], &["a", "b", "b"]);
    assert_eq!(merged, vec!["a", "b"]);
}

#[test]
fn config_candidates_by_scope() {
    assert_eq!(
        opencode_config_candidates("project", "/p", None, None),
        Ok(("/p/opencode.jsonc".to_string(), "/p/opencode.json".to_string()))
    );
    assert_eq!(
        opencode_config_candidates("project", " ", None, None),
        Err("projectDir is required".to_string())
    );
    assert_eq!(
        opencode_config_candidates("global", "", None, Some("/h")),
        Ok((
            "/h/.config/opencode/opencode.jsonc".to_string(),
            "/h/.config/opencode/opencode.json".to_string()
        ))
    );
    assert_eq!(
        opencode_config_candidates("global", "", Some("/x"), Some("/h")),
        Ok(("/x/opencode/opencode.jsonc".to_string(), "/x/opencode/opencode.json".to_string()))
    );
    assert_eq!(
        opencode_config_candidates("global", "", None, None),
        Err("Unable to resolve config directory".to_string())
    );
    assert_eq!(
        opencode_config_candidates("other", "", None, None),
        Err("scope must be 'project' or 'global'".to_string())
    );
}

#[test]
fn config_path_prefers_existing_files() {
    let c = || ("a.jsonc".to_string(), "a.json".to_string());
    assert_eq!(resolve_opencode_config_path(c(), true, true), "a.jsonc");
    assert_eq!(resolve_opencode_config_path(c(), false, true), "a.json");
    assert_eq!(resolve_opencode_config_path(c(), false, false), "a.jsonc");
}

#[test]
fn file_names_like_path() {
    assert_eq!(file_name("/a/b/"), Some("b".to_string()));
    assert_eq!(file_name("/a/./"), Some("a".to_string()));
    assert_eq!(file_name("/a/.."), None);
    assert_eq!(file_name("/"), None);
    assert_eq!(file_name("x"), Some("x".to_string()));
}

#[test]
fn new_workspace_record() {
    let c = WorkspaceDoWhatConfig::new("/home/me/proj", "starter", 7);
    assert_eq!(c.version, 1);
    let w = c.workspace.unwrap();
    assert_eq!(w.name.as_deref(), Some("proj"));
    assert_eq!(w.created_at, Some(7));
    assert_eq!(w.preset.as_deref(), Some("starter"));
    assert_eq!(c.authorized_roots, vec!["/home/me/proj"]);
    let root = WorkspaceDoWhatConfig::new("/", "p", 0);
    assert_eq!(root.workspace.unwrap().name.as_deref(), Some("Workspace"));
    assert_eq!(opencode_executable_name(), "opencode");
}
