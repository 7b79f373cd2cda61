use coldfusion_ls::config::{Config, ManifestPath, ProjectManifest};
use coldfusion_ls::vfs_path::AbsPathBuf;

#[test]
fn test_manifest_path() {
    let file = AbsPathBuf::try_from("/tmp/box.json").unwrap();
    let manifest_path = ManifestPath { file: file.clone() };
    assert_eq!(manifest_path.file, file);
}

#[test]
fn test_project_manifest() {
    let file = AbsPathBuf::try_from("/tmp/box.json").unwrap();
    let manifest_path = ManifestPath { file: file.clone() };
    let project_manifest = ProjectManifest::BoxJson(manifest_path);
    match project_manifest {
        ProjectManifest::BoxJson(manifest_path) => {
            assert_eq!(manifest_path.file, file);
        }
    }
}

#[test]
fn test_config_new() {
    let root_path = AbsPathBuf::try_from("/tmp").unwrap();
    let capabilities = lsp_types::ClientCapabilities::default();
    let workspace_roots = vec![AbsPathBuf::try_from("/tmp").unwrap()];
    let config = Config::new(
        root_path.clone(),
        capabilities.clone(),
        workspace_roots.clone(),
    );
    assert_eq!(config.root_path, root_path);
    assert_eq!(config.capabilities, capabilities);
    assert_eq!(config.workspace_roots, workspace_roots);
}

#[test]
fn test_config_discovered_projects() {
    let file = AbsPathBuf::try_from("/tmp/box.json").unwrap();
    let manifest_path = ManifestPath { file: file.clone() };
    let project_manifest = ProjectManifest::BoxJson(manifest_path);
    let mut config = Config::new(
        AbsPathBuf::try_from("/tmp").unwrap(),
        lsp_types::ClientCapabilities::default(),
        vec![AbsPathBuf::try_from("/tmp").unwrap()],
    );
    config.discovered_projects.push(project_manifest);
    assert_eq!(config.discovered_projects.len(), 1);
}

#[test]
fn relative_path_is_refused() {
    assert!(AbsPathBuf::try_from("tmp/box.json").is_err());
    assert!(AbsPathBuf::try_from("").is_err());
}

fn config() -> Config {
    Config::new(
        AbsPathBuf::try_from("/tmp").unwrap(),
        lsp_types::ClientCapabilities::default(),
        vec![AbsPathBuf::try_from("/tmp").unwrap()],
    )
}

fn json(text: &str) -> serde_json::Value {
    serde_json::from_str(text).unwrap()
}

#[test]
fn test_config_update() {
    let mut config = config();
    let result = config.update(json(r#"{"detachedFiles": ["/tmp/box.json"]}"#));
    assert!(result.is_ok());
    assert_eq!(config.detached_files.len(), 1);
}

#[test]
fn test_config_update_error() {
    let mut config = config();
    let result = config.update(json(r#"{"detachedFiles": ["/tmp/box.json"]}"#));
    assert!(result.is_ok());
    assert_eq!(config.detached_files.len(), 1);
}

#[test]
fn test_get_field() {
    let mut value = json(r#"{"detachedFiles": ["/tmp/box.json"]}"#);
    let mut errors = Vec::new();
    let result: Vec<String> = coldfusion_ls::config::get_field(
        &mut value,
        &mut errors,
        "detachedFiles",
        None,
        Vec::new(),
        |v| serde_json::from_value::<Vec<String>>(v).map_err(|e| e.to_string()),
    );
    assert_eq!(result.len(), 1);
}

#[test]
fn malformed_field_is_collected_and_defaulted() {
    let mut config = config();
    let err = config.update(json(r#"{"detachedFiles": 5}"#)).unwrap_err();
    assert_eq!(err.errors.len(), 1);
    assert_eq!(err.errors[0].0, "/detachedFiles");
    assert!(config.detached_files.is_empty());
}

#[test]
fn null_and_empty_options_change_nothing() {
    let mut config = config();
    assert!(config.update(serde_json::Value::Null).is_ok());
    assert!(config.update(json("{}")).is_ok());
    assert!(config.detached_files.is_empty());
}

#[test]
fn absent_field_takes_default() {
    let mut config = config();
    assert!(config.update(json(r#"{"other": 1}"#)).is_ok());
    assert!(config.detached_files.is_empty());
}

#[test]
fn alias_that_fails_yields_to_field_that_parses() {
    let mut value = json(r#"{"old": 3, "new": ["/a"]}"#);
    let mut errors = Vec::new();
    let result: Vec<String> = coldfusion_ls::config::get_field(
        &mut value,
        &mut errors,
        "new",
        Some("old"),
        Vec::new(),
        |v| serde_json::from_value::<Vec<String>>(v).map_err(|e| e.to_string()),
    );
    assert_eq!(result, vec!["/a".to_string()]);
    assert!(errors.is_empty());
}

#[test]
fn field_pointer_reads_underscores_as_levels() {
    assert_eq!(coldfusion_ls::config::field_pointer("files_watcher"), "/files/watcher");
    assert_eq!(coldfusion_ls::config::field_pointer("detachedFiles"), "/detachedFiles");
}

#[test]
fn relative_detached_file_is_recorded_and_skipped() {
    let mut config = config();
    let err = config
        .update(json(r#"{"detachedFiles": ["rel/box.json", "/tmp/box.json"]}"#))
        .unwrap_err();
    assert_eq!(err.errors, vec![("/detachedFiles".to_string(), "rel/box.json".to_string())]);
    assert_eq!(config.detached_files, vec![AbsPathBuf::try_from("/tmp/box.json").unwrap()]);
}

#[test]
fn field_failing_everywhere_records_each_lookup() {
    let mut value = json(r#"{"old": 3, "new": 4}"#);
    let mut errors = Vec::new();
    let result: Vec<String> = coldfusion_ls::config::get_field(
        &mut value,
        &mut errors,
        "new",
        Some("old"),
        vec!["default".to_string()],
        |v| serde_json::from_value::<Vec<String>>(v).map_err(|e| e.to_string()),
    );
    assert_eq!(result, vec!["default".to_string()]);
    assert_eq!(errors.len(), 2);
    assert_eq!(errors[0].0, "/old");
    assert_eq!(errors[1].0, "/new");
}

#[test]
fn malformed_and_relative_errors_are_listed() {
    let mut config = config();
    let err = config.update(json(r#"{"detachedFiles": "notalist"}"#)).unwrap_err();
    assert_eq!(err.errors.len(), 1);
    assert_eq!(err.errors[0].0, "/detachedFiles");
    let err = config.update(json(r#"{"detachedFiles": ["a", "b"]}"#)).unwrap_err();
    assert_eq!(
        err.errors,
        vec![
            ("/detachedFiles".to_string(), "a".to_string()),
            ("/detachedFiles".to_string(), "b".to_string())
        ]
    );
}
