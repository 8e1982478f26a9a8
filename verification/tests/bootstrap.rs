use zed_roslyn::projects::{has_project_suffix, path_to_uri, project_uris};
use zed_roslyn::roslyn::{BinarySettings, Roslyn};

fn settings(path: Option<&str>, arguments: Option<Vec<&str>>) -> BinarySettings {
    BinarySettings {
        path: path.map(|p| p.to_string()),
        arguments: arguments.map(|a| a.iter().map(|s| s.to_string()).collect()),
    }
}

#[test]
fn user_override_wins_with_absent_cache() {
    let mut server = Roslyn::new();
    let cmd = server
        .language_server_cmd(&settings(Some("/opt/roslyn/run"), None), false)
        .unwrap();
    assert_eq!(cmd.command, "/opt/roslyn/run");
    assert_eq!(cmd.args, Vec::<String>::new());
    assert!(cmd.env.is_empty());
}

#[test]
fn user_override_wins_with_present_cache() {
    let mut server = Roslyn::new();
    server.set_cached_binary_path(Some("/cache/roslyn".to_string()));
    let cmd = server
        .language_server_cmd(&settings(Some("/opt/roslyn/run"), None), true)
        .unwrap();
    assert_eq!(cmd.command, "/opt/roslyn/run");
}

#[test]
fn user_override_wins_with_stale_cache() {
    let mut server = Roslyn::new();
    server.set_cached_binary_path(Some("/cache/gone".to_string()));
    let cmd = server
        .language_server_cmd(&settings(Some("/opt/roslyn/run"), None), false)
        .unwrap();
    assert_eq!(cmd.command, "/opt/roslyn/run");
}

#[test]
fn cached_path_used_when_valid() {
    let mut server = Roslyn::new();
    server.set_cached_binary_path(Some("/cache/roslyn".to_string()));
    let cmd = server.language_server_cmd(&settings(None, None), true).unwrap();
    assert_eq!(cmd.command, "/cache/roslyn");
    assert_eq!(cmd.args, Vec::<String>::new());
}

#[test]
fn fails_when_no_path_and_no_cache() {
    let mut server = Roslyn::new();
    let err = server.language_server_cmd(&settings(None, None), false).unwrap_err();
    assert_eq!(err, "Roslyn binary not found");
}

#[test]
fn fails_when_cached_path_stale() {
    let mut server = Roslyn::new();
    server.set_cached_binary_path(Some("/cache/gone".to_string()));
    let err = server.language_server_cmd(&settings(None, None), false).unwrap_err();
    assert_eq!(err, "Roslyn binary not found");
}

#[test]
fn arguments_follow_settings_in_override_branch() {
    let mut server = Roslyn::new();
    server.set_cached_binary_path(Some("/cache/roslyn".to_string()));
    let cmd = server
        .language_server_cmd(&settings(Some("/opt/roslyn/run"), Some(vec!["--lsp", "-v"])), true)
        .unwrap();
    assert_eq!(cmd.args, vec!["--lsp".to_string(), "-v".to_string()]);
}

#[test]
fn arguments_follow_settings_in_cached_branch() {
    let mut server = Roslyn::new();
    server.set_cached_binary_path(Some("/cache/roslyn".to_string()));
    let cmd = server
        .language_server_cmd(&settings(None, Some(vec!["--lsp"])), true)
        .unwrap();
    assert_eq!(cmd.command, "/cache/roslyn");
    assert_eq!(cmd.args, vec!["--lsp".to_string()]);
}

#[test]
fn resolve_twice_is_idempotent() {
    let mut server = Roslyn::new();
    server.set_cached_binary_path(Some("/cache/roslyn".to_string()));
    let s = settings(None, Some(vec!["--lsp"]));
    let first = server.language_server_cmd(&s, true).unwrap();
    let second = server.language_server_cmd(&s, true).unwrap();
    assert_eq!(first.command, second.command);
    assert_eq!(first.args, second.args);
    assert_eq!(first.env, second.env);
    assert_eq!(
        server.cached_binary_path().clone(),
        Some("/cache/roslyn".to_string())
    );
}

#[test]
fn new_instance_has_no_cached_path() {
    let server = Roslyn::new();
    assert_eq!(server.cached_binary_path().clone(), None);
}

#[test]
fn path_to_uri_prefixes_scheme() {
    assert_eq!(path_to_uri("/root/a.csproj"), "file:///root/a.csproj");
    assert_eq!(path_to_uri(""), "file://");
}

#[test]
fn suffix_check_matches_only_project_files() {
    assert!(has_project_suffix("/root/a.csproj"));
    assert!(has_project_suffix(".csproj"));
    assert!(!has_project_suffix("csproj"));
    assert!(!has_project_suffix("/root/c.txt"));
    assert!(!has_project_suffix("/root/a.csproj.bak"));
    assert!(!has_project_suffix(""));
}

#[test]
fn init_options_collects_project_uris() {
    let mut server = Roslyn::new();
    let candidates = vec![
        "/root/a.csproj".to_string(),
        "/root/sub/b.csproj".to_string(),
        "/root/c.txt".to_string(),
    ];
    let notification = server.language_server_init_options(&candidates);
    assert_eq!(notification.method, "project/open");
    assert_eq!(
        notification.params.projects,
        vec![
            "file:///root/a.csproj".to_string(),
            "file:///root/sub/b.csproj".to_string(),
        ]
    );
}

#[test]
fn init_options_with_no_matches_is_empty_not_error() {
    let mut server = Roslyn::new();
    let notification = server.language_server_init_options(&vec!["/root/c.txt".to_string()]);
    assert_eq!(notification.method, "project/open");
    assert_eq!(notification.params.projects, Vec::<String>::new());
    let empty = server.language_server_init_options(&Vec::new());
    assert_eq!(empty.params.projects, Vec::<String>::new());
}

#[test]
fn project_uris_keeps_candidate_order() {
    let uris = project_uris(&vec![
        "/w/z.csproj".to_string(),
        "/w/a.csproj".to_string(),
    ]);
    assert_eq!(
        uris,
        vec!["file:///w/z.csproj".to_string(), "file:///w/a.csproj".to_string()]
    );
}

#[test]
fn workspace_configuration_defaults_to_empty_object() {
    let mut server = Roslyn::new();
    let config = server.language_server_workspace_configuration(None);
    assert_eq!(config.server, "roslyn");
    assert_eq!(
        config.settings,
        serde_json::Value::Object(serde_json::Map::new())
    );
}

#[test]
fn workspace_configuration_passes_blob_verbatim() {
    let mut server = Roslyn::new();
    let mut fields = serde_json::Map::new();
    fields.insert(
        "x".to_string(),
        serde_json::Value::Number(serde_json::Number::from(1)),
    );
    let blob = serde_json::Value::Object(fields);
    let config = server.language_server_workspace_configuration(Some(blob.clone()));
    assert_eq!(config.server, "roslyn");
    assert_eq!(config.settings, blob);
}

#[test]
fn language_server_id_is_stable() {
    assert_eq!(Roslyn::LANGUAGE_SERVER_ID, "roslyn");
}
