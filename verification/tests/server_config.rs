use winctl_mcp::config::{
    env_flag_value, env_path_list, merge_editable, parse_transport_str, validate_editable, AuthFileConfig, Cli,
    CliError, CliParse, Command, ConfigError, ConfigSaveBody, EmbeddingFileConfig, LoadedConfig, PathsFileConfig,
    PolicyEnvironment, PolicyFileConfig, SecurityPolicy, SelfTestCommand, ServeConfig, TransportFileConfig,
    TransportMode, WinctlConfigFile, DEFAULT_HTTP_LISTEN, DEFAULT_EMBEDDING_DIM, MacroExecutionFileConfig,
};
use winctl_mcp::http::{
    capture_file_content_type, dashboard_asset_content_type, http_request_authorized, percent_decode_query_component, validate_http_config,
    HttpConfigError,
};

fn args(items: &[&str]) -> Vec<String> {
    items.iter().map(|s| s.to_string()).collect()
}

fn defaults() -> ServeConfig {
    let env = PolicyEnvironment::default();
    ServeConfig::stdio(None, SecurityPolicy::from_environment(&env))
}

/// Whether each argument is a socket address, for the addresses these tests use.
fn addr_ok(items: &[&str]) -> Vec<bool> {
    items.iter().map(|s| matches!(*s, "127.0.0.1:8765" | "0.0.0.0:8765" | "[::1]:9000")).collect()
}

fn parse(items: &[&str], d: &ServeConfig, loaded: Option<&LoadedConfig>) -> Result<CliParse, CliError> {
    Cli::parse(&args(items), &addr_ok(items), d, loaded)
}

fn parse_done(items: &[&str], loaded: Option<&LoadedConfig>) -> Cli {
    match parse(items, &defaults(), loaded).unwrap() {
        CliParse::Done(cli) => cli,
        CliParse::LoadConfig(path) => panic!("unexpected request to load {path}"),
    }
}

#[test]
fn http_non_loopback_requires_auth_token() {
    // 0.0.0.0:8765 is not a loopback address; 127.0.0.1:8765 is.
    assert!(validate_http_config("0.0.0.0:8765", false, None).is_err());
    assert!(validate_http_config("0.0.0.0:8765", false, Some("secret")).is_ok());
    assert!(validate_http_config("127.0.0.1:8765", true, None).is_ok());
}

#[test]
fn http_non_loopback_rejects_empty_token_with_message() {
    let error = validate_http_config("0.0.0.0:8765", false, Some("")).unwrap_err();
    assert_eq!(error, HttpConfigError::NonLoopbackWithoutToken("0.0.0.0:8765".into()));
    assert_eq!(
        error.message(),
        "HTTP listen address 0.0.0.0:8765 is not loopback; provide --auth-token before exposing MCP tools"
    );
}

#[test]
fn http_auth_accepts_bearer_header() {
    // Request to /mcp with `Authorization: Bearer secret`.
    assert!(http_request_authorized(Some("Bearer secret"), None, "secret", false));
}

#[test]
fn http_auth_accepts_query_token_only_when_enabled() {
    // Request to /dashboard?token=s%20e%2Bcret without headers.
    let query = Some("token=s%20e%2Bcret");
    assert!(http_request_authorized(None, query, "s e+cret", true));
    assert!(!http_request_authorized(None, query, "s e+cret", false));
}

#[test]
fn http_auth_rejects_wrong_token_and_malformed_escapes() {
    assert!(!http_request_authorized(Some("Bearer other"), None, "secret", true));
    assert!(!http_request_authorized(Some("secret"), None, "secret", true));
    assert!(!http_request_authorized(None, Some("token=%zz"), "secret", true));
    assert!(http_request_authorized(None, Some("a=1&token=secret"), "secret", true));
    assert_eq!(percent_decode_query_component("a+b%21"), Some("a b!".to_string()));
    assert_eq!(percent_decode_query_component("%4"), None);
}

#[test]
fn capture_content_types_follow_extension() {
    assert_eq!(capture_file_content_type(Some("GIF")), "image/gif");
    assert_eq!(capture_file_content_type(Some("jpeg")), "image/jpeg");
    assert_eq!(capture_file_content_type(Some("webp")), "image/webp");
    assert_eq!(capture_file_content_type(None), "image/png");
}

#[test]
fn cli_parses_required_commands() {
    let cli = parse_done(
        &["serve", "--transport", "http", "--listen", "127.0.0.1:8765", "--capture-dir", "D:/winctl-captures"],
        None,
    );
    match cli.command {
        Command::Serve(config) => {
            assert_eq!(config.transport, TransportMode::Http);
            assert_eq!(config.listen, DEFAULT_HTTP_LISTEN);
            assert_eq!(config.capture_dir, Some("D:/winctl-captures".to_string()));
        }
        _ => panic!("expected serve command"),
    }

    let cli = parse_done(&["self-test", "windows-list"], None);
    assert!(matches!(cli.command, Command::SelfTest(SelfTestCommand::WindowsList)));
}

fn config_test_file() -> WinctlConfigFile {
    // The TOML file of the original test, as its parsed sections.
    WinctlConfigFile {
        transport: Some(TransportFileConfig { mode: Some("http".into()), listen: Some("127.0.0.1:8765".into()) }),
        auth: Some(AuthFileConfig { token: Some("test-token".into()) }),
        logging: None,
        paths: Some(PathsFileConfig {
            capture_dir: Some("D:/captures".into()),
            artifact_dir: Some("D:/artifacts".into()),
            filesystem_roots: Some(vec!["D:/captures".into(), "D:/artifacts".into()]),
            memory_db: Some("D:/memory.sqlite".into()),
        }),
        policy: Some(PolicyFileConfig {
            enable_filesystem_mutation: Some(true),
            enable_clipboard_write: Some(true),
            enable_registry_mutation: Some(true),
            allow_private_network: Some(true),
            memory_mutation_enabled: Some(false),
            macro_execution_enabled: Some(false),
            macro_destructive_tools_allowed: Some(false),
            max_macro_steps: Some(12),
            tool_denylist: Some(vec!["registry.delete".into()]),
            ..Default::default()
        }),
        embedding: Some(EmbeddingFileConfig { model_path: Some("D:/models/minilm.onnx".into()), dimension: Some(384) }),
        macro_execution: None,
    }
}

#[test]
fn cli_loads_toml_config_policy() {
    let path = "winctl-config-test.toml";
    let request = parse(&["serve", "--config", path], &defaults(), None).unwrap();
    assert_eq!(request, CliParse::LoadConfig(path.to_string()));
    let loaded = LoadedConfig { path: path.to_string(), file: config_test_file(), listen_parses: true };
    let cli = parse_done(&["serve", "--config", path], Some(&loaded));
    match cli.command {
        Command::Serve(config) => {
            assert_eq!(config.transport, TransportMode::Http);
            assert_eq!(config.auth_token.as_deref(), Some("test-token"));
            assert_eq!(config.capture_dir, Some("D:/captures".to_string()));
            assert_eq!(config.memory_db_path, Some("D:/memory.sqlite".to_string()));
            assert!(config.policy.enable_filesystem_mutation);
            assert!(config.policy.allow_private_network);
            assert!(!config.policy.memory_mutation_enabled);
            assert!(!config.policy.macro_execution_enabled);
            assert_eq!(config.policy.max_macro_steps, Some(12));
            assert_eq!(config.policy.tool_denylist, vec!["registry.delete"]);
        }
        _ => panic!("expected serve command"),
    }
}

#[test]
fn cli_reports_each_argument_error() {
    let d = defaults();
    assert_eq!(parse(&["--log-file"], &d, None), Err(CliError::LogFileRequiresPath));
    assert_eq!(parse(&["--config"], &d, None), Err(CliError::ConfigRequiresPath));
    assert_eq!(parse(&["self-test"], &d, None), Err(CliError::SelfTestRequiresCommand));
    assert_eq!(
        parse(&["self-test", "dance"], &d, None),
        Err(CliError::UnsupportedSelfTest("dance".into()))
    );
    assert_eq!(parse(&["--self-test", "serve"], &d, None), Err(CliError::OnlyOneCommand));
    assert_eq!(parse(&["bogus"], &d, None), Err(CliError::UnknownArgument("bogus".into())));
    assert_eq!(parse(&["serve", "--transport"], &d, None), Err(CliError::TransportRequiresValue));
    assert_eq!(parse(&["serve", "--listen"], &d, None), Err(CliError::ListenRequiresAddress));
    assert_eq!(parse(&["serve", "--auth-token"], &d, None), Err(CliError::AuthTokenRequiresValue));
    assert_eq!(parse(&["serve", "--capture-dir"], &d, None), Err(CliError::CaptureDirRequiresPath));
    assert_eq!(
        parse(&["serve", "--fast"], &d, None),
        Err(CliError::UnknownServeArgument("--fast".into()))
    );
    assert_eq!(
        parse(&["serve", "--transport", "pipe"], &d, None),
        Err(CliError::Config(ConfigError::UnsupportedTransport("pipe".into())))
    );
    let error = parse(&["serve", "--listen", "localhost"], &d, None).unwrap_err();
    assert_eq!(error, CliError::InvalidListen("localhost".into()));
    assert_eq!(error.message(), "invalid listen address localhost");
}

#[test]
fn cli_accepts_a_listen_address_that_parses() {
    let cli = parse_done(&["serve", "--listen", "[::1]:9000"], None);
    match cli.command {
        Command::Serve(config) => assert_eq!(config.listen, "[::1]:9000"),
        _ => panic!("expected serve command"),
    }
}

#[test]
fn config_file_with_unparsable_listen_is_refused() {
    let path = "winctl-config-test.toml";
    let mut file = config_test_file();
    file.transport = Some(TransportFileConfig { mode: Some("http".into()), listen: Some("nowhere".into()) });
    let loaded = LoadedConfig { path: path.to_string(), file: file.clone(), listen_parses: false };
    let error = parse(&["serve", "--config", path], &defaults(), Some(&loaded)).unwrap_err();
    assert_eq!(error, CliError::Config(ConfigError::InvalidListen("nowhere".into())));
    assert_eq!(error.message(), "invalid configured listen address nowhere");
    assert_eq!(
        ServeConfig::from_file(&file, &defaults(), false),
        Err(ConfigError::InvalidListen("nowhere".into()))
    );
    // A file that gives no listen address is applied whatever the flag says.
    file.transport = None;
    assert!(ServeConfig::from_file(&file, &defaults(), false).is_ok());
}

#[test]
fn cli_without_arguments_serves_defaults() {
    let cli = parse_done(&[], None);
    assert_eq!(cli.command, Command::Serve(defaults()));
    assert_eq!(cli.log_file, None);
}

#[test]
fn transport_names_parse() {
    assert_eq!(parse_transport_str("stdio"), Ok(TransportMode::Stdio));
    assert_eq!(parse_transport_str("http"), Ok(TransportMode::Http));
    let error = parse_transport_str("HTTP").unwrap_err();
    assert_eq!(error.message(), "unsupported transport HTTP; expected stdio or http");
}

#[test]
fn environment_flags_and_paths() {
    assert!(env_flag_value(Some("1")));
    assert!(env_flag_value(Some("TRUE")));
    assert!(env_flag_value(Some("yes")));
    assert!(!env_flag_value(Some("0")));
    assert!(!env_flag_value(None));
    assert!(env_path_list(None).is_empty());
}

#[test]
fn denylist_wins_over_allowlist() {
    let mut policy = defaults().policy;
    policy.tool_allowlist = vec!["registry.delete".into()];
    policy.tool_denylist = vec!["REGISTRY.DELETE".into()];
    assert!(policy.denies_tool("registry.delete"));
    policy.tool_denylist = vec![];
    assert!(!policy.denies_tool("registry.delete"));
    assert!(policy.denies_tool("registry.write"));
}

fn base_file() -> WinctlConfigFile {
    WinctlConfigFile {
        transport: Some(TransportFileConfig { mode: Some("http".into()), listen: Some("127.0.0.1:8765".into()) }),
        auth: Some(AuthFileConfig { token: Some("keep-me".into()) }),
        policy: Some(PolicyFileConfig { enable_filesystem_mutation: Some(false), ..Default::default() }),
        ..Default::default()
    }
}

#[test]
fn merge_preserves_transport_and_auth_and_replaces_policy() {
    let existing = base_file();
    let edits = ConfigSaveBody {
        policy: Some(PolicyFileConfig { enable_filesystem_mutation: Some(true), ..Default::default() }),
        ..Default::default()
    };
    let merged = merge_editable(existing, edits);
    assert_eq!(merged.transport.as_ref().unwrap().listen.as_deref(), Some("127.0.0.1:8765"));
    assert_eq!(merged.auth.as_ref().unwrap().token.as_deref(), Some("keep-me"));
    assert_eq!(merged.policy.as_ref().unwrap().enable_filesystem_mutation, Some(true));
}

#[test]
fn validate_rejects_zero_dimension() {
    let mut file = base_file();
    file.embedding = Some(EmbeddingFileConfig { model_path: None, dimension: Some(0) });
    let errors = validate_editable(&file, &defaults(), None);
    assert!(errors.iter().any(|e| e.field == "embedding.dimension"));
}

#[test]
fn validate_accepts_clean_file() {
    assert!(validate_editable(&base_file(), &defaults(), None).is_empty());
}

#[test]
fn validate_reports_listen_error() {
    let errors = validate_editable(&base_file(), &defaults(), Some("invalid socket address syntax".into()));
    assert_eq!(errors.len(), 1);
    assert_eq!(errors[0].field, "config");
    assert_eq!(errors[0].message, "invalid configured listen address 127.0.0.1:8765: invalid socket address syntax");
}

#[test]
fn dashboard_assets_are_typed_by_extension() {
    assert_eq!(dashboard_asset_content_type("app.min.js"), "text/javascript; charset=utf-8");
    assert_eq!(dashboard_asset_content_type("fonts/a.woff2"), "font/woff2");
    assert_eq!(dashboard_asset_content_type("style.CSS"), "application/octet-stream");
    assert_eq!(dashboard_asset_content_type("json"), "application/json");
    assert_eq!(dashboard_asset_content_type("README"), "application/octet-stream");
}

#[test]
fn config_file_sections_apply_in_order() {
    assert_eq!(defaults().policy.embedding_dimension, Some(DEFAULT_EMBEDDING_DIM));
    assert_eq!(DEFAULT_EMBEDDING_DIM, 384);
    let empty = WinctlConfigFile::default();
    assert_eq!(ServeConfig::from_file(&empty, &defaults(), true), Ok(defaults()));
    let file = WinctlConfigFile {
        policy: Some(PolicyFileConfig { macro_execution_enabled: Some(true), max_macro_steps: Some(5), ..Default::default() }),
        macro_execution: Some(MacroExecutionFileConfig {
            enabled: Some(false),
            allow_destructive_tools: None,
            max_runtime_ms: Some(1000),
            max_steps: Some(9),
        }),
        ..Default::default()
    };
    let config = ServeConfig::from_file(&file, &defaults(), true).unwrap();
    assert!(!config.policy.macro_execution_enabled);
    assert_eq!(config.policy.max_macro_steps, Some(9));
    assert_eq!(config.policy.max_macro_runtime_ms, Some(1000));
    assert_eq!(config.transport, TransportMode::Stdio);
}
