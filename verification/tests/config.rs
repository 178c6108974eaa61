use ultrafast_mcp_sequential_thinking::config::utils::create_default_config;
use ultrafast_mcp_sequential_thinking::config::utils::default_config_paths;
use ultrafast_mcp_sequential_thinking::config::utils::load_default_config;
use ultrafast_mcp_sequential_thinking::config::utils::merge_configs;
use ultrafast_mcp_sequential_thinking::config::utils::LoadedConfig;
use ultrafast_mcp_sequential_thinking::config::AnalyticsConfig;
use ultrafast_mcp_sequential_thinking::config::ClientConfig;
use ultrafast_mcp_sequential_thinking::config::ConfigFormat;
use ultrafast_mcp_sequential_thinking::config::ConfigManager;
use ultrafast_mcp_sequential_thinking::config::ConnectionConfig;
use ultrafast_mcp_sequential_thinking::config::EnvOverrides;
use ultrafast_mcp_sequential_thinking::config::ExportConfig;
use ultrafast_mcp_sequential_thinking::config::LoggingConfig;
use ultrafast_mcp_sequential_thinking::config::RateLimitingConfig;
use ultrafast_mcp_sequential_thinking::config::SecurityConfig;
use ultrafast_mcp_sequential_thinking::config::ServerConfig;
use ultrafast_mcp_sequential_thinking::config::ThinkingConfig;
use ultrafast_mcp_sequential_thinking::config::UIConfig;
use ultrafast_mcp_sequential_thinking::default_client_config;
use ultrafast_mcp_sequential_thinking::default_server_config;
use ultrafast_mcp_sequential_thinking::thinking::client::ClientThinkingConfig;

fn no_env() -> EnvOverrides {
    EnvOverrides { server_name: None, transport: None, port: None, server_url: None, timeout: None }
}

#[test]
fn test_server_config_default() {
    let config = ServerConfig::default();
    assert_eq!(config.name, "ultrafast-sequential-thinking");
    assert_eq!(config.transport, "stdio");
    assert_eq!(config.port, 8080);
}

#[test]
fn test_client_config_default() {
    let config = ClientConfig::default();
    assert_eq!(config.server_url, "stdio://");
    assert_eq!(config.timeout_seconds, 30);
    assert_eq!(config.retry_attempts, 3);
}

#[test]
fn test_thinking_config_default() {
    let config = ThinkingConfig::default();
    assert_eq!(config.max_thoughts_per_session, 100);
    assert_eq!(config.max_branches_per_session, 10);
    assert!(config.enable_analytics);
}

#[test]
fn test_config_manager() {
    let mut manager = ConfigManager::new();
    let server_config = ServerConfig { name: String::new(), ..Default::default() };
    manager.set_server_config(server_config);

    let loaded_config = manager.get_server_config();
    assert_eq!(loaded_config.name, "");
    assert_eq!(ConfigManager::new().get_server_config().name, "ultrafast-sequential-thinking");
}

#[test]
fn test_config_validation() {
    let mut manager = ConfigManager::new();
    let server_config = ServerConfig { name: String::new(), ..Default::default() };
    manager.set_server_config(server_config);

    let result = manager.validate();
    assert!(result.is_err());
}

#[test]
fn test_default_configs() {
    let server_config = default_server_config();
    assert_eq!(server_config.name, "ultrafast-sequential-thinking");
    assert_eq!(server_config.transport, "stdio");

    let client_config = default_client_config();
    assert_eq!(client_config.server_url, "stdio://");
    assert_eq!(client_config.timeout_seconds, 30);
}

#[test]
fn test_client_creation() {
    let config = ClientThinkingConfig::default();
    assert!(config.enable_progress_tracking);
    assert_eq!(config.auto_save_interval, 60);
}

#[test]
fn every_default_value() {
    let server = ServerConfig::default();
    assert_eq!(server.version, "0.1.0");
    let thinking = server.thinking;
    assert_eq!(thinking.session_timeout_seconds, 3600);
    assert!(thinking.enable_thought_logging);
    assert_eq!(thinking.max_thought_length, 10000);
    assert_eq!(thinking.min_thought_length, 10);
    assert_eq!(
        thinking.rate_limiting,
        RateLimitingConfig { requests_per_minute: 1000, thoughts_per_minute: 100, burst_size: 10, enabled: true }
    );
    let export: ExportConfig = server.export.clone();
    assert_eq!(export.formats, vec!["json".to_string(), "markdown".to_string(), "pdf".to_string()]);
    assert!(!export.auto_export);
    assert_eq!(export.export_directory, "./exports");
    assert_eq!(export.filename_template, "session_{session_id}_{timestamp}");
    assert!(export.include_metadata && export.include_statistics);
    let analytics: AnalyticsConfig = server.analytics.clone();
    assert!(!analytics.enabled);
    assert_eq!(analytics.endpoint, "http://localhost:9090");
    assert_eq!(analytics.api_key, None);
    assert_eq!(analytics.collection_interval, 60);
    assert!(analytics.detailed_metrics);
    assert_eq!(analytics.retention_days, 30);
    let logging: LoggingConfig = server.logging.clone();
    assert_eq!(logging.level, "info");
    assert_eq!(logging.file_path, Some("./logs/sequential-thinking.log".to_string()));
    assert!(logging.console && logging.file && logging.include_timestamps);
    assert_eq!(logging.format, "text");
    assert!(!logging.include_thread_ids);
    let security: SecurityConfig = server.security.clone();
    assert!(!security.require_auth);
    assert_eq!(security.allowed_origins, vec!["*".to_string()]);
    assert!(!security.api_key_validation && !security.session_encryption);
    assert!(security.rate_limiting_enabled && security.audit_logging);
    let client = ClientConfig::default();
    assert_eq!(
        client.connection,
        ConnectionConfig {
            timeout_seconds: 30,
            keep_alive_interval: 60,
            max_retries: 3,
            retry_delay: 1,
            connection_pooling: true,
            pool_size: 10,
        }
    );
    let ui: UIConfig = client.ui.clone();
    assert!(ui.show_progress_bars && ui.show_thought_visualization && ui.show_session_stats);
    assert_eq!(ui.theme, "default");
    assert!(ui.color_output && ui.show_timestamps);
    assert_eq!(
        client.thinking,
        ClientThinkingConfig {
            enable_progress_tracking: true,
            auto_save_interval: 60,
            show_thought_visualization: true,
            max_retry_attempts: 3,
            operation_timeout: 30,
        }
    );
    assert_eq!(ThinkingConfig::default(), thinking);
}

#[test]
fn validation_lists_every_error_in_order() {
    let mut manager = ConfigManager::new();
    assert_eq!(manager.validate(), Ok(()));
    let mut server = ServerConfig::default();
    server.name = String::new();
    server.port = 0;
    server.thinking.max_thoughts_per_session = 0;
    manager.set_server_config(server);
    let mut client = ClientConfig::default();
    client.server_url = String::new();
    client.timeout_seconds = 0;
    manager.set_client_config(client);
    assert_eq!(
        manager.validate(),
        Err(vec![
            "Server name cannot be empty".to_string(),
            "Server port must be greater than 0".to_string(),
            "Max thoughts per session must be greater than 0".to_string(),
            "Server URL cannot be empty".to_string(),
            "Timeout must be greater than 0".to_string(),
        ])
    );
    let mut server = ServerConfig::default();
    server.port = 0;
    manager.set_server_config(server);
    manager.set_client_config(ClientConfig::default());
    assert_eq!(manager.validate(), Err(vec!["Server port must be greater than 0".to_string()]));
    manager.set_server_config(ServerConfig::default());
    assert_eq!(manager.validate(), Ok(()));
}

#[test]
fn merge_takes_over_what_is_set() {
    let mut base = ServerConfig::default();
    base.thinking.max_thoughts_per_session = 7;
    let mut other = ServerConfig::default();
    other.name = "other".to_string();
    other.version = String::new();
    other.transport = "http".to_string();
    other.port = 0;
    other.thinking.max_thoughts_per_session = 9;
    merge_configs(&mut base, &other);
    assert_eq!(base.name, "other");
    assert_eq!(base.version, "0.1.0");
    assert_eq!(base.transport, "http");
    assert_eq!(base.port, 8080);
    assert_eq!(base.thinking.max_thoughts_per_session, 7);
    other.port = 9000;
    merge_configs(&mut base, &other);
    assert_eq!(base.port, 9000);
}

#[test]
fn environment_overrides() {
    let mut manager = ConfigManager::new();
    manager.apply_env(no_env());
    assert_eq!(manager.validate(), Ok(()));
    assert_eq!(manager.config_path(), None);
    manager.apply_env(EnvOverrides {
        server_name: Some("from-env".to_string()),
        transport: None,
        port: Some("9090".to_string()),
        server_url: None,
        timeout: Some("not a number".to_string()),
    });
    let server = manager.get_server_config();
    assert_eq!(server.name, "from-env");
    assert_eq!(server.transport, "stdio");
    assert_eq!(server.port, 9090);
    assert_eq!(manager.get_client_config().timeout_seconds, 30);
    manager.apply_env(EnvOverrides {
        server_name: None,
        transport: Some("http".to_string()),
        port: Some("70000".to_string()),
        server_url: Some("http://host".to_string()),
        timeout: Some("45".to_string()),
    });
    let server = manager.get_server_config();
    assert_eq!(server.name, "from-env");
    assert_eq!(server.transport, "http");
    assert_eq!(server.port, 9090);
    let client = manager.get_client_config();
    assert_eq!(client.server_url, "http://host");
    assert_eq!(client.timeout_seconds, 45);
    manager.apply_env_values(None, None, Some(1), None, Some(2));
    assert_eq!(manager.get_server_config().port, 1);
    assert_eq!(manager.get_client_config().timeout_seconds, 2);
    assert_eq!(manager.get_client_config().server_url, "http://host");
}

#[test]
fn loaded_settings_replace_what_they_hold() {
    let mut manager = ConfigManager::new();
    let mut server = ServerConfig::default();
    server.name = "file".to_string();
    manager.apply_loaded(Some(server), None);
    manager.apply_loaded(None, None);
    assert_eq!(manager.get_server_config().name, "file");
    assert_eq!(manager.get_client_config().server_url, "stdio://");
    manager.set_config_path("./config.toml".to_string());
    assert_eq!(manager.config_path(), Some("./config.toml"));
    let mut client = ClientConfig::default();
    client.retry_attempts = 9;
    manager.apply_loaded(None, Some(client));
    assert_eq!(manager.get_client_config().retry_attempts, 9);
    assert_eq!(manager.get_server_config().name, "file");
}

#[test]
fn default_config_sources() {
    assert_eq!(
        default_config_paths(),
        vec![
            "./config.toml".to_string(),
            "./config.json".to_string(),
            "./sequential-thinking.toml".to_string(),
            "./sequential-thinking.json".to_string(),
        ]
    );
    let manager = load_default_config(None, no_env());
    assert_eq!(manager.config_path(), None);
    assert_eq!(manager.get_server_config().port, 8080);
    let mut server = ServerConfig::default();
    server.port = 1234;
    let loaded = LoadedConfig { path: "./config.json".to_string(), server: Some(server), client: None };
    let mut env = no_env();
    env.server_name = Some("n".to_string());
    let manager = load_default_config(Some(loaded), env);
    assert_eq!(manager.config_path(), Some("./config.json"));
    assert_eq!(manager.get_server_config().port, 1234);
    assert_eq!(manager.get_server_config().name, "n");
    let created = create_default_config();
    assert_eq!(created.validate(), Ok(()));
    assert_eq!(created.get_client_config().retry_attempts, 3);
    assert_eq!(ConfigManager::default().config_path(), None);
}

#[test]
fn config_format_by_extension() {
    assert_eq!(ConfigFormat::from_extension(Some("toml")), Ok(ConfigFormat::Toml));
    assert_eq!(ConfigFormat::from_extension(Some("json")), Ok(ConfigFormat::Json));
    assert_eq!(
        ConfigFormat::from_extension(Some("yaml")),
        Err("Unsupported configuration file format".to_string())
    );
    assert_eq!(
        ConfigFormat::from_extension(Some("JSON")),
        Err("Unsupported configuration file format".to_string())
    );
    assert_eq!(
        ConfigFormat::from_extension(None),
        Err("Unsupported configuration file format".to_string())
    );
}

#[test]
fn stored_settings_are_absent_until_set() {
    let mut manager = ConfigManager::new();
    assert!(manager.stored_server_config().is_none());
    assert!(manager.stored_client_config().is_none());
    manager.set_server_config(ServerConfig { port: 9, ..Default::default() });
    assert_eq!(manager.stored_server_config().unwrap().port, 9);
    assert!(manager.stored_client_config().is_none());
    manager.set_client_config(ClientConfig { timeout_seconds: 4, ..Default::default() });
    assert_eq!(manager.stored_client_config().unwrap().timeout_seconds, 4);
}
