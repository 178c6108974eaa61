use ultrafast_mcp_sequential_thinking::config::overrides::apply_client_overrides;
use ultrafast_mcp_sequential_thinking::config::overrides::apply_server_overrides;
use ultrafast_mcp_sequential_thinking::config::overrides::validate_server_config;
use ultrafast_mcp_sequential_thinking::config::overrides::ClientOverrides;
use ultrafast_mcp_sequential_thinking::config::overrides::ServerOverrides;
use ultrafast_mcp_sequential_thinking::config::overrides::ServerTransport;
use ultrafast_mcp_sequential_thinking::config::ClientConfig;
use ultrafast_mcp_sequential_thinking::config::ServerConfig;

fn nothing_for_the_server() -> ServerOverrides {
    ServerOverrides {
        transport: String::new(),
        port: 0,
        name: None,
        enable_analytics: false,
        analytics_endpoint: None,
        max_thoughts: None,
        max_branches: None,
        session_timeout: None,
        rate_limiting: false,
        requests_per_minute: None,
    }
}

fn nothing_for_the_client() -> ClientOverrides {
    ClientOverrides {
        server: String::new(),
        timeout: 0,
        retries: 0,
        disable_progress: false,
        disable_visualization: false,
        auto_save: 0,
    }
}

#[test]
fn a_command_line_that_gives_nothing_changes_nothing() {
    let mut config = ServerConfig::default();
    apply_server_overrides(&mut config, nothing_for_the_server());
    let standard = ServerConfig::default();
    assert_eq!(config.name, standard.name);
    assert_eq!(config.transport, standard.transport);
    assert_eq!(config.port, standard.port);
    assert_eq!(config.analytics.enabled, standard.analytics.enabled);
    assert_eq!(config.analytics.endpoint, standard.analytics.endpoint);
    assert_eq!(config.thinking, standard.thinking);
    assert_eq!(config.security.rate_limiting_enabled, standard.security.rate_limiting_enabled);

    let mut client = ClientConfig::default();
    apply_client_overrides(&mut client, nothing_for_the_client());
    let standard = ClientConfig::default();
    assert_eq!(client.server_url, standard.server_url);
    assert_eq!(client.timeout_seconds, standard.timeout_seconds);
    assert_eq!(client.retry_attempts, standard.retry_attempts);
    assert_eq!(client.thinking, standard.thinking);
}

#[test]
fn what_the_command_line_gives_is_taken_over() {
    let mut config = ServerConfig::default();
    let version = config.version.clone();
    let burst = config.thinking.rate_limiting.burst_size;
    apply_server_overrides(
        &mut config,
        ServerOverrides {
            transport: "http".to_string(),
            port: 9000,
            name: Some("mine".to_string()),
            enable_analytics: true,
            analytics_endpoint: Some("http://stats".to_string()),
            max_thoughts: Some(7),
            max_branches: Some(0),
            session_timeout: Some(11),
            rate_limiting: true,
            requests_per_minute: Some(13),
        },
    );
    assert_eq!(config.transport, "http");
    assert_eq!(config.port, 9000);
    assert_eq!(config.name, "mine");
    assert_eq!(config.version, version);
    assert!(config.analytics.enabled);
    assert_eq!(config.analytics.endpoint, "http://stats");
    assert_eq!(config.thinking.max_thoughts_per_session, 7);
    assert_eq!(config.thinking.max_branches_per_session, 0);
    assert_eq!(config.thinking.session_timeout_seconds, 11);
    assert_eq!(config.thinking.rate_limiting.requests_per_minute, 13);
    assert_eq!(config.thinking.rate_limiting.burst_size, burst);
    assert!(config.security.rate_limiting_enabled);
}

#[test]
fn a_switch_that_is_not_set_switches_nothing_off() {
    let mut config = ServerConfig::default();
    config.analytics.enabled = true;
    config.security.rate_limiting_enabled = true;
    apply_server_overrides(&mut config, nothing_for_the_server());
    assert!(config.analytics.enabled);
    assert!(config.security.rate_limiting_enabled);
}

#[test]
fn the_client_takes_over_what_is_given() {
    let mut client = ClientConfig::default();
    let operation_timeout = client.thinking.operation_timeout;
    apply_client_overrides(
        &mut client,
        ClientOverrides {
            server: "http://there".to_string(),
            timeout: 5,
            retries: 9,
            disable_progress: true,
            disable_visualization: true,
            auto_save: 120,
        },
    );
    assert_eq!(client.server_url, "http://there");
    assert_eq!(client.timeout_seconds, 5);
    assert_eq!(client.retry_attempts, 9);
    assert!(!client.thinking.enable_progress_tracking);
    assert!(!client.thinking.show_thought_visualization);
    assert_eq!(client.thinking.auto_save_interval, 120);
    assert_eq!(client.thinking.operation_timeout, operation_timeout);
}

#[test]
fn the_standard_settings_of_a_server_may_start() {
    assert_eq!(validate_server_config(&ServerConfig::default()), Ok(()));
}

#[test]
fn all_that_is_wrong_is_listed_in_order() {
    let mut config = ServerConfig::default();
    config.name = String::new();
    config.port = 0;
    config.thinking.max_thoughts_per_session = 0;
    config.thinking.max_branches_per_session = 0;
    config.thinking.session_timeout_seconds = 0;
    assert_eq!(
        validate_server_config(&config),
        Err(vec![
            "Server name cannot be empty".to_string(),
            "Server port must be greater than 0".to_string(),
            "Max thoughts per session must be greater than 0".to_string(),
            "Max branches per session must be greater than 0".to_string(),
            "Session timeout must be greater than 0".to_string(),
        ])
    );

    let mut config = ServerConfig::default();
    config.thinking.max_branches_per_session = 0;
    assert_eq!(
        validate_server_config(&config),
        Err(vec!["Max branches per session must be greater than 0".to_string()])
    );
}

#[test]
fn transports_by_name() {
    assert_eq!(ServerTransport::from_name("stdio"), Ok(ServerTransport::Stdio));
    assert_eq!(ServerTransport::from_name("http"), Ok(ServerTransport::Http));
    assert_eq!(
        ServerTransport::from_name("carrier-pigeon"),
        Err("Unsupported transport: carrier-pigeon".to_string())
    );
    assert_eq!(ServerTransport::from_name(""), Err("Unsupported transport: ".to_string()));
    assert_eq!(ServerTransport::from_name("HTTP"), Err("Unsupported transport: HTTP".to_string()));
}
