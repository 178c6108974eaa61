//! What a command line says about the settings, and what a server checks
//! before it starts.

use crate::config::ClientConfig;
use crate::config::ClientConfigView;
use crate::config::ServerConfig;
use crate::config::ServerConfigView;
use crate::config::AnalyticsConfigView;
use crate::config::SecurityConfigView;
use crate::config::RateLimitingConfig;
use crate::config::ThinkingConfig;
use crate::text::joined;
use crate::text::str_eq;
use crate::text::string_views;
use crate::thinking::client::ClientThinkingConfig;
use vstd::prelude::*;

verus! {

/// What the command line of a server says about its settings.
#[derive(Debug)]
pub struct ServerOverrides {
    /// The transport; empty where none is given.
    pub transport: String,
    /// The port; zero where none is given.
    pub port: u16,
    /// The name of the server.
    pub name: Option<String>,
    /// Whether analytics are switched on.
    pub enable_analytics: bool,
    /// Where analytics are sent.
    pub analytics_endpoint: Option<String>,
    /// The most thoughts that a session may hold.
    pub max_thoughts: Option<u32>,
    /// The most branches that a session may hold.
    pub max_branches: Option<u32>,
    /// The time after which a session runs out, in seconds.
    pub session_timeout: Option<u64>,
    /// Whether callers are held to a rate.
    pub rate_limiting: bool,
    /// The most requests in a minute.
    pub requests_per_minute: Option<u32>,
}

/// The settings `config` with what the command line `args` says taken over:
/// each value that is given replaces the one of the settings, and a switch
/// that is set switches on.
pub open spec fn server_overridden(config: ServerConfigView, args: ServerOverrides) -> ServerConfigView {
    ServerConfigView {
        transport: if args.transport@.len() > 0 {
            args.transport@
        } else {
            config.transport
        },
        port: if args.port != 0 {
            args.port
        } else {
            config.port
        },
        name: match args.name {
            Some(name) => name@,
            None => config.name,
        },
        analytics: AnalyticsConfigView {
            enabled: args.enable_analytics || config.analytics.enabled,
            endpoint: match args.analytics_endpoint {
                Some(endpoint) => endpoint@,
                None => config.analytics.endpoint,
            },
            ..config.analytics
        },
        thinking: ThinkingConfig {
            max_thoughts_per_session: match args.max_thoughts {
                Some(n) => n,
                None => config.thinking.max_thoughts_per_session,
            },
            max_branches_per_session: match args.max_branches {
                Some(n) => n,
                None => config.thinking.max_branches_per_session,
            },
            session_timeout_seconds: match args.session_timeout {
                Some(n) => n,
                None => config.thinking.session_timeout_seconds,
            },
            rate_limiting: RateLimitingConfig {
                requests_per_minute: match args.requests_per_minute {
                    Some(n) => n,
                    None => config.thinking.rate_limiting.requests_per_minute,
                },
                ..config.thinking.rate_limiting
            },
            ..config.thinking
        },
        security: SecurityConfigView {
            rate_limiting_enabled: args.rate_limiting || config.security.rate_limiting_enabled,
            ..config.security
        },
        ..config
    }
}

/// Takes over the limits that a command line gives.
fn override_thinking(
    thinking: &mut ThinkingConfig,
    max_thoughts: Option<u32>,
    max_branches: Option<u32>,
    session_timeout: Option<u64>,
    requests_per_minute: Option<u32>,
)
    ensures
        *final(thinking) == (ThinkingConfig {
            max_thoughts_per_session: match max_thoughts {
                Some(n) => n,
                None => old(thinking).max_thoughts_per_session,
            },
            max_branches_per_session: match max_branches {
                Some(n) => n,
                None => old(thinking).max_branches_per_session,
            },
            session_timeout_seconds: match session_timeout {
                Some(n) => n,
                None => old(thinking).session_timeout_seconds,
            },
            rate_limiting: RateLimitingConfig {
                requests_per_minute: match requests_per_minute {
                    Some(n) => n,
                    None => old(thinking).rate_limiting.requests_per_minute,
                },
                ..old(thinking).rate_limiting
            },
            ..*old(thinking)
        }),
{
    match max_thoughts {
        Some(n) => {
            thinking.max_thoughts_per_session = n;
        },
        None => {},
    }
    match max_branches {
        Some(n) => {
            thinking.max_branches_per_session = n;
        },
        None => {},
    }
    match session_timeout {
        Some(n) => {
            thinking.session_timeout_seconds = n;
        },
        None => {},
    }
    match requests_per_minute {
        Some(n) => {
            thinking.rate_limiting.requests_per_minute = n;
        },
        None => {},
    }
}

/// Takes over what a command line says about analytics.
fn override_analytics(
    analytics: &mut crate::config::AnalyticsConfig,
    enable_analytics: bool,
    analytics_endpoint: Option<String>,
)
    ensures
        final(analytics)@ == (AnalyticsConfigView {
            enabled: enable_analytics || old(analytics)@.enabled,
            endpoint: match analytics_endpoint {
                Some(endpoint) => endpoint@,
                None => old(analytics)@.endpoint,
            },
            ..old(analytics)@
        }),
{
    if enable_analytics {
        analytics.enabled = true;
    }
    match analytics_endpoint {
        Some(endpoint) => {
            analytics.endpoint = endpoint;
        },
        None => {},
    }
}

/// Takes over the name, the transport and the port that a command line
/// gives.
fn override_address(config: &mut ServerConfig, transport: String, port: u16, name: Option<String>)
    ensures
        final(config)@ == (ServerConfigView {
            transport: if transport@.len() > 0 {
                transport@
            } else {
                old(config)@.transport
            },
            port: if port != 0 {
                port
            } else {
                old(config)@.port
            },
            name: match name {
                Some(n) => n@,
                None => old(config)@.name,
            },
            ..old(config)@
        }),
{
    if !transport.as_str().is_empty() {
        config.transport = transport;
    }
    if port != 0 {
        config.port = port;
    }
    match name {
        Some(n) => {
            config.name = n;
        },
        None => {},
    }
}

/// Takes over into `config` what the command line `args` says.
pub fn apply_server_overrides(config: &mut ServerConfig, args: ServerOverrides)
    ensures
        final(config)@ == server_overridden(old(config)@, args),
{
    let ServerOverrides {
        transport,
        port,
        name,
        enable_analytics,
        analytics_endpoint,
        max_thoughts,
        max_branches,
        session_timeout,
        rate_limiting,
        requests_per_minute,
    } = args;
    override_address(config, transport, port, name);
    override_analytics(&mut config.analytics, enable_analytics, analytics_endpoint);
    override_thinking(
        &mut config.thinking,
        max_thoughts,
        max_branches,
        session_timeout,
        requests_per_minute,
    );
    if rate_limiting {
        config.security.rate_limiting_enabled = true;
    }
}

/// What is wrong with the settings of a server that is about to start, in
/// the order of the checks: an empty name, the port zero, and a limit of
/// zero for the thoughts, for the branches or for the time of a session.
pub open spec fn server_start_errors(config: ServerConfigView) -> Seq<Seq<char>> {
    (if config.name.len() == 0 {
        seq!["Server name cannot be empty"@]
    } else {
        Seq::empty()
    }) + (if config.port == 0 {
        seq!["Server port must be greater than 0"@]
    } else {
        Seq::empty()
    }) + (if config.thinking.max_thoughts_per_session == 0 {
        seq!["Max thoughts per session must be greater than 0"@]
    } else {
        Seq::empty()
    }) + (if config.thinking.max_branches_per_session == 0 {
        seq!["Max branches per session must be greater than 0"@]
    } else {
        Seq::empty()
    }) + (if config.thinking.session_timeout_seconds == 0 {
        seq!["Session timeout must be greater than 0"@]
    } else {
        Seq::empty()
    })
}

/// Checks the settings of a server that is about to start, and lists all
/// that is wrong with them.
pub fn validate_server_config(config: &ServerConfig) -> (r: Result<(), Vec<String>>)
    ensures
        match r {
            Ok(_) => server_start_errors(config@).len() == 0,
            Err(errors) => errors@.len() > 0 && string_views(errors@) == server_start_errors(
                config@,
            ),
        },
{
    let mut errors: Vec<String> = Vec::new();
    assert(string_views(errors@) =~= Seq::<Seq<char>>::empty());
    if config.name.as_str().is_empty() {
        let ghost before = string_views(errors@);
        errors.push("Server name cannot be empty".to_string());
        assert(string_views(errors@) =~= before + seq!["Server name cannot be empty"@]);
    }
    if config.port == 0 {
        let ghost before = string_views(errors@);
        errors.push("Server port must be greater than 0".to_string());
        assert(string_views(errors@) =~= before + seq!["Server port must be greater than 0"@]);
    }
    if config.thinking.max_thoughts_per_session == 0 {
        let ghost before = string_views(errors@);
        errors.push("Max thoughts per session must be greater than 0".to_string());
        assert(string_views(errors@) =~= before + seq![
            "Max thoughts per session must be greater than 0"@,
        ]);
    }
    if config.thinking.max_branches_per_session == 0 {
        let ghost before = string_views(errors@);
        errors.push("Max branches per session must be greater than 0".to_string());
        assert(string_views(errors@) =~= before + seq![
            "Max branches per session must be greater than 0"@,
        ]);
    }
    if config.thinking.session_timeout_seconds == 0 {
        let ghost before = string_views(errors@);
        errors.push("Session timeout must be greater than 0".to_string());
        assert(string_views(errors@) =~= before + seq!["Session timeout must be greater than 0"@]);
    }
    assert(string_views(errors@) =~= server_start_errors(config@));
    if errors.len() == 0 {
        Ok(())
    } else {
        Err(errors)
    }
}

/// The transports over which a server runs.
#[derive(Debug, Clone, Copy, PartialEq, Eq, Structural)]
pub enum ServerTransport {
    Stdio,
    Http,
}

impl ServerTransport {
    /// The transport of the name `name`.
    pub open spec fn of_name(name: Seq<char>) -> Option<ServerTransport> {
        if name == "stdio"@ {
            Some(ServerTransport::Stdio)
        } else if name == "http"@ {
            Some(ServerTransport::Http)
        } else {
            None
        }
    }

    /// The transport that the settings name. Another name is refused, and
    /// the error quotes it.
    pub fn from_name(name: &str) -> (r: Result<ServerTransport, String>)
        ensures
            match r {
                Ok(transport) => Self::of_name(name@) == Some(transport),
                Err(message) => Self::of_name(name@) is None && message@
                    == "Unsupported transport: "@ + name@,
            },
    {
        if str_eq(name, "stdio") {
            Ok(ServerTransport::Stdio)
        } else if str_eq(name, "http") {
            Ok(ServerTransport::Http)
        } else {
            Err(joined("Unsupported transport: ", name))
        }
    }
}

/// What the command line of a client says about its settings.
#[derive(Debug)]
pub struct ClientOverrides {
    /// The address of the server; empty where none is given.
    pub server: String,
    /// How long a request may take, in seconds; zero where nothing is given.
    pub timeout: u64,
    /// How often a request is tried again; zero where nothing is given.
    pub retries: u32,
    /// Whether the progress is not to be followed.
    pub disable_progress: bool,
    /// Whether thoughts are not to be drawn.
    pub disable_visualization: bool,
    /// The time between two savings, in seconds; zero where nothing is given.
    pub auto_save: u64,
}

/// The settings `config` with what the command line `args` says taken over.
pub open spec fn client_overridden(config: ClientConfigView, args: ClientOverrides) -> ClientConfigView {
    ClientConfigView {
        server_url: if args.server@.len() > 0 {
            args.server@
        } else {
            config.server_url
        },
        timeout_seconds: if args.timeout != 0 {
            args.timeout
        } else {
            config.timeout_seconds
        },
        retry_attempts: if args.retries != 0 {
            args.retries
        } else {
            config.retry_attempts
        },
        thinking: ClientThinkingConfig {
            enable_progress_tracking: !args.disable_progress
                && config.thinking.enable_progress_tracking,
            show_thought_visualization: !args.disable_visualization
                && config.thinking.show_thought_visualization,
            auto_save_interval: if args.auto_save != 0 {
                args.auto_save
            } else {
                config.thinking.auto_save_interval
            },
            ..config.thinking
        },
        ..config
    }
}

/// Takes over into `config` what the command line `args` says.
pub fn apply_client_overrides(config: &mut ClientConfig, args: ClientOverrides)
    ensures
        final(config)@ == client_overridden(old(config)@, args),
{
    let ClientOverrides { server, timeout, retries, disable_progress, disable_visualization, auto_save } =
        args;
    if !server.as_str().is_empty() {
        config.server_url = server;
    }
    if timeout != 0 {
        config.timeout_seconds = timeout;
    }
    if retries != 0 {
        config.retry_attempts = retries;
    }
    if disable_progress {
        config.thinking.enable_progress_tracking = false;
    }
    if disable_visualization {
        config.thinking.show_thought_visualization = false;
    }
    if auto_save != 0 {
        config.thinking.auto_save_interval = auto_save;
    }
}

} // verus!
