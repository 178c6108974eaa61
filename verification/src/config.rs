//! The settings of servers and clients, and the manager that holds them.

pub mod overrides;
pub mod utils;

use crate::text::clone_strings;
use crate::text::string_views;
use crate::thinking::client::ClientThinkingConfig;
use vstd::prelude::*;

verus! {

/// The settings of a server.
#[derive(Debug)]
pub struct ServerConfig {
    /// The name of the server.
    pub name: String,
    /// The version of the server.
    pub version: String,
    /// The transport: `stdio` or `http`.
    pub transport: String,
    /// The port of the `http` transport.
    pub port: u16,
    /// The limits of sessions.
    pub thinking: ThinkingConfig,
    /// How sessions are exported.
    pub export: ExportConfig,
    /// How sessions are analysed.
    pub analytics: AnalyticsConfig,
    /// What is logged, and where.
    pub logging: LoggingConfig,
    /// Who may do what.
    pub security: SecurityConfig,
}

/// What a [`ServerConfig`] holds, as mathematical values.
pub struct ServerConfigView {
    pub name: Seq<char>,
    pub version: Seq<char>,
    pub transport: Seq<char>,
    pub port: u16,
    pub thinking: ThinkingConfig,
    pub export: ExportConfigView,
    pub analytics: AnalyticsConfigView,
    pub logging: LoggingConfigView,
    pub security: SecurityConfigView,
}

impl View for ServerConfig {
    type V = ServerConfigView;

    open spec fn view(&self) -> ServerConfigView {
        ServerConfigView {
            name: self.name@,
            version: self.version@,
            transport: self.transport@,
            port: self.port,
            thinking: self.thinking,
            export: self.export@,
            analytics: self.analytics@,
            logging: self.logging@,
            security: self.security@,
        }
    }
}

impl ServerConfigView {
    /// A server on `stdio`, with port 8080 for `http`, and the standard settings of each part.
    pub open spec fn standard() -> ServerConfigView {
        ServerConfigView {
            name: "ultrafast-sequential-thinking"@,
            version: "0.1.0"@,
            transport: "stdio"@,
            port: 8080,
            thinking: ThinkingConfig::standard(),
            export: ExportConfigView::standard(),
            analytics: AnalyticsConfigView::standard(),
            logging: LoggingConfigView::standard(),
            security: SecurityConfigView::standard(),
        }
    }
}

impl Default for ServerConfig {
    /// A server on `stdio`, with port 8080 for `http`, and the standard settings of each part.
    fn default() -> (c: Self)
        ensures
            c@ == ServerConfigView::standard(),
    {
        ServerConfig {
            name: "ultrafast-sequential-thinking".to_string(),
            version: "0.1.0".to_string(),
            transport: "stdio".to_string(),
            port: 8080,
            thinking: ThinkingConfig::default(),
            export: ExportConfig::default(),
            analytics: AnalyticsConfig::default(),
            logging: LoggingConfig::default(),
            security: SecurityConfig::default(),
        }
    }
}

impl Clone for ServerConfig {
    /// A copy that holds what `self` holds.
    fn clone(&self) -> (copy: Self)
        ensures
            copy@ == self@,
    {
        ServerConfig {
            name: self.name.clone(),
            version: self.version.clone(),
            transport: self.transport.clone(),
            port: self.port,
            thinking: self.thinking,
            export: self.export.clone(),
            analytics: self.analytics.clone(),
            logging: self.logging.clone(),
            security: self.security.clone(),
        }
    }
}

/// The settings of a client.
#[derive(Debug)]
pub struct ClientConfig {
    /// Where the server is.
    pub server_url: String,
    /// How long a request may take, in seconds.
    pub timeout_seconds: u64,
    /// How often a request is tried again.
    pub retry_attempts: u32,
    /// How the client follows a session.
    pub thinking: ClientThinkingConfig,
    /// How the connection is kept.
    pub connection: ConnectionConfig,
    /// What the client shows.
    pub ui: UIConfig,
}

/// What a [`ClientConfig`] holds, as mathematical values.
pub struct ClientConfigView {
    pub server_url: Seq<char>,
    pub timeout_seconds: u64,
    pub retry_attempts: u32,
    pub thinking: ClientThinkingConfig,
    pub connection: ConnectionConfig,
    pub ui: UIConfigView,
}

impl View for ClientConfig {
    type V = ClientConfigView;

    open spec fn view(&self) -> ClientConfigView {
        ClientConfigView {
            server_url: self.server_url@,
            timeout_seconds: self.timeout_seconds,
            retry_attempts: self.retry_attempts,
            thinking: self.thinking,
            connection: self.connection,
            ui: self.ui@,
        }
    }
}

impl ClientConfigView {
    /// A client of a server on `stdio`, with 30 seconds for a request and three further attempts.
    pub open spec fn standard() -> ClientConfigView {
        ClientConfigView {
            server_url: "stdio://"@,
            timeout_seconds: 30,
            retry_attempts: 3,
            thinking: ClientThinkingConfig::standard(),
            connection: ConnectionConfig::standard(),
            ui: UIConfigView::standard(),
        }
    }
}

impl Default for ClientConfig {
    /// A client of a server on `stdio`, with 30 seconds for a request and three further attempts.
    fn default() -> (c: Self)
        ensures
            c@ == ClientConfigView::standard(),
    {
        ClientConfig {
            server_url: "stdio://".to_string(),
            timeout_seconds: 30,
            retry_attempts: 3,
            thinking: ClientThinkingConfig::default(),
            connection: ConnectionConfig::default(),
            ui: UIConfig::default(),
        }
    }
}

impl Clone for ClientConfig {
    /// A copy that holds what `self` holds.
    fn clone(&self) -> (copy: Self)
        ensures
            copy@ == self@,
    {
        ClientConfig {
            server_url: self.server_url.clone(),
            timeout_seconds: self.timeout_seconds,
            retry_attempts: self.retry_attempts,
            thinking: self.thinking,
            connection: self.connection,
            ui: self.ui.clone(),
        }
    }
}

/// The limits of sessions.
#[derive(Debug, Clone, Copy, PartialEq, Eq, Structural)]
pub struct ThinkingConfig {
    /// The most thoughts that a session may hold.
    pub max_thoughts_per_session: u32,
    /// The most branches that a session may hold.
    pub max_branches_per_session: u32,
    /// The time after which a session runs out, in seconds.
    pub session_timeout_seconds: u64,
    /// Whether sessions are analysed.
    pub enable_analytics: bool,
    /// Whether thoughts are rendered for diagnosis.
    pub enable_thought_logging: bool,
    /// The greatest length of a thought.
    pub max_thought_length: usize,
    /// The least length of a thought.
    pub min_thought_length: usize,
    /// How often callers may ask.
    pub rate_limiting: RateLimitingConfig,
}

impl ThinkingConfig {
    /// A hundred thoughts and ten branches in a session of an hour.
    pub open spec fn standard() -> ThinkingConfig {
        ThinkingConfig {
            max_thoughts_per_session: 100,
            max_branches_per_session: 10,
            session_timeout_seconds: 3600,
            enable_analytics: true,
            enable_thought_logging: true,
            max_thought_length: 10000,
            min_thought_length: 10,
            rate_limiting: RateLimitingConfig::standard(),
        }
    }
}

impl Default for ThinkingConfig {
    /// A hundred thoughts and ten branches in a session of an hour.
    fn default() -> (c: Self)
        ensures
            c == ThinkingConfig::standard(),
    {
        ThinkingConfig {
            max_thoughts_per_session: 100,
            max_branches_per_session: 10,
            session_timeout_seconds: 3600,
            enable_analytics: true,
            enable_thought_logging: true,
            max_thought_length: 10000,
            min_thought_length: 10,
            rate_limiting: RateLimitingConfig::default(),
        }
    }
}

/// How often callers may ask.
#[derive(Debug, Clone, Copy, PartialEq, Eq, Structural)]
pub struct RateLimitingConfig {
    /// The most requests in a minute.
    pub requests_per_minute: u32,
    /// The most thoughts in a minute.
    pub thoughts_per_minute: u32,
    /// The most requests at once.
    pub burst_size: u32,
    /// Whether the limits are in force.
    pub enabled: bool,
}

impl RateLimitingConfig {
    /// A thousand requests and a hundred thoughts in a minute, ten at once.
    pub open spec fn standard() -> RateLimitingConfig {
        RateLimitingConfig {
            requests_per_minute: 1000,
            thoughts_per_minute: 100,
            burst_size: 10,
            enabled: true,
        }
    }
}

impl Default for RateLimitingConfig {
    /// A thousand requests and a hundred thoughts in a minute, ten at once.
    fn default() -> (c: Self)
        ensures
            c == RateLimitingConfig::standard(),
    {
        RateLimitingConfig {
            requests_per_minute: 1000,
            thoughts_per_minute: 100,
            burst_size: 10,
            enabled: true,
        }
    }
}

/// How sessions are exported.
#[derive(Debug)]
pub struct ExportConfig {
    /// The formats that are offered.
    pub formats: Vec<String>,
    /// Whether sessions are exported without being asked.
    pub auto_export: bool,
    /// The directory that exports are written to.
    pub export_directory: String,
    /// The pattern of the file names.
    pub filename_template: String,
    /// Whether the metadata goes into an export.
    pub include_metadata: bool,
    /// Whether the counters go into an export.
    pub include_statistics: bool,
}

/// What a [`ExportConfig`] holds, as mathematical values.
pub struct ExportConfigView {
    pub formats: Seq<Seq<char>>,
    pub auto_export: bool,
    pub export_directory: Seq<char>,
    pub filename_template: Seq<char>,
    pub include_metadata: bool,
    pub include_statistics: bool,
}

impl View for ExportConfig {
    type V = ExportConfigView;

    open spec fn view(&self) -> ExportConfigView {
        ExportConfigView {
            formats: string_views(self.formats@),
            auto_export: self.auto_export,
            export_directory: self.export_directory@,
            filename_template: self.filename_template@,
            include_metadata: self.include_metadata,
            include_statistics: self.include_statistics,
        }
    }
}

impl ExportConfigView {
    /// Exports on request, as JSON, Markdown or PDF, into `./exports`.
    pub open spec fn standard() -> ExportConfigView {
        ExportConfigView {
            formats: seq!["json"@, "markdown"@, "pdf"@],
            auto_export: false,
            export_directory: "./exports"@,
            filename_template: "session_{session_id}_{timestamp}"@,
            include_metadata: true,
            include_statistics: true,
        }
    }
}

impl Default for ExportConfig {
    /// Exports on request, as JSON, Markdown or PDF, into `./exports`.
    fn default() -> (c: Self)
        ensures
            c@ == ExportConfigView::standard(),
    {
        let mut formats: Vec<String> = Vec::new();
        formats.push("json".to_string());
        formats.push("markdown".to_string());
        formats.push("pdf".to_string());
        assert(string_views(formats@) =~= seq!["json"@, "markdown"@, "pdf"@]);
        ExportConfig {
            formats,
            auto_export: false,
            export_directory: "./exports".to_string(),
            filename_template: "session_{session_id}_{timestamp}".to_string(),
            include_metadata: true,
            include_statistics: true,
        }
    }
}

impl Clone for ExportConfig {
    /// A copy that holds what `self` holds.
    fn clone(&self) -> (copy: Self)
        ensures
            copy@ == self@,
    {
        ExportConfig {
            formats: clone_strings(&self.formats),
            auto_export: self.auto_export,
            export_directory: self.export_directory.clone(),
            filename_template: self.filename_template.clone(),
            include_metadata: self.include_metadata,
            include_statistics: self.include_statistics,
        }
    }
}

/// How sessions are analysed.
#[derive(Debug)]
pub struct AnalyticsConfig {
    /// Whether analytics are sent.
    pub enabled: bool,
    /// Where analytics are sent.
    pub endpoint: String,
    /// The key for that place.
    pub api_key: Option<String>,
    /// The time between two collections, in seconds.
    pub collection_interval: u64,
    /// Whether detailed metrics are collected.
    pub detailed_metrics: bool,
    /// How long metrics are kept, in days.
    pub retention_days: u32,
}

/// What a [`AnalyticsConfig`] holds, as mathematical values.
pub struct AnalyticsConfigView {
    pub enabled: bool,
    pub endpoint: Seq<char>,
    pub api_key: Option<Seq<char>>,
    pub collection_interval: u64,
    pub detailed_metrics: bool,
    pub retention_days: u32,
}

impl View for AnalyticsConfig {
    type V = AnalyticsConfigView;

    open spec fn view(&self) -> AnalyticsConfigView {
        AnalyticsConfigView {
            enabled: self.enabled,
            endpoint: self.endpoint@,
            api_key: match self.api_key {
                Some(text) => Some(text@),
                None => None,
            },
            collection_interval: self.collection_interval,
            detailed_metrics: self.detailed_metrics,
            retention_days: self.retention_days,
        }
    }
}

impl AnalyticsConfigView {
    /// No analytics are sent.
    pub open spec fn standard() -> AnalyticsConfigView {
        AnalyticsConfigView {
            enabled: false,
            endpoint: "http://localhost:9090"@,
            api_key: None,
            collection_interval: 60,
            detailed_metrics: true,
            retention_days: 30,
        }
    }
}

impl Default for AnalyticsConfig {
    /// No analytics are sent.
    fn default() -> (c: Self)
        ensures
            c@ == AnalyticsConfigView::standard(),
    {
        AnalyticsConfig {
            enabled: false,
            endpoint: "http://localhost:9090".to_string(),
            api_key: None,
            collection_interval: 60,
            detailed_metrics: true,
            retention_days: 30,
        }
    }
}

impl Clone for AnalyticsConfig {
    /// A copy that holds what `self` holds.
    fn clone(&self) -> (copy: Self)
        ensures
            copy@ == self@,
    {
        AnalyticsConfig {
            enabled: self.enabled,
            endpoint: self.endpoint.clone(),
            api_key: match &self.api_key {
                Some(text) => Some(text.clone()),
                None => None,
            },
            collection_interval: self.collection_interval,
            detailed_metrics: self.detailed_metrics,
            retention_days: self.retention_days,
        }
    }
}

/// What is logged, and where.
#[derive(Debug)]
pub struct LoggingConfig {
    /// The least level that is logged.
    pub level: String,
    /// The log file.
    pub file_path: Option<String>,
    /// Whether the console gets the log.
    pub console: bool,
    /// Whether the file gets the log.
    pub file: bool,
    /// The format: `json` or `text`.
    pub format: String,
    /// Whether each line is stamped.
    pub include_timestamps: bool,
    /// Whether each line names its thread.
    pub include_thread_ids: bool,
}

/// What a [`LoggingConfig`] holds, as mathematical values.
pub struct LoggingConfigView {
    pub level: Seq<char>,
    pub file_path: Option<Seq<char>>,
    pub console: bool,
    pub file: bool,
    pub format: Seq<char>,
    pub include_timestamps: bool,
    pub include_thread_ids: bool,
}

impl View for LoggingConfig {
    type V = LoggingConfigView;

    open spec fn view(&self) -> LoggingConfigView {
        LoggingConfigView {
            level: self.level@,
            file_path: match self.file_path {
                Some(text) => Some(text@),
                None => None,
            },
            console: self.console,
            file: self.file,
            format: self.format@,
            include_timestamps: self.include_timestamps,
            include_thread_ids: self.include_thread_ids,
        }
    }
}

impl LoggingConfigView {
    /// Text lines from level `info` on, to the console and to a file.
    pub open spec fn standard() -> LoggingConfigView {
        LoggingConfigView {
            level: "info"@,
            file_path: Some("./logs/sequential-thinking.log"@),
            console: true,
            file: true,
            format: "text"@,
            include_timestamps: true,
            include_thread_ids: false,
        }
    }
}

impl Default for LoggingConfig {
    /// Text lines from level `info` on, to the console and to a file.
    fn default() -> (c: Self)
        ensures
            c@ == LoggingConfigView::standard(),
    {
        LoggingConfig {
            level: "info".to_string(),
            file_path: Some("./logs/sequential-thinking.log".to_string()),
            console: true,
            file: true,
            format: "text".to_string(),
            include_timestamps: true,
            include_thread_ids: false,
        }
    }
}

impl Clone for LoggingConfig {
    /// A copy that holds what `self` holds.
    fn clone(&self) -> (copy: Self)
        ensures
            copy@ == self@,
    {
        LoggingConfig {
            level: self.level.clone(),
            file_path: match &self.file_path {
                Some(text) => Some(text.clone()),
                None => None,
            },
            console: self.console,
            file: self.file,
            format: self.format.clone(),
            include_timestamps: self.include_timestamps,
            include_thread_ids: self.include_thread_ids,
        }
    }
}

/// Who may do what.
#[derive(Debug)]
pub struct SecurityConfig {
    /// Whether callers have to say who they are.
    pub require_auth: bool,
    /// The origins that may call.
    pub allowed_origins: Vec<String>,
    /// Whether keys are checked.
    pub api_key_validation: bool,
    /// Whether callers are held to a rate.
    pub rate_limiting_enabled: bool,
    /// Whether sessions are kept encrypted.
    pub session_encryption: bool,
    /// Whether a record of calls is kept.
    pub audit_logging: bool,
}

/// What a [`SecurityConfig`] holds, as mathematical values.
pub struct SecurityConfigView {
    pub require_auth: bool,
    pub allowed_origins: Seq<Seq<char>>,
    pub api_key_validation: bool,
    pub rate_limiting_enabled: bool,
    pub session_encryption: bool,
    pub audit_logging: bool,
}

impl View for SecurityConfig {
    type V = SecurityConfigView;

    open spec fn view(&self) -> SecurityConfigView {
        SecurityConfigView {
            require_auth: self.require_auth,
            allowed_origins: string_views(self.allowed_origins@),
            api_key_validation: self.api_key_validation,
            rate_limiting_enabled: self.rate_limiting_enabled,
            session_encryption: self.session_encryption,
            audit_logging: self.audit_logging,
        }
    }
}

impl SecurityConfigView {
    /// Everybody may call, at a limited rate, and a record is kept.
    pub open spec fn standard() -> SecurityConfigView {
        SecurityConfigView {
            require_auth: false,
            allowed_origins: seq!["*"@],
            api_key_validation: false,
            rate_limiting_enabled: true,
            session_encryption: false,
            audit_logging: true,
        }
    }
}

impl Default for SecurityConfig {
    /// Everybody may call, at a limited rate, and a record is kept.
    fn default() -> (c: Self)
        ensures
            c@ == SecurityConfigView::standard(),
    {
        let mut allowed_origins: Vec<String> = Vec::new();
        allowed_origins.push("*".to_string());
        assert(string_views(allowed_origins@) =~= seq!["*"@]);
        SecurityConfig {
            require_auth: false,
            allowed_origins,
            api_key_validation: false,
            rate_limiting_enabled: true,
            session_encryption: false,
            audit_logging: true,
        }
    }
}

impl Clone for SecurityConfig {
    /// A copy that holds what `self` holds.
    fn clone(&self) -> (copy: Self)
        ensures
            copy@ == self@,
    {
        SecurityConfig {
            require_auth: self.require_auth,
            allowed_origins: clone_strings(&self.allowed_origins),
            api_key_validation: self.api_key_validation,
            rate_limiting_enabled: self.rate_limiting_enabled,
            session_encryption: self.session_encryption,
            audit_logging: self.audit_logging,
        }
    }
}

/// How the connection is kept.
#[derive(Debug, Clone, Copy, PartialEq, Eq, Structural)]
pub struct ConnectionConfig {
    /// How long connecting may take, in seconds.
    pub timeout_seconds: u64,
    /// The time between two signs of life, in seconds.
    pub keep_alive_interval: u64,
    /// How often connecting is tried again.
    pub max_retries: u32,
    /// The time between two attempts, in seconds.
    pub retry_delay: u64,
    /// Whether connections are shared.
    pub connection_pooling: bool,
    /// How many connections are shared.
    pub pool_size: u32,
}

impl ConnectionConfig {
    /// Thirty seconds to connect, three further attempts, a pool of ten.
    pub open spec fn standard() -> ConnectionConfig {
        ConnectionConfig {
            timeout_seconds: 30,
            keep_alive_interval: 60,
            max_retries: 3,
            retry_delay: 1,
            connection_pooling: true,
            pool_size: 10,
        }
    }
}

impl Default for ConnectionConfig {
    /// Thirty seconds to connect, three further attempts, a pool of ten.
    fn default() -> (c: Self)
        ensures
            c == ConnectionConfig::standard(),
    {
        ConnectionConfig {
            timeout_seconds: 30,
            keep_alive_interval: 60,
            max_retries: 3,
            retry_delay: 1,
            connection_pooling: true,
            pool_size: 10,
        }
    }
}

/// What the client shows.
#[derive(Debug)]
pub struct UIConfig {
    /// Whether progress bars are shown.
    pub show_progress_bars: bool,
    /// Whether thoughts are drawn.
    pub show_thought_visualization: bool,
    /// Whether the counters are shown.
    pub show_session_stats: bool,
    /// The theme.
    pub theme: String,
    /// Whether colour is used.
    pub color_output: bool,
    /// Whether times are shown.
    pub show_timestamps: bool,
}

/// What a [`UIConfig`] holds, as mathematical values.
pub struct UIConfigView {
    pub show_progress_bars: bool,
    pub show_thought_visualization: bool,
    pub show_session_stats: bool,
    pub theme: Seq<char>,
    pub color_output: bool,
    pub show_timestamps: bool,
}

impl View for UIConfig {
    type V = UIConfigView;

    open spec fn view(&self) -> UIConfigView {
        UIConfigView {
            show_progress_bars: self.show_progress_bars,
            show_thought_visualization: self.show_thought_visualization,
            show_session_stats: self.show_session_stats,
            theme: self.theme@,
            color_output: self.color_output,
            show_timestamps: self.show_timestamps,
        }
    }
}

impl UIConfigView {
    /// Everything is shown, in colour.
    pub open spec fn standard() -> UIConfigView {
        UIConfigView {
            show_progress_bars: true,
            show_thought_visualization: true,
            show_session_stats: true,
            theme: "default"@,
            color_output: true,
            show_timestamps: true,
        }
    }
}

impl Default for UIConfig {
    /// Everything is shown, in colour.
    fn default() -> (c: Self)
        ensures
            c@ == UIConfigView::standard(),
    {
        UIConfig {
            show_progress_bars: true,
            show_thought_visualization: true,
            show_session_stats: true,
            theme: "default".to_string(),
            color_output: true,
            show_timestamps: true,
        }
    }
}

impl Clone for UIConfig {
    /// A copy that holds what `self` holds.
    fn clone(&self) -> (copy: Self)
        ensures
            copy@ == self@,
    {
        UIConfig {
            show_progress_bars: self.show_progress_bars,
            show_thought_visualization: self.show_thought_visualization,
            show_session_stats: self.show_session_stats,
            theme: self.theme.clone(),
            color_output: self.color_output,
            show_timestamps: self.show_timestamps,
        }
    }
}

/// The format of a file of settings.
#[derive(Debug, Clone, Copy, PartialEq, Eq, Structural)]
pub enum ConfigFormat {
    Toml,
    Json,
}

impl ConfigFormat {
    /// The format that a file with the extension `extension` is in: TOML for
    /// `toml`, JSON for `json`.
    pub open spec fn of_extension(extension: Option<Seq<char>>) -> Option<ConfigFormat> {
        if extension == Some("toml"@) {
            Some(ConfigFormat::Toml)
        } else if extension == Some("json"@) {
            Some(ConfigFormat::Json)
        } else {
            None
        }
    }

    /// The format that a file with the extension `extension` is in. A file
    /// with another extension, or with none, is refused.
    pub fn from_extension(extension: Option<&str>) -> (r: Result<ConfigFormat, String>)
        ensures
            match r {
                Ok(format) => Self::of_extension(
                    match extension {
                        Some(e) => Some(e@),
                        None => None,
                    },
                ) == Some(format),
                Err(message) => Self::of_extension(
                    match extension {
                        Some(e) => Some(e@),
                        None => None,
                    },
                ) is None && message@ == "Unsupported configuration file format"@,
            },
    {
        match extension {
            Some(e) => {
                if crate::text::str_eq(e, "toml") {
                    Ok(ConfigFormat::Toml)
                } else if crate::text::str_eq(e, "json") {
                    Ok(ConfigFormat::Json)
                } else {
                    Err("Unsupported configuration file format".to_string())
                }
            },
            None => Err("Unsupported configuration file format".to_string()),
        }
    }
}

/// What the environment says about the settings: the text of each variable
/// that is set.
#[derive(Debug)]
pub struct EnvOverrides {
    /// The name of the server.
    pub server_name: Option<String>,
    /// The transport of the server.
    pub transport: Option<String>,
    /// The port of the server, as text.
    pub port: Option<String>,
    /// Where the client finds the server.
    pub server_url: Option<String>,
    /// How long a request of the client may take, in seconds, as text.
    pub timeout: Option<String>,
}

/// The number that `str::parse::<u16>` reads from `text`, if it reads one.
pub uninterp spec fn parsed_u16(text: Seq<char>) -> Option<u16>;

/// The number that `str::parse::<u64>` reads from `text`, if it reads one.
pub uninterp spec fn parsed_u64(text: Seq<char>) -> Option<u64>;

/// Reads a 16-bit number with `str::parse`.
#[verifier::external_body]
pub(crate) fn parse_u16(text: &str) -> (n: Option<u16>)
    ensures
        n == parsed_u16(text@),
{
    text.parse::<u16>().ok()
}

/// Reads a 64-bit number with `str::parse`.
#[verifier::external_body]
pub(crate) fn parse_u64(text: &str) -> (n: Option<u64>)
    ensures
        n == parsed_u64(text@),
{
    text.parse::<u64>().ok()
}

/// The characters of a text that may be absent.
pub open spec fn optional_text(text: Option<String>) -> Option<Seq<char>> {
    match text {
        Some(t) => Some(t@),
        None => None,
    }
}

/// The settings that a [`ConfigManager`] holds.
#[derive(Debug)]
pub struct ConfigManager {
    server_config: Option<ServerConfig>,
    client_config: Option<ClientConfig>,
    config_path: Option<String>,
}

/// The state of a [`ConfigManager`], as mathematical values.
pub struct ConfigManagerView {
    /// The settings of the server, once they are set.
    pub server_config: Option<ServerConfigView>,
    /// The settings of the client, once they are set.
    pub client_config: Option<ClientConfigView>,
    /// The file that the settings were read from, if they were.
    pub config_path: Option<Seq<char>>,
}

impl View for ConfigManager {
    type V = ConfigManagerView;

    closed spec fn view(&self) -> ConfigManagerView {
        ConfigManagerView {
            server_config: match self.server_config {
                Some(c) => Some(c@),
                None => None,
            },
            client_config: match self.client_config {
                Some(c) => Some(c@),
                None => None,
            },
            config_path: optional_text(self.config_path),
        }
    }
}

impl ConfigManagerView {
    /// The settings of the server: those that are set, else the standard
    /// ones.
    pub open spec fn server(self) -> ServerConfigView {
        match self.server_config {
            Some(c) => c,
            None => ServerConfigView::standard(),
        }
    }

    /// The settings of the client: those that are set, else the standard
    /// ones.
    pub open spec fn client(self) -> ClientConfigView {
        match self.client_config {
            Some(c) => c,
            None => ClientConfigView::standard(),
        }
    }

    /// What is wrong with the settings of the server, in the order of the
    /// checks: an empty name, the port zero, a session limit of zero
    /// thoughts.
    pub open spec fn server_errors(self) -> Seq<Seq<char>> {
        match self.server_config {
            Some(c) => (if c.name.len() == 0 {
                seq!["Server name cannot be empty"@]
            } else {
                Seq::empty()
            }) + (if c.port == 0 {
                seq!["Server port must be greater than 0"@]
            } else {
                Seq::empty()
            }) + (if c.thinking.max_thoughts_per_session == 0 {
                seq!["Max thoughts per session must be greater than 0"@]
            } else {
                Seq::empty()
            }),
            None => Seq::empty(),
        }
    }

    /// What is wrong with the settings of the client, in the order of the
    /// checks: an empty address of the server, a timeout of zero.
    pub open spec fn client_errors(self) -> Seq<Seq<char>> {
        match self.client_config {
            Some(c) => (if c.server_url.len() == 0 {
                seq!["Server URL cannot be empty"@]
            } else {
                Seq::empty()
            }) + (if c.timeout_seconds == 0 {
                seq!["Timeout must be greater than 0"@]
            } else {
                Seq::empty()
            }),
            None => Seq::empty(),
        }
    }

    /// All that is wrong with the settings: first of the server, then of the
    /// client. Settings that are not set are not checked.
    pub open spec fn errors(self) -> Seq<Seq<char>> {
        self.server_errors() + self.client_errors()
    }

    /// The state after settings were read: each part that was found replaces
    /// what was there.
    pub open spec fn loaded(
        self,
        server: Option<ServerConfigView>,
        client: Option<ClientConfigView>,
    ) -> ConfigManagerView {
        ConfigManagerView {
            server_config: if server is Some {
                server
            } else {
                self.server_config
            },
            client_config: if client is Some {
                client
            } else {
                self.client_config
            },
            ..self
        }
    }

    /// The state after the values of the environment were taken over: each
    /// value that is there replaces the one in the settings, which are the
    /// standard ones where none were set before.
    pub open spec fn with_env(
        self,
        server_name: Option<Seq<char>>,
        transport: Option<Seq<char>>,
        port: Option<u16>,
        server_url: Option<Seq<char>>,
        timeout: Option<u64>,
    ) -> ConfigManagerView {
        ConfigManagerView {
            server_config: if server_name is Some || transport is Some || port is Some {
                Some(
                    ServerConfigView {
                        name: match server_name {
                            Some(n) => n,
                            None => self.server().name,
                        },
                        transport: match transport {
                            Some(t) => t,
                            None => self.server().transport,
                        },
                        port: match port {
                            Some(p) => p,
                            None => self.server().port,
                        },
                        ..self.server()
                    },
                )
            } else {
                self.server_config
            },
            client_config: if server_url is Some || timeout is Some {
                Some(
                    ClientConfigView {
                        server_url: match server_url {
                            Some(u) => u,
                            None => self.client().server_url,
                        },
                        timeout_seconds: match timeout {
                            Some(t) => t,
                            None => self.client().timeout_seconds,
                        },
                        ..self.client()
                    },
                )
            } else {
                self.client_config
            },
            ..self
        }
    }
}

impl ConfigManager {
    /// A manager in which nothing is set.
    pub fn new() -> (m: Self)
        ensures
            m@ == (ConfigManagerView { server_config: None, client_config: None, config_path: None }),
    {
        ConfigManager { server_config: None, client_config: None, config_path: None }
    }

    /// Takes over the settings that were read from a file or a text: each
    /// part that was found replaces what was there.
    pub fn apply_loaded(&mut self, server: Option<ServerConfig>, client: Option<ClientConfig>)
        ensures
            final(self)@ == old(self)@.loaded(
                match server {
                    Some(c) => Some(c@),
                    None => None,
                },
                match client {
                    Some(c) => Some(c@),
                    None => None,
                },
            ),
    {
        if server.is_some() {
            self.server_config = server;
        }
        if client.is_some() {
            self.client_config = client;
        }
    }

    /// Notes the file that the settings were read from.
    pub fn set_config_path(&mut self, path: String)
        ensures
            final(self)@ == (ConfigManagerView { config_path: Some(path@), ..old(self)@ }),
    {
        self.config_path = Some(path);
    }

    /// The file that the settings were read from, if they were.
    pub fn config_path(&self) -> (path: Option<&str>)
        ensures
            match path {
                Some(p) => self@.config_path == Some(p@),
                None => self@.config_path is None,
            },
    {
        match &self.config_path {
            Some(p) => Some(p.as_str()),
            None => None,
        }
    }

    /// Takes over values that were read from the environment; a value that
    /// is absent changes nothing.
    pub fn apply_env_values(
        &mut self,
        server_name: Option<String>,
        transport: Option<String>,
        port: Option<u16>,
        server_url: Option<String>,
        timeout: Option<u64>,
    )
        ensures
            final(self)@ == old(self)@.with_env(
                optional_text(server_name),
                optional_text(transport),
                port,
                optional_text(server_url),
                timeout,
            ),
    {
        if server_name.is_some() || transport.is_some() || port.is_some() {
            let mut server = self.get_server_config();
            match server_name {
                Some(n) => {
                    server.name = n;
                },
                None => {},
            }
            match transport {
                Some(t) => {
                    server.transport = t;
                },
                None => {},
            }
            match port {
                Some(p) => {
                    server.port = p;
                },
                None => {},
            }
            self.server_config = Some(server);
        }
        if server_url.is_some() || timeout.is_some() {
            let mut client = self.get_client_config();
            match server_url {
                Some(u) => {
                    client.server_url = u;
                },
                None => {},
            }
            match timeout {
                Some(t) => {
                    client.timeout_seconds = t;
                },
                None => {},
            }
            self.client_config = Some(client);
        }
    }

    /// Takes over what the environment says: the name, the transport and
    /// the port of the server, the address of the server and the timeout of
    /// the client. A port or a timeout that is no number is passed over.
    pub fn apply_env(&mut self, env: EnvOverrides)
        ensures
            final(self)@ == old(self)@.with_env(
                optional_text(env.server_name),
                optional_text(env.transport),
                match env.port {
                    Some(text) => parsed_u16(text@),
                    None => None,
                },
                optional_text(env.server_url),
                match env.timeout {
                    Some(text) => parsed_u64(text@),
                    None => None,
                },
            ),
    {
        let port = match &env.port {
            Some(text) => parse_u16(text.as_str()),
            None => None,
        };
        let timeout = match &env.timeout {
            Some(text) => parse_u64(text.as_str()),
            None => None,
        };
        self.apply_env_values(env.server_name, env.transport, port, env.server_url, timeout);
    }

    /// The settings of the server that are set, if any are.
    pub fn stored_server_config(&self) -> (c: Option<&ServerConfig>)
        ensures
            match c {
                Some(stored) => self@.server_config == Some(stored@),
                None => self@.server_config is None,
            },
    {
        self.server_config.as_ref()
    }

    /// The settings of the client that are set, if any are.
    pub fn stored_client_config(&self) -> (c: Option<&ClientConfig>)
        ensures
            match c {
                Some(stored) => self@.client_config == Some(stored@),
                None => self@.client_config is None,
            },
    {
        self.client_config.as_ref()
    }

    /// The settings of the server: a copy of those that are set, else the
    /// standard ones.
    pub fn get_server_config(&self) -> (c: ServerConfig)
        ensures
            c@ == self@.server(),
    {
        match &self.server_config {
            Some(c) => c.clone(),
            None => ServerConfig::default(),
        }
    }

    /// The settings of the client: a copy of those that are set, else the
    /// standard ones.
    pub fn get_client_config(&self) -> (c: ClientConfig)
        ensures
            c@ == self@.client(),
    {
        match &self.client_config {
            Some(c) => c.clone(),
            None => ClientConfig::default(),
        }
    }

    /// Sets the settings of the server.
    pub fn set_server_config(&mut self, config: ServerConfig)
        ensures
            final(self)@ == (ConfigManagerView { server_config: Some(config@), ..old(self)@ }),
    {
        self.server_config = Some(config);
    }

    /// Sets the settings of the client.
    pub fn set_client_config(&mut self, config: ClientConfig)
        ensures
            final(self)@ == (ConfigManagerView { client_config: Some(config@), ..old(self)@ }),
    {
        self.client_config = Some(config);
    }

    /// Checks the settings that are set. Where something is wrong, the error
    /// lists all that is wrong: first of the server (an empty name, the port
    /// zero, a session limit of zero thoughts), then of the client (an empty
    /// address of the server, a timeout of zero).
    pub fn validate(&self) -> (r: Result<(), Vec<String>>)
        ensures
            match r {
                Ok(_) => self@.errors().len() == 0,
                Err(errors) => errors@.len() > 0 && string_views(errors@) == self@.errors(),
            },
    {
        let mut errors: Vec<String> = Vec::new();
        assert(string_views(errors@) =~= Seq::<Seq<char>>::empty());
        match &self.server_config {
            Some(server) => {
                if server.name.as_str().is_empty() {
                    let ghost before = string_views(errors@);
                    errors.push("Server name cannot be empty".to_string());
                    assert(string_views(errors@) =~= before + seq![
                        "Server name cannot be empty"@,
                    ]);
                }
                if server.port == 0 {
                    let ghost before = string_views(errors@);
                    errors.push("Server port must be greater than 0".to_string());
                    assert(string_views(errors@) =~= before + seq![
                        "Server port must be greater than 0"@,
                    ]);
                }
                if server.thinking.max_thoughts_per_session == 0 {
                    let ghost before = string_views(errors@);
                    errors.push("Max thoughts per session must be greater than 0".to_string());
                    assert(string_views(errors@) =~= before + seq![
                        "Max thoughts per session must be greater than 0"@,
                    ]);
                }
            },
            None => {},
        }
        assert(string_views(errors@) =~= self@.server_errors());
        match &self.client_config {
            Some(client) => {
                if client.server_url.as_str().is_empty() {
                    let ghost before = string_views(errors@);
                    errors.push("Server URL cannot be empty".to_string());
                    assert(string_views(errors@) =~= before + seq!["Server URL cannot be empty"@]);
                }
                if client.timeout_seconds == 0 {
                    let ghost before = string_views(errors@);
                    errors.push("Timeout must be greater than 0".to_string());
                    assert(string_views(errors@) =~= before + seq![
                        "Timeout must be greater than 0"@,
                    ]);
                }
            },
            None => {},
        }
        assert(string_views(errors@) =~= self@.errors());
        if errors.len() == 0 {
            Ok(())
        } else {
            Err(errors)
        }
    }
}

impl Default for ConfigManager {
    /// A manager in which nothing is set.
    fn default() -> (m: Self)
        ensures
            m@ == (ConfigManagerView { server_config: None, client_config: None, config_path: None }),
    {
        ConfigManager::new()
    }
}

} // verus!
