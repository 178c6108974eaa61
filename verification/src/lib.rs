//! Sequential thinking: sessions of numbered thoughts that can be revised
//! and branched, with their progress and their counters, and the registry
//! that keeps the sessions.

pub mod analytics;
pub mod config;
pub mod export;
pub mod interactive;
pub mod json;
pub mod ratio;
pub mod session;
pub mod string_map;
pub mod text;
pub mod thinking;
pub mod time;

pub use crate::config::ClientConfig;
pub use crate::config::ServerConfig;
pub use crate::config::ThinkingConfig;
pub use crate::export::ExportEngine;
pub use crate::export::ExportFormat;
pub use crate::export::ExportOptions;
pub use crate::session::SessionManager;
pub use crate::session::SessionMetadata;
pub use crate::session::ThinkingSession;
pub use crate::thinking::error::SequentialThinkingError;
pub use crate::thinking::error::SequentialThinkingResult;
pub use crate::thinking::ThinkingEngine;
pub use crate::thinking::ThinkingStats;
pub use crate::thinking::ThoughtData;

use crate::config::ClientConfigView;
use crate::config::ServerConfigView;
use vstd::prelude::*;

verus! {

/// The result of an operation of the library.
pub type Result<T> = std::result::Result<T, SequentialThinkingError>;

/// The standard settings of a server.
pub fn default_server_config() -> (c: ServerConfig)
    ensures
        c@ == ServerConfigView::standard(),
{
    ServerConfig::default()
}

/// The standard settings of a client.
pub fn default_client_config() -> (c: ClientConfig)
    ensures
        c@ == ClientConfigView::standard(),
{
    ClientConfig::default()
}

} // verus!
