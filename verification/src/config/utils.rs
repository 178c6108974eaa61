//! Shorthands for the usual ways to come by settings.

use crate::config::ClientConfig;
use crate::config::ClientConfigView;
use crate::config::ConfigManager;
use crate::config::ConfigManagerView;
use crate::config::EnvOverrides;
use crate::config::ServerConfig;
use crate::config::ServerConfigView;
use crate::config::optional_text;
use crate::config::parsed_u16;
use crate::config::parsed_u64;
use crate::text::string_views;
use vstd::prelude::*;

verus! {

/// What a file of settings held, and where it was.
#[derive(Debug)]
pub struct LoadedConfig {
    /// The path of the file.
    pub path: String,
    /// The settings of the server, if the file held any.
    pub server: Option<ServerConfig>,
    /// The settings of the client, if the file held any.
    pub client: Option<ClientConfig>,
}

/// The places where a file of settings is looked for, in the order in which
/// they are tried.
pub fn default_config_paths() -> (paths: Vec<String>)
    ensures
        string_views(paths@) == seq![
            "./config.toml"@,
            "./config.json"@,
            "./sequential-thinking.toml"@,
            "./sequential-thinking.json"@,
        ],
{
    let mut paths: Vec<String> = Vec::new();
    paths.push("./config.toml".to_string());
    paths.push("./config.json".to_string());
    paths.push("./sequential-thinking.toml".to_string());
    paths.push("./sequential-thinking.json".to_string());
    assert(string_views(paths@) =~= seq![
        "./config.toml"@,
        "./config.json"@,
        "./sequential-thinking.toml"@,
        "./sequential-thinking.json"@,
    ]);
    paths
}

/// The manager for the settings of the usual places: what the first file
/// that could be read held, if there was one, and over it what the
/// environment says.
pub fn load_default_config(loaded: Option<LoadedConfig>, env: EnvOverrides) -> (m: ConfigManager)
    ensures
        m@ == (match loaded {
            Some(file) => ConfigManagerView {
                server_config: match file.server {
                    Some(c) => Some(c@),
                    None => None,
                },
                client_config: match file.client {
                    Some(c) => Some(c@),
                    None => None,
                },
                config_path: Some(file.path@),
            },
            None => ConfigManagerView { server_config: None, client_config: None, config_path: None },
        }).with_env(
            optional_text(env.server_name),
            optional_text(env.transport),
            match env.port {
                Some(text) => parsed_u16(text@),
                None => None,
            },
            optional_text(env.server_url),
            match env.timeout {
                Some(text) => parsed_u64(text@),
                None => None,
            },
        ),
{
    let mut manager = ConfigManager::new();
    match loaded {
        Some(file) => {
            manager.apply_loaded(file.server, file.client);
            manager.set_config_path(file.path);
        },
        None => {},
    }
    manager.apply_env(env);
    manager
}

/// The manager whose settings are written where a file of standard settings
/// is asked for: the standard settings of a server and of a client.
pub fn create_default_config() -> (m: ConfigManager)
    ensures
        m@ == (ConfigManagerView {
            server_config: Some(ServerConfigView::standard()),
            client_config: Some(ClientConfigView::standard()),
            config_path: None,
        }),
{
    let mut manager = ConfigManager::new();
    manager.set_server_config(ServerConfig::default());
    manager.set_client_config(ClientConfig::default());
    manager
}

/// The settings `base` with the name, the version, the transport and the
/// port that `override_config` sets: a text that is not empty, a port other
/// than zero.
pub open spec fn merged(base: ServerConfigView, override_config: ServerConfigView) -> ServerConfigView {
    ServerConfigView {
        name: if override_config.name.len() > 0 {
            override_config.name
        } else {
            base.name
        },
        version: if override_config.version.len() > 0 {
            override_config.version
        } else {
            base.version
        },
        transport: if override_config.transport.len() > 0 {
            override_config.transport
        } else {
            base.transport
        },
        port: if override_config.port != 0 {
            override_config.port
        } else {
            base.port
        },
        ..base
    }
}

/// Takes over into `base` the name, the version, the transport and the port
/// that `override_config` sets.
pub fn merge_configs(base: &mut ServerConfig, override_config: &ServerConfig)
    ensures
        final(base)@ == merged(old(base)@, override_config@),
{
    if !override_config.name.as_str().is_empty() {
        base.name = override_config.name.clone();
    }
    if !override_config.version.as_str().is_empty() {
        base.version = override_config.version.clone();
    }
    if !override_config.transport.as_str().is_empty() {
        base.transport = override_config.transport.clone();
    }
    if override_config.port != 0 {
        base.port = override_config.port;
    }
}

} // verus!
