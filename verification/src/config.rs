//! The configuration of the service, as it is read from its file.
//!
//! The library works on a snapshot of the configuration; loading the file
//! and swapping snapshots is the caller's business.

use vstd::prelude::*;
use crate::credentials::RconCredentials;

verus! {

/// What the command line says.
#[derive(Debug, PartialEq, Eq)]
pub struct CliConfig {
    /// The configuration file to use.
    pub config_file: String,
    /// How verbose the service starts up: 1 is debug, 2 is trace.
    pub verbosity: u8,
}

/// How often the server is asked.
#[derive(Debug, Clone, Copy, PartialEq, Eq, Structural)]
pub struct PollingConfig {
    /// The period of the game state poller, in milliseconds.
    pub wait_ms: u64,
    /// The pause between starting two pollers, in milliseconds.
    pub cooldown_ms: u64,
}

/// What a token allows.
#[derive(Debug, Clone, Copy, PartialEq, Eq, Structural)]
pub struct AuthPerms {
    /// Whether the holder receives the events of the game server.
    pub read_rcon_events: bool,
    /// Whether the holder may run commands on the game server.
    pub write_rcon: bool,
}

impl Default for AuthPerms {
    /// No permission at all.
    fn default() -> (perms: Self)
        ensures
            perms == (AuthPerms { read_rcon_events: false, write_rcon: false }),
    {
        AuthPerms { read_rcon_events: false, write_rcon: false }
    }
}

/// An access token with its permissions.
#[derive(Debug, PartialEq, Eq)]
pub struct AuthToken {
    /// A name for the holder, used in logs.
    pub name: String,
    /// The secret that the holder presents.
    pub value: String,
    pub perms: AuthPerms,
}

/// Mathematical model of an [`AuthToken`].
pub struct AuthTokenView {
    pub name: Seq<char>,
    pub value: Seq<char>,
    pub perms: AuthPerms,
}

impl View for AuthToken {
    type V = AuthTokenView;

    open spec fn view(&self) -> AuthTokenView {
        AuthTokenView { name: self.name@, value: self.value@, perms: self.perms }
    }
}

impl DeepView for AuthToken {
    type V = AuthTokenView;

    open spec fn deep_view(&self) -> AuthTokenView {
        self@
    }
}

/// The tokens that open the service.
#[derive(Debug, PartialEq, Eq)]
pub struct AuthConfig {
    pub tokens: Vec<AuthToken>,
}

/// How the WebSocket server is set up.
#[derive(Debug, PartialEq, Eq)]
pub struct WebSocketConfig {
    /// Whether the WebSocket server runs at all.
    pub enabled: bool,
    /// The address to bind to.
    pub address: String,
    /// The password that clients present before their token, if one is asked for.
    pub password: Option<String>,
    /// Whether connections are encrypted.
    pub tls: bool,
    /// Path to the certificate file.
    pub cert_file: Option<String>,
    /// Path to the key file.
    pub key_file: Option<String>,
}

impl WebSocketConfig {
    /// The certificate file and the key file, where encryption is switched
    /// on and both are named.
    pub fn tls_files(&self) -> (files: Option<(&String, &String)>)
        ensures
            match files {
                Some((cert, key)) => self.tls && self.cert_file == Some(*cert) && self.key_file
                    == Some(*key),
                None => !self.tls || self.cert_file is None || self.key_file is None,
            },
    {
        if !self.tls {
            return None;
        }
        match (&self.cert_file, &self.key_file) {
            (Some(cert), Some(key)) => Some((cert, key)),
            _ => None,
        }
    }
}

/// The ways in which the service hands out what it knows.
#[derive(Debug, PartialEq, Eq)]
pub struct ExportingConfig {
    pub websocket: WebSocketConfig,
}

/// How much the service logs.
#[derive(Debug, Clone, Copy, PartialEq, Eq, Structural)]
pub struct LoggingConfig {
    /// From -2 for errors only to 2 for everything; 0 is the usual level.
    pub level: i32,
}

/// The whole configuration.
#[derive(Debug, PartialEq, Eq)]
pub struct FileConfig {
    /// Credentials for the game server.
    pub rcon: RconCredentials,
    /// How often the server is asked.
    pub polling: PollingConfig,
    /// The tokens that open the service.
    pub auth: AuthConfig,
    /// The ways in which the service hands out what it knows.
    pub exporting: ExportingConfig,
    /// How much the service logs.
    pub logging: LoggingConfig,
}

} // verus!
