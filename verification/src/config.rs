//! Configuration: the settings, their defaults and their validation.
//!
//! Durations are held in milliseconds and paths as text. Reading and
//! writing configuration files is left to the embedding program.

use crate::instance::{fallback_device_name, host_name};
use crate::net::{IpAddress, SocketAddress};
use crate::text::{decimal, decimal_text, lowercase, lowercase_text};
use vstd::prelude::*;

verus! {

/// The port that instances listen on unless told otherwise.
pub const DEFAULT_PORT: u16 = 34254;

/// Reconnection settings.
#[derive(Debug, Clone)]
pub struct ReconnectConfig {
    /// Reconnect automatically.
    pub enabled: bool,
    /// Delay before the first attempt, in milliseconds.
    pub initial_delay: u64,
    /// Largest delay between attempts, in milliseconds.
    pub max_delay: u64,
    /// Number of attempts; without end where there is none.
    pub max_attempts: Option<u32>,
}

/// TLS settings.
#[derive(Debug, Clone)]
pub struct TlsConfig {
    pub enabled: bool,
    pub cert_path: Option<String>,
    pub key_path: Option<String>,
    pub ca_path: Option<String>,
    /// Skip certificate verification. For tests only.
    pub skip_verify: bool,
}

/// A peer to connect to without discovery.
#[derive(Debug, Clone)]
pub struct PeerConfig {
    pub host: IpAddress,
    /// The peer's port; the local port where there is none.
    pub port: Option<u16>,
    pub name: Option<String>,
}

/// Network settings.
#[derive(Debug, Clone)]
pub struct NetworkConfig {
    pub bind_addr: IpAddress,
    pub port: u16,
    pub peers: Vec<PeerConfig>,
    /// In milliseconds.
    pub connection_timeout: u64,
    pub reconnect: ReconnectConfig,
    pub tls: Option<TlsConfig>,
}

/// Clipboard synchronisation settings.
#[derive(Debug, Clone)]
pub struct ClipboardConfig {
    /// Interval between two looks at the clipboard, in milliseconds.
    pub check_interval: u64,
    /// Largest content to synchronise, in bytes.
    pub max_size: usize,
    pub text_only: bool,
    pub ignore_empty: bool,
    /// Regular expressions; content that matches one is left alone.
    pub ignore_patterns: Vec<String>,
    pub bidirectional: bool,
}

#[derive(Debug, Clone, Copy, PartialEq, Eq, Structural)]
pub enum LogFormat {
    Json,
    Pretty,
    Compact,
}

/// Logging settings.
#[derive(Debug, Clone)]
pub struct LoggingConfig {
    /// One of `trace`, `debug`, `info`, `warn`, `error`, in any case.
    pub level: String,
    pub file: Option<String>,
    pub format: LogFormat,
    pub max_size: Option<String>,
    pub max_files: u32,
}

/// macOS settings.
#[derive(Debug, Clone)]
pub struct MacOSConfig {
    pub use_universal_clipboard: bool,
    pub pasteboard_types: Vec<String>,
}

#[derive(Debug, Clone, Copy, PartialEq, Eq, Structural)]
pub enum ClipboardSelection {
    Clipboard,
    Primary,
    Secondary,
}

#[derive(Debug, Clone, Copy, PartialEq, Eq, Structural)]
pub struct WaylandConfig {
    pub force_wayland: bool,
}

/// Linux settings.
#[derive(Debug, Clone)]
pub struct LinuxConfig {
    pub selection: ClipboardSelection,
    pub display: Option<String>,
    pub wayland: Option<WaylandConfig>,
}

/// Settings of one platform.
#[derive(Debug, Clone)]
pub enum PlatformConfig {
    MacOS(MacOSConfig),
    Linux(LinuxConfig),
}

/// Payload encryption settings.
#[derive(Debug, Clone)]
pub struct EncryptionConfig {
    pub enabled: bool,
    pub method: String,
    pub public_key_path: Option<String>,
    pub private_key_path: Option<String>,
}

/// Discovery settings.
#[derive(Debug, Clone)]
pub struct DiscoveryConfig {
    pub mdns: bool,
    pub manual: bool,
    pub peers: Vec<SocketAddress>,
    /// In milliseconds.
    pub timeout: u64,
}

/// Peer-to-peer settings.
#[derive(Debug, Clone)]
pub struct P2PConfig {
    pub discovery: DiscoveryConfig,
    pub encryption: Option<EncryptionConfig>,
    pub device_name: String,
    pub allowed_peers: Vec<String>,
    pub blocked_peers: Vec<String>,
    pub group: Option<String>,
    /// Length of the pairing window, in seconds.
    pub pair_timeout: Option<u64>,
    pub psk: Option<String>,
}

/// All settings.
#[derive(Debug, Clone)]
pub struct Config {
    pub network: NetworkConfig,
    pub clipboard: ClipboardConfig,
    pub logging: LoggingConfig,
    pub platform: Option<PlatformConfig>,
    pub p2p: Option<P2PConfig>,
}

#[verifier::external_type_specification]
#[verifier::external_body]
pub struct ExRegexError(regex::Error);

/// What is wrong with a configuration.
#[derive(Debug)]
pub enum ConfigError {
    InvalidPort(u16),
    InvalidLogLevel(String),
    InvalidClipboardSize(usize),
    /// The pattern, and what the `regex` crate said of it.
    InvalidRegex(String, regex::Error),
}

pub ghost enum ConfigFault {
    InvalidPort(u16),
    InvalidLogLevel(Seq<char>),
    InvalidClipboardSize(usize),
    InvalidRegex(Seq<char>),
}

impl View for ConfigError {
    type V = ConfigFault;

    open spec fn view(&self) -> ConfigFault {
        match *self {
            ConfigError::InvalidPort(p) => ConfigFault::InvalidPort(p),
            ConfigError::InvalidLogLevel(l) => ConfigFault::InvalidLogLevel(l@),
            ConfigError::InvalidClipboardSize(n) => ConfigFault::InvalidClipboardSize(n),
            ConfigError::InvalidRegex(p, _) => ConfigFault::InvalidRegex(p@),
        }
    }
}

/// `Regex::new(pattern)`, the compiled expression dropped. Whether a
/// pattern compiles is the `regex` crate's to say: beside the pattern it
/// goes by the size of the compiled program, which is not the same on
/// every machine. So nothing is claimed of the outcome.
#[verifier::external_body]
fn compile_pattern(pattern: &str) -> (r: Result<(), regex::Error>) {
    match regex::Regex::new(pattern) {
        Ok(_) => Ok(()),
        Err(e) => Err(e),
    }
}

/// What the `regex` crate says of a pattern it refused, shown with
/// `Display`.
#[verifier::external_body]
fn regex_error_text(error: &regex::Error) -> (text: String) {
    error.to_string()
}

impl ConfigError {
    /// The error in words.
    pub fn to_string(&self) -> (text: String)
        ensures
            match *self {
                ConfigError::InvalidPort(port) => text@ == "Invalid port number: "@ + decimal_text(
                    port as nat,
                ),
                ConfigError::InvalidLogLevel(level) => text@ == "Invalid log level: "@ + level@,
                ConfigError::InvalidClipboardSize(size) => text@ == "Invalid clipboard size: "@
                    + decimal_text(size as nat),
                ConfigError::InvalidRegex(pattern, _) => exists|said: Seq<char>|
                    text@ == "Invalid regex pattern '"@ + pattern@ + "': "@ + said,
            },
    {
        match self {
            ConfigError::InvalidPort(port) => {
                let mut text = "Invalid port number: ".to_string();
                text.append(decimal(*port as u64).as_str());
                text
            },
            ConfigError::InvalidLogLevel(level) => {
                let mut text = "Invalid log level: ".to_string();
                text.append(level.as_str());
                text
            },
            ConfigError::InvalidClipboardSize(size) => {
                let mut text = "Invalid clipboard size: ".to_string();
                text.append(decimal(*size as u64).as_str());
                text
            },
            ConfigError::InvalidRegex(pattern, error) => {
                let mut text = "Invalid regex pattern '".to_string();
                text.append(pattern.as_str());
                text.append("': ");
                let said = regex_error_text(error);
                text.append(said.as_str());
                text
            },
        }
    }
}

impl Default for ReconnectConfig {
    fn default() -> (c: ReconnectConfig)
        ensures
            c.enabled,
            c.initial_delay == 1000,
            c.max_delay == 60_000,
            c.max_attempts is None,
    {
        ReconnectConfig {
            enabled: true,
            initial_delay: 1000,
            max_delay: 60_000,
            max_attempts: None,
        }
    }
}

impl Default for NetworkConfig {
    fn default() -> (c: NetworkConfig)
        ensures
            c.bind_addr == IpAddress::V4(0),
            c.port == DEFAULT_PORT,
            c.peers@.len() == 0,
            c.connection_timeout == 10_000,
            c.reconnect.enabled,
            c.reconnect.initial_delay == 1000,
            c.reconnect.max_delay == 60_000,
            c.reconnect.max_attempts is None,
            c.tls is None,
    {
        NetworkConfig {
            bind_addr: IpAddress::V4(0),
            port: DEFAULT_PORT,
            peers: Vec::new(),
            connection_timeout: 10_000,
            reconnect: ReconnectConfig::default(),
            tls: None,
        }
    }
}

impl Default for ClipboardConfig {
    fn default() -> (c: ClipboardConfig)
        ensures
            c.check_interval == 500,
            c.max_size == 10_485_760,
            c.text_only,
            c.ignore_empty,
            c.ignore_patterns@.len() == 0,
            c.bidirectional,
    {
        ClipboardConfig {
            check_interval: 500,
            max_size: 10_485_760,
            text_only: true,
            ignore_empty: true,
            ignore_patterns: Vec::new(),
            bidirectional: true,
        }
    }
}

impl Default for LoggingConfig {
    fn default() -> (c: LoggingConfig)
        ensures
            c.level@ == "info"@,
            c.file is None,
            c.format == LogFormat::Pretty,
            c.max_size matches Some(s) && s@ == "10MB"@,
            c.max_files == 5,
    {
        LoggingConfig {
            level: "info".to_string(),
            file: None,
            format: LogFormat::Pretty,
            max_size: Some("10MB".to_string()),
            max_files: 5,
        }
    }
}

impl Default for DiscoveryConfig {
    fn default() -> (c: DiscoveryConfig)
        ensures
            c.mdns,
            c.manual,
            c.peers@.len() == 0,
            c.timeout == 2000,
    {
        DiscoveryConfig { mdns: true, manual: true, peers: Vec::new(), timeout: 2000 }
    }
}

impl P2PConfig {
    /// The default settings of a device: named after the host where it
    /// has a name, discovery on, nothing else set.
    pub fn for_host(host: Option<String>) -> (c: P2PConfig)
        ensures
            c.device_name@ == match host {
                Some(name) => name@,
                None => fallback_device_name(),
            },
            c.discovery.mdns,
            c.discovery.manual,
            c.discovery.peers@.len() == 0,
            c.discovery.timeout == 2000,
            c.encryption is None,
            c.allowed_peers@.len() == 0,
            c.blocked_peers@.len() == 0,
            c.group is None,
            c.pair_timeout is None,
            c.psk is None,
    {
        let device_name = match host {
            Some(name) => name,
            None => "cursedboard".to_string(),
        };
        P2PConfig {
            discovery: DiscoveryConfig::default(),
            encryption: None,
            device_name,
            allowed_peers: Vec::new(),
            blocked_peers: Vec::new(),
            group: None,
            pair_timeout: None,
            psk: None,
        }
    }
}

impl Default for P2PConfig {
    fn default() -> (c: P2PConfig)
        ensures
            c.discovery.mdns,
            c.discovery.manual,
            c.discovery.peers@.len() == 0,
            c.discovery.timeout == 2000,
            c.encryption is None,
            c.allowed_peers@.len() == 0,
            c.blocked_peers@.len() == 0,
            c.group is None,
            c.pair_timeout is None,
            c.psk is None,
    {
        P2PConfig::for_host(host_name())
    }
}

impl Default for Config {
    fn default() -> (c: Config)
        ensures
            c.network.bind_addr == IpAddress::V4(0),
            c.network.port == DEFAULT_PORT,
            c.network.peers@.len() == 0,
            c.network.connection_timeout == 10_000,
            c.network.tls is None,
            c.clipboard.check_interval == 500,
            c.clipboard.max_size == 10_485_760,
            c.clipboard.text_only,
            c.clipboard.ignore_empty,
            c.clipboard.ignore_patterns@.len() == 0,
            c.clipboard.bidirectional,
            c.logging.level@ == "info"@,
            c.logging.format == LogFormat::Pretty,
            c.logging.max_files == 5,
            c.platform is None,
            c.p2p is None,
    {
        Config {
            network: NetworkConfig::default(),
            clipboard: ClipboardConfig::default(),
            logging: LoggingConfig::default(),
            platform: None,
            p2p: None,
        }
    }
}

/// Whether a text, already in lower case, names a log level.
pub open spec fn is_log_level(text: Seq<char>) -> bool {
    text == "trace"@ || text == "debug"@ || text == "info"@ || text == "warn"@ || text
        == "error"@
}

/// Whether `text` is one of the five log levels, letter for letter.
pub fn names_log_level(text: &str) -> (b: bool)
    ensures
        b == is_log_level(text@),
{
    let t = text.to_string();
    t == "trace".to_string() || t == "debug".to_string() || t == "info".to_string() || t
        == "warn".to_string() || t == "error".to_string()
}

/// The first fault among port, log level and clipboard size, in that
/// order.
pub open spec fn settings_fault(c: &Config) -> Option<ConfigFault> {
    if c.network.port == 0 {
        Some(ConfigFault::InvalidPort(0))
    } else if !is_log_level(lowercase_text(c.logging.level@)) {
        Some(ConfigFault::InvalidLogLevel(c.logging.level@))
    } else if c.clipboard.max_size == 0 {
        Some(ConfigFault::InvalidClipboardSize(0))
    } else {
        None
    }
}

/// The address of a configured peer: its own port, or else `port`.
pub open spec fn peer_addr(peer: PeerConfig, port: u16) -> SocketAddress {
    SocketAddress {
        ip: peer.host,
        port: match peer.port {
            Some(p) => p,
            None => port,
        },
    }
}

/// Whether a peer with the address `host` is configured.
pub open spec fn has_peer(peers: Seq<PeerConfig>, host: IpAddress) -> bool {
    exists|i: int| 0 <= i < peers.len() && (#[trigger] peers[i]).host == host
}

/// What the outcome of compiling an ignore pattern means for the
/// configuration: a pattern that did not compile is its fault.
pub fn pattern_fault(pattern: &str, outcome: Result<(), regex::Error>) -> (r: Result<
    (),
    ConfigError,
>)
    ensures
        match outcome {
            Ok(_) => r is Ok,
            Err(_) => r matches Err(e) && e@ == ConfigFault::InvalidRegex(pattern@),
        },
{
    match outcome {
        Ok(_) => Ok(()),
        Err(e) => Err(ConfigError::InvalidRegex(pattern.to_string(), e)),
    }
}

impl Config {
    /// Lays settings from the environment over the configuration: a host
    /// becomes a peer unless a peer has its address, a port replaces the
    /// port, a log level replaces the log level.
    pub fn apply_overrides(
        &mut self,
        host: Option<IpAddress>,
        port: Option<u16>,
        level: Option<String>,
    )
        ensures
            final(self).network.peers@ == match host {
                Some(h) => if has_peer(old(self).network.peers@, h) {
                    old(self).network.peers@
                } else {
                    old(self).network.peers@.push(PeerConfig { host: h, port: None, name: None })
                },
                None => old(self).network.peers@,
            },
            final(self).network.port == match port {
                Some(p) => p,
                None => old(self).network.port,
            },
            final(self).logging.level@ == match level {
                Some(l) => l@,
                None => old(self).logging.level@,
            },
            final(self).network.bind_addr == old(self).network.bind_addr,
            final(self).network.connection_timeout == old(self).network.connection_timeout,
            final(self).network.reconnect == old(self).network.reconnect,
            final(self).network.tls == old(self).network.tls,
            final(self).clipboard == old(self).clipboard,
            final(self).logging.file == old(self).logging.file,
            final(self).logging.format == old(self).logging.format,
            final(self).logging.max_size == old(self).logging.max_size,
            final(self).logging.max_files == old(self).logging.max_files,
            final(self).platform == old(self).platform,
            final(self).p2p == old(self).p2p,
    {
        match host {
            Some(h) => {
                let n: usize = self.network.peers.len();
                let mut known = false;
                let mut i: usize = 0;
                while i < n
                    invariant
                        i <= n,
                        n == self.network.peers@.len(),
                        *self == *old(self),
                        known <==> exists|j: int|
                            0 <= j < i && (#[trigger] self.network.peers@[j]).host == h,
                    decreases n - i,
                {
                    if self.network.peers[i].host == h {
                        known = true;
                    }
                    i = i + 1;
                }
                if !known {
                    self.network.peers.push(PeerConfig { host: h, port: None, name: None });
                }
            },
            None => {},
        }
        match port {
            Some(p) => {
                self.network.port = p;
            },
            None => {},
        }
        match level {
            Some(l) => {
                self.logging.level = l;
            },
            None => {},
        }
    }

    /// Port, log level and clipboard size, in that order, given the log
    /// level in lower case.
    pub fn validate_settings(&self, lowered_level: &str) -> (r: Result<(), ConfigError>)
        requires
            lowered_level@ == lowercase_text(self.logging.level@),
        ensures
            match settings_fault(self) {
                Some(f) => r matches Err(e) && e@ == f,
                None => r is Ok,
            },
    {
        if self.network.port == 0 {
            return Err(ConfigError::InvalidPort(0));
        }
        if !names_log_level(lowered_level) {
            return Err(ConfigError::InvalidLogLevel(self.logging.level.clone()));
        }
        if self.clipboard.max_size == 0 {
            return Err(ConfigError::InvalidClipboardSize(0));
        }
        Ok(())
    }

    /// Validates the configuration: first port, log level and clipboard
    /// size, then the ignore patterns one by one, which must compile. The
    /// first pattern that does not compile is the fault.
    pub fn validate(&self) -> (r: Result<(), ConfigError>)
        ensures
            match settings_fault(self) {
                Some(f) => r matches Err(e) && e@ == f,
                None => match r {
                    Ok(_) => true,
                    Err(e) => exists|i: int|
                        0 <= i < self.clipboard.ignore_patterns@.len() && e@
                            == ConfigFault::InvalidRegex(
                            (#[trigger] self.clipboard.ignore_patterns@[i])@,
                        ),
                },
            },
            settings_fault(self) is None && self.clipboard.ignore_patterns@.len() == 0 ==> r is Ok,
    {
        let lowered = lowercase(self.logging.level.as_str());
        match self.validate_settings(lowered.as_str()) {
            Err(e) => {
                return Err(e);
            },
            Ok(_) => {},
        }
        let n: usize = self.clipboard.ignore_patterns.len();
        let mut i: usize = 0;
        while i < n
            invariant
                i <= n,
                n == self.clipboard.ignore_patterns@.len(),
                settings_fault(self) is None,
            decreases n - i,
        {
            let pattern = &self.clipboard.ignore_patterns[i];
            match pattern_fault(pattern.as_str(), compile_pattern(pattern.as_str())) {
                Ok(_) => {},
                Err(fault) => {
                    return Err(fault);
                },
            }
            i = i + 1;
        }
        Ok(())
    }

    /// The address to listen on.
    pub fn bind_addr(&self) -> (addr: SocketAddress)
        ensures
            addr == (SocketAddress { ip: self.network.bind_addr, port: self.network.port }),
    {
        SocketAddress { ip: self.network.bind_addr, port: self.network.port }
    }

    /// The address to listen on.
    pub fn socket_addr(&self) -> (addr: SocketAddress)
        ensures
            addr == (SocketAddress { ip: self.network.bind_addr, port: self.network.port }),
    {
        self.bind_addr()
    }

    /// The addresses of the configured peers, in order.
    pub fn peer_addrs(&self) -> (addrs: Vec<SocketAddress>)
        ensures
            addrs@.len() == self.network.peers@.len(),
            forall|i: int|
                0 <= i < addrs@.len() ==> addrs@[i] == peer_addr(
                    #[trigger] self.network.peers@[i],
                    self.network.port,
                ),
    {
        let n: usize = self.network.peers.len();
        let mut addrs: Vec<SocketAddress> = Vec::new();
        let mut i: usize = 0;
        while i < n
            invariant
                i <= n,
                n == self.network.peers@.len(),
                addrs@.len() == i,
                forall|j: int|
                    0 <= j < i ==> addrs@[j] == peer_addr(
                        #[trigger] self.network.peers@[j],
                        self.network.port,
                    ),
            decreases n - i,
        {
            let peer = &self.network.peers[i];
            let port = match peer.port {
                Some(p) => p,
                None => self.network.port,
            };
            addrs.push(SocketAddress { ip: peer.host, port });
            i = i + 1;
        }
        addrs
    }
}

} // verus!
