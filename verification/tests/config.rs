use cursedboard::cli::Cli;
use cursedboard::clipboard::{
    after_poll, after_write, ChangeDetector, ClipboardEvent, ClipboardInput, ClipboardManager,
    ClipboardProvider,
};
use cursedboard::config::{
    names_log_level, pattern_fault, ClipboardConfig, Config, ConfigError, DiscoveryConfig, LogFormat,
    LoggingConfig, NetworkConfig, P2PConfig, PeerConfig, ReconnectConfig, DEFAULT_PORT,
};
use cursedboard::instance::Instance;
use cursedboard::net::{IpAddress, SocketAddress};
use cursedboard::simple_config_loader::SimpleConfigLoader;

#[test]
fn test_default_config() {
    let config = Config::default();
    assert_eq!(config.network.port, 34254);
    assert_eq!(config.network.bind_addr, IpAddress::V4(0));
    assert_eq!(config.clipboard.check_interval, 500);
}

#[test]
fn test_config_validation() {
    let mut config = Config::default();
    config.network.port = 0;
    assert!(config.validate().is_err());

    config.network.port = 8080;
    config.logging.level = "invalid".to_string();
    assert!(config.validate().is_err());

    config.logging.level = "info".to_string();
    assert!(config.validate().is_ok());
}

#[test]
fn defaults_in_full() {
    let n = NetworkConfig::default();
    assert_eq!(n.port, DEFAULT_PORT);
    assert!(n.peers.is_empty());
    assert_eq!(n.connection_timeout, 10_000);
    assert!(n.tls.is_none());
    let r = ReconnectConfig::default();
    assert!(r.enabled);
    assert_eq!((r.initial_delay, r.max_delay, r.max_attempts), (1000, 60_000, None));
    let c = ClipboardConfig::default();
    assert_eq!(c.max_size, 10 * 1024 * 1024);
    assert!(c.text_only && c.ignore_empty && c.bidirectional);
    assert!(c.ignore_patterns.is_empty());
    let l = LoggingConfig::default();
    assert_eq!(l.level, "info");
    assert_eq!(l.format, LogFormat::Pretty);
    assert_eq!(l.max_size.as_deref(), Some("10MB"));
    assert_eq!(l.max_files, 5);
    assert!(l.file.is_none());
    let d = DiscoveryConfig::default();
    assert!(d.mdns && d.manual);
    assert_eq!(d.timeout, 2000);
    let p = P2PConfig::for_host(None);
    assert_eq!(p.device_name, "cursedboard");
    assert_eq!(P2PConfig::for_host(Some("box".to_string())).device_name, "box");
    assert!(P2PConfig::default().psk.is_none());
    let config = Config::default();
    assert!(config.platform.is_none() && config.p2p.is_none());
}

#[test]
fn validation_errors_in_order() {
    let mut config = Config::default();
    config.network.port = 0;
    config.logging.level = "loud".to_string();
    config.clipboard.max_size = 0;
    assert!(matches!(config.validate(), Err(ConfigError::InvalidPort(0))));
    config.network.port = 1;
    match config.validate() {
        Err(ConfigError::InvalidLogLevel(l)) => assert_eq!(l, "loud"),
        other => panic!("{:?}", other),
    }
    config.logging.level = "WARN".to_string();
    assert!(matches!(config.validate(), Err(ConfigError::InvalidClipboardSize(0))));
    config.clipboard.max_size = 1;
    assert!(config.validate().is_ok());
    config.clipboard.ignore_patterns = vec!["^ok$".to_string(), "foo(bar".to_string()];
    match config.validate() {
        Err(ConfigError::InvalidRegex(p, _)) => assert_eq!(p, "foo(bar"),
        other => panic!("{:?}", other),
    }
    config.clipboard.ignore_patterns = vec!["^ok$".to_string(), "a+b*".to_string()];
    assert!(config.validate().is_ok());
}

#[test]
fn log_levels() {
    for level in ["trace", "debug", "info", "warn", "error"] {
        assert!(names_log_level(level));
    }
    assert!(!names_log_level("INFO"));
    assert!(!names_log_level(""));
    assert!(!names_log_level("verbose"));
    let config = Config::default();
    assert!(config.validate_settings("info").is_ok());
}

#[test]
fn addresses() {
    let mut config = Config::default();
    config.network.bind_addr = IpAddress::V4(0x7f00_0001);
    config.network.port = 9000;
    config.network.peers = vec![
        PeerConfig { host: IpAddress::V4(1), port: None, name: None },
        PeerConfig { host: IpAddress::V6(2), port: Some(77), name: Some("two".to_string()) },
    ];
    let bind = SocketAddress::new(IpAddress::V4(0x7f00_0001), 9000);
    assert_eq!(config.bind_addr(), bind);
    assert_eq!(config.socket_addr(), bind);
    assert_eq!(
        config.peer_addrs(),
        vec![
            SocketAddress::new(IpAddress::V4(1), 9000),
            SocketAddress::new(IpAddress::V6(2), 77),
        ]
    );
    assert!(Config::default().peer_addrs().is_empty());
}

#[test]
fn command_line_defaults() {
    let cli = Cli::default();
    assert!(!cli.no_discovery);
    assert_eq!(cli.port, 34254);
    assert_eq!(cli.effective_log_level(), "info");
    let mut instance = Instance::with_identity(1, None);
    cli.apply_group(&mut instance);
    assert_eq!(instance.group, None);
    let cli = Cli { group: Some("lab".to_string()), log_level: Some("debug".to_string()), ..Cli::default() };
    cli.apply_group(&mut instance);
    assert_eq!(instance.group.as_deref(), Some("lab"));
    assert_eq!(cli.effective_log_level(), "debug");
}

#[test]
fn loader_paths() {
    let loader = SimpleConfigLoader::new();
    assert!(loader.config_paths().is_empty());
    let loader = loader
        .add_config_path("a.toml".to_string(), true)
        .add_config_path("b.toml".to_string(), false)
        .add_config_path("c.toml".to_string(), true);
    assert_eq!(loader.config_paths(), &vec!["a.toml".to_string(), "c.toml".to_string()]);
    let loader = loader.add_default_paths("/home/u/.config/cursedboard/config.toml".to_string(), &vec![true, false, true, true]);
    assert_eq!(
        loader.config_paths(),
        &vec![
            "a.toml".to_string(),
            "c.toml".to_string(),
            "/etc/cursedboard/config.toml".to_string(),
            "cursedboard.toml".to_string(),
            ".cursedboard.toml".to_string(),
        ]
    );
    let only_user = SimpleConfigLoader::default().add_default_paths("u.toml".to_string(), &vec![false, true]);
    assert_eq!(only_user.config_paths(), &vec!["u.toml".to_string()]);
}

#[test]
fn change_detection() {
    let mut d = ChangeDetector::new();
    assert_eq!(d.observe(String::new()), None);
    assert_eq!(d.observe("a".to_string()), Some("a".to_string()));
    assert_eq!(d.observe("a".to_string()), None);
    assert_eq!(d.observe(String::new()), None);
    assert_eq!(d.observe("a".to_string()), None);
    assert_eq!(d.observe("b".to_string()), Some("b".to_string()));
    d.record("remote");
    assert_eq!(d.observe("remote".to_string()), None);
    assert_eq!(d.observe("local".to_string()), Some("local".to_string()));
}

struct Recorder {
    text: String,
    writes: Vec<String>,
    polls: usize,
    detector: ChangeDetector,
    fail_writes: bool,
}

impl ClipboardProvider for Recorder {
    fn get_text(&mut self) -> Result<String, String> {
        Ok(self.text.clone())
    }

    fn set_text(&mut self, text: String) -> Result<(), String> {
        if self.fail_writes {
            return Err("no clipboard".to_string());
        }
        self.detector.record(&text);
        self.text = text.clone();
        self.writes.push(text);
        Ok(())
    }

    fn check_changed(&mut self) -> Option<String> {
        self.polls += 1;
        let current = self.text.clone();
        self.detector.observe(current)
    }
}

fn recorder() -> Recorder {
    Recorder { text: String::new(), writes: vec![], polls: 0, detector: ChangeDetector::new(), fail_writes: false }
}

#[test]
fn remote_text_is_written_exactly_once() {
    let mut manager = ClipboardManager::new(recorder());
    assert_eq!(
        manager.step(ClipboardInput::Remote("hello".to_string())),
        Some(ClipboardEvent::RemoteChange("hello".to_string()))
    );
    assert_eq!(manager.provider().writes, vec!["hello".to_string()]);
    // The written text is no local change.
    assert_eq!(manager.step(ClipboardInput::Tick), None);
    assert_eq!(manager.provider().polls, 1);
    assert_eq!(manager.provider().writes.len(), 1);
}

#[test]
fn manager_turns() {
    let mut provider = recorder();
    provider.text = "typed".to_string();
    let mut manager = ClipboardManager::new(provider);
    assert_eq!(
        manager.step(ClipboardInput::Tick),
        Some(ClipboardEvent::LocalChange("typed".to_string()))
    );
    assert_eq!(manager.step(ClipboardInput::Tick), None);
    assert_eq!(manager.step(ClipboardInput::Closed), Some(ClipboardEvent::Shutdown));

    let mut failing = recorder();
    failing.fail_writes = true;
    let mut manager = ClipboardManager::new(failing);
    assert_eq!(manager.step(ClipboardInput::Remote("x".to_string())), None);

    assert_eq!(after_write("w".to_string(), true), Some(ClipboardEvent::RemoteChange("w".to_string())));
    assert_eq!(after_write("w".to_string(), false), None);
    assert_eq!(after_poll(Some("p".to_string())), Some(ClipboardEvent::LocalChange("p".to_string())));
    assert_eq!(after_poll(None), None);
}

#[test]
fn overrides_from_the_environment() {
    let mut config = Config::default();
    config.apply_overrides(None, None, None);
    assert_eq!(config.network.port, 34254);
    assert!(config.network.peers.is_empty());
    assert_eq!(config.logging.level, "info");

    config.apply_overrides(Some(IpAddress::V4(7)), Some(9000), Some("debug".to_string()));
    assert_eq!(config.network.port, 9000);
    assert_eq!(config.logging.level, "debug");
    assert_eq!(config.peer_addrs(), vec![SocketAddress::new(IpAddress::V4(7), 9000)]);

    // A host that is a peer already is not added again.
    config.apply_overrides(Some(IpAddress::V4(7)), None, None);
    assert_eq!(config.network.peers.len(), 1);
    config.apply_overrides(Some(IpAddress::V4(8)), None, None);
    assert_eq!(config.network.peers.len(), 2);
    assert_eq!(config.network.peers[1].host, IpAddress::V4(8));
    assert_eq!(config.network.peers[1].port, None);
    assert_eq!(config.network.port, 9000);
    assert_eq!(config.clipboard.check_interval, 500);
}

#[test]
fn config_errors_in_words() {
    assert_eq!(ConfigError::InvalidPort(0).to_string(), "Invalid port number: 0");
    assert_eq!(
        ConfigError::InvalidLogLevel("loud".to_string()).to_string(),
        "Invalid log level: loud"
    );
    assert_eq!(
        ConfigError::InvalidClipboardSize(0).to_string(),
        "Invalid clipboard size: 0"
    );
    let mut config = Config::default();
    config.clipboard.ignore_patterns = vec!["foo(bar".to_string()];
    let text = config.validate().unwrap_err().to_string();
    assert!(text.starts_with("Invalid regex pattern 'foo(bar': "));
    assert!(text.len() > "Invalid regex pattern 'foo(bar': ".len());
}

#[test]
fn decimal_texts() {
    use_decimal(0, "0");
    use_decimal(7, "7");
    use_decimal(10, "10");
    use_decimal(34254, "34254");
    use_decimal(u64::MAX, "18446744073709551615");
    assert_eq!(cursedboard::text::concat("ab", "cd"), "abcd");
    assert_eq!(cursedboard::text::concat("", ""), "");
}

fn use_decimal(n: u64, expected: &str) {
    assert_eq!(cursedboard::text::decimal(n), expected);
}

#[test]
fn pattern_faults() {
    assert!(pattern_fault("a+", Ok(())).is_ok());
    let refused = regex::Regex::new("foo(bar").unwrap_err();
    match pattern_fault("foo(bar", Err(refused)) {
        Err(ConfigError::InvalidRegex(p, _)) => assert_eq!(p, "foo(bar"),
        other => panic!("{:?}", other),
    }
    // The first pattern that does not compile is the one named.
    let mut config = Config::default();
    config.clipboard.ignore_patterns =
        vec!["ok".to_string(), "a(".to_string(), "b(".to_string()];
    match config.validate() {
        Err(ConfigError::InvalidRegex(p, _)) => assert_eq!(p, "a("),
        other => panic!("{:?}", other),
    }
}
