use sfu_kit::config::{parse_u16, ConfigError, SfuConfig};

#[test]
fn default_is_sensible() {
    let cfg = SfuConfig::default();
    assert_eq!(cfg.bind_address, "0.0.0.0");
    assert_eq!(cfg.udp_port, 3478);
    assert_ne!(cfg.udp_port, cfg.metrics_port);
}

#[test]
fn default_has_metrics_port_and_log_level() {
    let cfg = SfuConfig::default();
    assert_eq!(cfg.metrics_port, 9317);
    assert_eq!(cfg.log_level, "info");
}

#[test]
fn unset_environment_gives_defaults() {
    assert_eq!(SfuConfig::from_env_values(None, None, None, None), Ok(SfuConfig::default()));
}

#[test]
fn environment_overrides_each_setting() {
    let cfg = SfuConfig::from_env_values(Some("5000"), Some("+9000"), Some("127.0.0.1"), Some("debug"))
        .unwrap();
    assert_eq!(cfg.udp_port, 5000);
    assert_eq!(cfg.metrics_port, 9000);
    assert_eq!(cfg.bind_address, "127.0.0.1");
    assert_eq!(cfg.log_level, "debug");
}

#[test]
fn non_numeric_ports_are_rejected() {
    assert_eq!(
        SfuConfig::from_env_values(Some("abc"), Some("x"), None, None),
        Err(ConfigError::InvalidUdpPort)
    );
    assert_eq!(
        SfuConfig::from_env_values(Some("1"), Some("70000"), None, None),
        Err(ConfigError::InvalidMetricsPort)
    );
}

#[test]
fn port_parsing_follows_integer_parsing() {
    for s in ["", "+", "-1", " 1", "1 ", "65536", "1_000", "0x10"] {
        assert_eq!(parse_u16(s), None, "{s:?}");
        assert!(s.parse::<u16>().is_err());
    }
    for s in ["0", "+0", "007", "65535", "3478"] {
        assert_eq!(parse_u16(s), s.parse::<u16>().ok(), "{s:?}");
    }
    assert_eq!(parse_u16("00000000000000000001"), Some(1));
    assert_eq!(parse_u16("00000000000000000001"), "00000000000000000001".parse::<u16>().ok());
}
