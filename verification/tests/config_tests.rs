use validator_config::config::{CliOverrides, Config, ConfigError, PlatformContext, Warning};

fn ctx() -> PlatformContext {
    PlatformContext { home_dir: None }
}

fn home_ctx(h: &str) -> PlatformContext {
    PlatformContext {
        home_dir: Some(h.to_string()),
    }
}

#[test]
// Ensures the default config does not panic.
fn default_config() {
    Config::default();
}

#[test]
fn default_endpoint_without_overrides() {
    let r = Config::from_cli(&CliOverrides::none(), &ctx()).unwrap();
    assert_eq!(r.config.beacon_nodes, vec!["http://localhost:5052/".to_string()]);
    assert!(r.config.proposer_nodes.is_empty());
    assert!(r.warnings.is_empty());
}

#[test]
fn default_fields_match_baseline() {
    let r = Config::from_cli(&CliOverrides::none(), &ctx()).unwrap();
    let c = r.config;
    assert_eq!(c.validator_registration_batch_size, 500);
    assert!(c.enable_latency_measurement_service);
    assert!(!c.http_api.enabled);
    assert_eq!(c.http_api.listen_port, 5062);
    assert_eq!(c.http_metrics.listen_port, 5064);
    assert!(c.http_metrics.allocator_metrics_enabled);
    assert!(c.graffiti.is_none());
    assert!(c.fee_recipient.is_none());
    assert!(c.monitoring_api.is_none());
    assert!(!c.allow_unsynced_beacon_node);
}

#[test]
fn resolution_is_deterministic() {
    let mut o = CliOverrides::none();
    o.beacon_nodes = Some("http://example.com,http://other.example:8080/x".to_string());
    o.graffiti = Some("hello".to_string());
    o.http_port = Some("9000".to_string());
    let a = Config::from_cli(&o, &home_ctx("/home/u")).unwrap();
    let b = Config::from_cli(&o, &home_ctx("/home/u")).unwrap();
    assert_eq!(a.config.beacon_nodes, b.config.beacon_nodes);
    assert_eq!(a.config.validator_dir, b.config.validator_dir);
    assert_eq!(
        a.config.graffiti.as_ref().unwrap().bytes,
        b.config.graffiti.as_ref().unwrap().bytes
    );
    assert_eq!(a.warnings, b.warnings);
}

#[test]
fn multi_endpoint_flag_takes_precedence() {
    let mut o = CliOverrides::none();
    o.beacon_nodes = Some("http://one:1/,http://two:2/".to_string());
    o.beacon_node = Some("http://deprecated:9/".to_string());
    o.server = Some("http://older:9/".to_string());
    let r = Config::from_cli(&o, &ctx()).unwrap();
    assert_eq!(
        r.config.beacon_nodes,
        vec!["http://one:1/".to_string(), "http://two:2/".to_string()]
    );
    // The superseded aliases do not even warn when the current flag wins.
    assert!(r.warnings.is_empty());
}

#[test]
fn deprecated_beacon_node_flag_warns_once_and_applies() {
    let mut o = CliOverrides::none();
    o.beacon_node = Some("http://deprecated:9/".to_string());
    let r = Config::from_cli(&o, &ctx()).unwrap();
    assert_eq!(r.config.beacon_nodes, vec!["http://deprecated:9/".to_string()]);
    assert_eq!(r.warnings, vec![Warning::DeprecatedBeaconNodeFlag]);
}

#[test]
fn deprecated_server_flag_warns_once_and_applies() {
    let mut o = CliOverrides::none();
    o.server = Some("http://older:9/".to_string());
    let r = Config::from_cli(&o, &ctx()).unwrap();
    assert_eq!(r.config.beacon_nodes, vec!["http://older:9/".to_string()]);
    assert_eq!(r.warnings, vec![Warning::DeprecatedServerFlag]);
}

#[test]
fn inert_deprecated_flags_warn_once_each() {
    let mut o = CliOverrides::none();
    o.delete_lockfiles = true;
    o.allow_unsynced = true;
    o.strict_fee_recipient = true;
    let r = Config::from_cli(&o, &ctx()).unwrap();
    assert_eq!(
        r.warnings,
        vec![
            Warning::DeprecatedDeleteLockfiles,
            Warning::DeprecatedAllowUnsynced,
            Warning::DeprecatedStrictFeeRecipient,
        ]
    );
    // The inert flags change nothing in the configuration.
    let base = Config::from_cli(&CliOverrides::none(), &ctx()).unwrap();
    assert_eq!(r.config.beacon_nodes, base.config.beacon_nodes);
    assert_eq!(r.config.fee_recipient.is_none(), base.config.fee_recipient.is_none());
}

#[test]
fn url_normalization_reaches_the_result() {
    // `url` serializes an authority-only URL with a trailing slash; a
    // wrapper handing its argument back unchanged would fail this.
    let mut o = CliOverrides::none();
    o.beacon_nodes = Some("http://example.com".to_string());
    let r = Config::from_cli(&o, &ctx()).unwrap();
    assert_eq!(r.config.beacon_nodes, vec!["http://example.com/".to_string()]);
}

#[test]
fn malformed_beacon_node_url_is_fatal() {
    let mut o = CliOverrides::none();
    o.beacon_nodes = Some("http://ok:1/,not a url".to_string());
    let e = Config::from_cli(&o, &ctx()).unwrap_err();
    assert!(matches!(e, ConfigError::InvalidBeaconNodeUrl(_)));
}

#[test]
fn relative_url_is_rejected() {
    let mut o = CliOverrides::none();
    o.beacon_node = Some("localhost/path".to_string());
    let e = Config::from_cli(&o, &ctx()).unwrap_err();
    assert!(matches!(e, ConfigError::InvalidBeaconNodeUrl(_)));
}

#[test]
fn proposer_nodes_parse_and_default_empty() {
    let mut o = CliOverrides::none();
    o.proposer_nodes = Some("http://p1:1/,http://p2:2/".to_string());
    let r = Config::from_cli(&o, &ctx()).unwrap();
    assert_eq!(
        r.config.proposer_nodes,
        vec!["http://p1:1/".to_string(), "http://p2:2/".to_string()]
    );
    let mut bad = CliOverrides::none();
    bad.proposer_nodes = Some("nope".to_string());
    assert!(matches!(
        Config::from_cli(&bad, &ctx()).unwrap_err(),
        ConfigError::InvalidProposerNodeUrl(_)
    ));
}

#[test]
fn graffiti_of_32_bytes_succeeds() {
    let mut o = CliOverrides::none();
    o.graffiti = Some("a".repeat(32));
    let r = Config::from_cli(&o, &ctx()).unwrap();
    let g = r.config.graffiti.unwrap();
    assert_eq!(g.bytes.len(), 32);
    assert!(g.bytes.iter().all(|b| *b == b'a'));
}

#[test]
fn graffiti_of_33_bytes_fails() {
    let mut o = CliOverrides::none();
    o.graffiti = Some("a".repeat(33));
    assert!(matches!(
        Config::from_cli(&o, &ctx()).unwrap_err(),
        ConfigError::GraffitiTooLong
    ));
}

#[test]
fn graffiti_is_zero_padded() {
    let mut o = CliOverrides::none();
    o.graffiti = Some("hello".to_string());
    let r = Config::from_cli(&o, &ctx()).unwrap();
    let g = r.config.graffiti.unwrap();
    assert_eq!(&g.bytes[..5], b"hello");
    assert!(g.bytes[5..].iter().all(|b| *b == 0));
}

#[test]
fn listen_address_needs_transport_ack() {
    let mut o = CliOverrides::none();
    o.http_address = Some("0.0.0.0".to_string());
    assert!(matches!(
        Config::from_cli(&o, &ctx()).unwrap_err(),
        ConfigError::HttpAddressRequiresAck
    ));
    o.unencrypted_http_transport = true;
    let r = Config::from_cli(&o, &ctx()).unwrap();
    assert_eq!(
        r.config.http_api.listen_addr,
        validator_config::ip::IpAddress::V4(0, 0, 0, 0)
    );
}

#[test]
fn malformed_listen_address_is_fatal() {
    let mut o = CliOverrides::none();
    o.http_address = Some("999.0.0.1".to_string());
    o.unencrypted_http_transport = true;
    assert!(matches!(
        Config::from_cli(&o, &ctx()).unwrap_err(),
        ConfigError::InvalidHttpAddress(_)
    ));
}

#[test]
fn batch_size_zero_fails_one_succeeds_default_500() {
    let mut o = CliOverrides::none();
    o.validator_registration_batch_size = Some("0".to_string());
    assert!(matches!(
        Config::from_cli(&o, &ctx()).unwrap_err(),
        ConfigError::BatchSizeZero
    ));
    o.validator_registration_batch_size = Some("1".to_string());
    assert_eq!(
        Config::from_cli(&o, &ctx()).unwrap().config.validator_registration_batch_size,
        1
    );
    o.validator_registration_batch_size = None;
    assert_eq!(
        Config::from_cli(&o, &ctx()).unwrap().config.validator_registration_batch_size,
        500
    );
}

#[test]
fn batch_size_must_be_numeric() {
    let mut o = CliOverrides::none();
    o.validator_registration_batch_size = Some("many".to_string());
    assert!(matches!(
        Config::from_cli(&o, &ctx()).unwrap_err(),
        ConfigError::InvalidBatchSize(_)
    ));
}

#[test]
fn allow_origin_control_character_fails_at_resolution() {
    let mut o = CliOverrides::none();
    o.http_allow_origin = Some("bad\nvalue".to_string());
    assert!(matches!(
        Config::from_cli(&o, &ctx()).unwrap_err(),
        ConfigError::InvalidHttpAllowOrigin(_)
    ));
    let mut m = CliOverrides::none();
    m.metrics_allow_origin = Some("bad\u{7f}".to_string());
    assert!(matches!(
        Config::from_cli(&m, &ctx()).unwrap_err(),
        ConfigError::InvalidMetricsAllowOrigin(_)
    ));
}

#[test]
fn allow_origin_accepted_when_clean() {
    let mut o = CliOverrides::none();
    o.http_allow_origin = Some("http://example.com".to_string());
    o.metrics_allow_origin = Some("*".to_string());
    let r = Config::from_cli(&o, &ctx()).unwrap();
    assert_eq!(r.config.http_api.allow_origin.as_deref(), Some("http://example.com"));
    assert_eq!(r.config.http_metrics.allow_origin.as_deref(), Some("*"));
}

#[test]
fn ports_parse_and_reject() {
    let mut o = CliOverrides::none();
    o.http_port = Some("8080".to_string());
    o.metrics_port = Some("6060".to_string());
    let r = Config::from_cli(&o, &ctx()).unwrap();
    assert_eq!(r.config.http_api.listen_port, 8080);
    assert_eq!(r.config.http_metrics.listen_port, 6060);
    let mut big = CliOverrides::none();
    big.http_port = Some("99999".to_string());
    assert!(matches!(
        Config::from_cli(&big, &ctx()).unwrap_err(),
        ConfigError::InvalidHttpPort(_)
    ));
    let mut bad = CliOverrides::none();
    bad.metrics_port = Some("p".to_string());
    assert!(matches!(
        Config::from_cli(&bad, &ctx()).unwrap_err(),
        ConfigError::InvalidMetricsPort(_)
    ));
}

#[test]
fn fee_recipient_parses_hex() {
    let mut o = CliOverrides::none();
    o.suggested_fee_recipient = Some("0x00000000000000000000000000000000000000A1".to_string());
    let r = Config::from_cli(&o, &ctx()).unwrap();
    let a = r.config.fee_recipient.unwrap();
    assert_eq!(a.bytes.len(), 20);
    assert_eq!(a.bytes[19], 0xa1);
    assert!(a.bytes[..19].iter().all(|b| *b == 0));
}

#[test]
fn fee_recipient_rejects_bad_input() {
    for bad in ["0x1234", "hello", "0xzz000000000000000000000000000000000000zz"] {
        let mut o = CliOverrides::none();
        o.suggested_fee_recipient = Some(bad.to_string());
        assert!(matches!(
            Config::from_cli(&o, &ctx()).unwrap_err(),
            ConfigError::InvalidFeeRecipient(_)
        ));
    }
}

#[test]
fn monitoring_config_present_only_with_endpoint() {
    let mut o = CliOverrides::none();
    o.monitoring_endpoint = Some("http://monitor.example/api".to_string());
    o.monitoring_endpoint_period = Some("60".to_string());
    let r = Config::from_cli(&o, &ctx()).unwrap();
    let m = r.config.monitoring_api.unwrap();
    assert_eq!(m.monitoring_endpoint, "http://monitor.example/api");
    assert_eq!(m.update_period_secs, Some(60));

    // Without an endpoint the period is never examined.
    let mut p = CliOverrides::none();
    p.monitoring_endpoint_period = Some("not a number".to_string());
    assert!(Config::from_cli(&p, &ctx()).unwrap().config.monitoring_api.is_none());

    let mut bad = CliOverrides::none();
    bad.monitoring_endpoint = Some("http://monitor.example/api".to_string());
    bad.monitoring_endpoint_period = Some("not a number".to_string());
    assert!(matches!(
        Config::from_cli(&bad, &ctx()).unwrap_err(),
        ConfigError::InvalidMonitoringPeriod(_)
    ));
}

#[test]
fn numeric_extras_parse() {
    let mut o = CliOverrides::none();
    o.gas_limit = Some("30000000".to_string());
    o.builder_registration_timestamp_override = Some("+1700000000".to_string());
    o.block_delay_ms = Some("250".to_string());
    let r = Config::from_cli(&o, &ctx()).unwrap();
    assert_eq!(r.config.gas_limit, Some(30000000));
    assert_eq!(r.config.builder_registration_timestamp_override, Some(1700000000));
    assert_eq!(r.config.block_delay_millis, Some(250));
}

#[test]
fn numeric_extras_reject() {
    let mut o = CliOverrides::none();
    o.gas_limit = Some("a lot".to_string());
    assert!(matches!(
        Config::from_cli(&o, &ctx()).unwrap_err(),
        ConfigError::InvalidGasLimit(_)
    ));
    let mut t = CliOverrides::none();
    t.builder_registration_timestamp_override = Some("18446744073709551616".to_string());
    assert!(matches!(
        Config::from_cli(&t, &ctx()).unwrap_err(),
        ConfigError::InvalidRegistrationTimestamp(_)
    ));
    let mut d = CliOverrides::none();
    d.block_delay_ms = Some("soon".to_string());
    assert!(matches!(
        Config::from_cli(&d, &ctx()).unwrap_err(),
        ConfigError::InvalidBlockDelay(_)
    ));
}

#[test]
fn latency_toggle_parses_booleans() {
    let mut o = CliOverrides::none();
    o.latency_measurement_service = Some("false".to_string());
    assert!(!Config::from_cli(&o, &ctx()).unwrap().config.enable_latency_measurement_service);
    o.latency_measurement_service = Some("true".to_string());
    assert!(Config::from_cli(&o, &ctx()).unwrap().config.enable_latency_measurement_service);
    o.latency_measurement_service = Some("yes".to_string());
    assert!(matches!(
        Config::from_cli(&o, &ctx()).unwrap_err(),
        ConfigError::InvalidLatencyToggle(_)
    ));
}

#[test]
fn tls_certificates_split_on_commas() {
    let mut o = CliOverrides::none();
    o.beacon_nodes_tls_certs = Some("/certs/a.pem,/certs/b.pem".to_string());
    let r = Config::from_cli(&o, &ctx()).unwrap();
    assert_eq!(
        r.config.beacon_nodes_tls_certs,
        Some(vec!["/certs/a.pem".to_string(), "/certs/b.pem".to_string()])
    );
}

#[test]
fn behavior_flags_carry_over() {
    let mut o = CliOverrides::none();
    o.disable_auto_discover = true;
    o.init_slashing_protection = true;
    o.use_long_timeouts = true;
    o.disable_run_on_all = true;
    o.enable_doppelganger_protection = true;
    o.enable_high_validator_count_metrics = true;
    o.builder_proposals = true;
    o.http = true;
    o.metrics = true;
    o.disable_malloc_tuning = true;
    o.graffiti_file = Some("/tmp/graffiti.txt".to_string());
    let c = Config::from_cli(&o, &ctx()).unwrap().config;
    assert!(c.disable_auto_discover);
    assert!(c.init_slashing_protection);
    assert!(c.use_long_timeouts);
    assert!(c.disable_run_on_all);
    assert!(c.enable_doppelganger_protection);
    assert!(c.enable_high_validator_count_metrics);
    assert!(c.builder_proposals);
    assert!(c.http_api.enabled);
    assert!(c.http_metrics.enabled);
    assert!(!c.http_metrics.allocator_metrics_enabled);
    assert_eq!(c.graffiti_file.as_deref(), Some("/tmp/graffiti.txt"));
}
