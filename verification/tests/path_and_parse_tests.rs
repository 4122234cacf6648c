use validator_config::config::{CliOverrides, Config, PlatformContext};
use validator_config::ip::{parse_ip, parse_ipv4, parse_ipv6, IpAddress};
use validator_config::numeric::{parse_bool_str, parse_u64_str};
use validator_config::strutil::split_on;

fn ctx() -> PlatformContext {
    PlatformContext { home_dir: None }
}

#[test]
fn directories_from_datadir() {
    let mut o = CliOverrides::none();
    o.datadir = Some("/data".to_string());
    let c = Config::from_cli(&o, &ctx()).unwrap().config;
    assert_eq!(c.validator_dir, "/data/validators");
    assert_eq!(c.secrets_dir, "/data/secrets");
}

#[test]
fn explicit_directories_win() {
    let mut o = CliOverrides::none();
    o.datadir = Some("/data".to_string());
    o.validators_dir = Some("/elsewhere/validators".to_string());
    o.secrets_dir = Some("/elsewhere/secrets".to_string());
    let c = Config::from_cli(&o, &ctx()).unwrap().config;
    assert_eq!(c.validator_dir, "/elsewhere/validators");
    assert_eq!(c.secrets_dir, "/elsewhere/secrets");
}

#[test]
fn default_directories_use_home_and_network() {
    let h = PlatformContext {
        home_dir: Some("/home/user".to_string()),
    };
    let c = Config::from_cli(&CliOverrides::none(), &h).unwrap().config;
    assert_eq!(c.validator_dir, "/home/user/.lighthouse/mainnet/validators");
    assert_eq!(c.secrets_dir, "/home/user/.lighthouse/mainnet/secrets");

    let mut o = CliOverrides::none();
    o.network = Some("holesky".to_string());
    let c = Config::from_cli(&o, &h).unwrap().config;
    assert_eq!(c.validator_dir, "/home/user/.lighthouse/holesky/validators");
}

#[test]
fn default_directories_without_home() {
    let c = Config::from_cli(&CliOverrides::none(), &ctx()).unwrap().config;
    assert_eq!(c.validator_dir, "./mainnet/validators");
    assert_eq!(c.secrets_dir, "./mainnet/secrets");
}

#[test]
fn baseline_directories_root_under_home() {
    let h = PlatformContext {
        home_dir: Some("/home/user".to_string()),
    };
    let c = Config::default_with(&h);
    assert_eq!(c.validator_dir, "/home/user/.lighthouse/mainnet/validators");
    assert_eq!(c.secrets_dir, "/home/user/.lighthouse/mainnet/secrets");
    // Without a home the baseline still roots under the hidden client
    // directory, relative to the working directory.
    let c = Config::default_with(&ctx());
    assert_eq!(c.validator_dir, "./.lighthouse/mainnet/validators");
    assert_eq!(c.secrets_dir, "./.lighthouse/mainnet/secrets");
}

#[test]
fn trailing_slash_does_not_double() {
    let mut o = CliOverrides::none();
    o.datadir = Some("/data/".to_string());
    let c = Config::from_cli(&o, &ctx()).unwrap().config;
    assert_eq!(c.validator_dir, "/data/validators");
}

#[test]
fn split_on_matches_str_split() {
    for s in ["", "a", "a,b", ",", "a,,b", "x,y,z,", ",start"] {
        let mine: Vec<&str> = split_on(s, ',');
        let std: Vec<&str> = s.split(',').collect();
        assert_eq!(mine, std, "splitting {:?}", s);
    }
}

#[test]
fn parse_u64_matches_std() {
    for s in [
        "0",
        "1",
        "42",
        "+42",
        "007",
        "18446744073709551615",
        "18446744073709551616",
        "99999999999999999999999999",
        "",
        "+",
        "-1",
        " 1",
        "1 ",
        "1x",
    ] {
        assert_eq!(parse_u64_str(s), s.parse::<u64>().ok(), "parsing {:?}", s);
    }
}

#[test]
fn parse_bool_matches_std() {
    for s in ["true", "false", "True", "TRUE", "1", "", "t"] {
        assert_eq!(parse_bool_str(s), s.parse::<bool>().ok(), "parsing {:?}", s);
    }
}

#[test]
fn ipv4_parsing() {
    assert_eq!(parse_ip("127.0.0.1"), Some(IpAddress::V4(127, 0, 0, 1)));
    assert_eq!(parse_ip("0.0.0.0"), Some(IpAddress::V4(0, 0, 0, 0)));
    assert_eq!(parse_ip("255.255.255.255"), Some(IpAddress::V4(255, 255, 255, 255)));
    for bad in ["256.0.0.1", "1.2.3", "1.2.3.4.5", "01.2.3.4", "1.2.3.04", "", "1..2.3"] {
        assert_eq!(parse_ip(bad), None, "parsing {:?}", bad);
    }
}

#[test]
fn ipv6_parsing_accepts() {
    assert_eq!(parse_ip("::"), Some(IpAddress::V6(0, 0, 0, 0, 0, 0, 0, 0)));
    assert_eq!(parse_ip("::1"), Some(IpAddress::V6(0, 0, 0, 0, 0, 0, 0, 1)));
    assert_eq!(parse_ip("1::"), Some(IpAddress::V6(1, 0, 0, 0, 0, 0, 0, 0)));
    assert_eq!(parse_ip("1::2"), Some(IpAddress::V6(1, 0, 0, 0, 0, 0, 0, 2)));
    assert_eq!(parse_ip("1:2:3:4:5:6:7:8"), Some(IpAddress::V6(1, 2, 3, 4, 5, 6, 7, 8)));
    assert_eq!(parse_ip("1:2:3:4:5:6:7::"), Some(IpAddress::V6(1, 2, 3, 4, 5, 6, 7, 0)));
    assert_eq!(parse_ip("::1:2:3:4:5:6:7"), Some(IpAddress::V6(0, 1, 2, 3, 4, 5, 6, 7)));
    assert_eq!(parse_ip("fe80::1"), Some(IpAddress::V6(0xfe80, 0, 0, 0, 0, 0, 0, 1)));
    assert_eq!(parse_ip("FE80::A:b"), Some(IpAddress::V6(0xfe80, 0, 0, 0, 0, 0, 0xa, 0xb)));
}

#[test]
fn ipv6_parsing_embedded_dotted_quad() {
    assert_eq!(
        parse_ip("::ffff:1.2.3.4"),
        Some(IpAddress::V6(0, 0, 0, 0, 0, 0xffff, 0x0102, 0x0304))
    );
    assert_eq!(
        parse_ip("1:2:3:4:5:6:1.2.3.4"),
        Some(IpAddress::V6(1, 2, 3, 4, 5, 6, 0x0102, 0x0304))
    );
    assert_eq!(
        parse_ip("1::2:1.2.3.4"),
        Some(IpAddress::V6(1, 0, 0, 0, 0, 2, 0x0102, 0x0304))
    );
}

#[test]
fn ipv6_parsing_rejects() {
    for bad in [
        "1:2:3:4:5:6:7:8:9",
        "1:2:3:4:5:6:7:8::",
        "::1:2:3:4:5:6:7:8",
        "1::2::3",
        ":::",
        ":1:2:3:4:5:6:7:8",
        "1:2:3:4:5:6:7:8:",
        "1:2:3:4:5:6:7:1.2.3.4",
        "1.2.3.4::",
        "12345::",
        "1:2:3:4:5:6:a.2.3.4",
        "g::1",
    ] {
        assert_eq!(parse_ip(bad), None, "parsing {:?}", bad);
    }
}

#[test]
fn ip_version_parsers_are_distinct() {
    assert!(parse_ipv4("1.2.3.4").is_some());
    assert!(parse_ipv6("1.2.3.4").is_none());
    assert!(parse_ipv4("::1").is_none());
    assert!(parse_ipv6("::1").is_some());
    assert!(parse_ipv4("1.2.3.400").is_none());
}

#[test]
fn metrics_address_accepts_ipv6() {
    let mut o = CliOverrides::none();
    o.metrics_address = Some("::1".to_string());
    let c = Config::from_cli(&o, &ctx()).unwrap().config;
    assert_eq!(c.http_metrics.listen_addr, IpAddress::V6(0, 0, 0, 0, 0, 0, 0, 1));
}
