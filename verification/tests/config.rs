use iroh_overlay::addr::{
    parse_ipv4, Ipv4Address, SocketAddress, SocketAddressV4, SocketAddressV6,
};
use iroh_overlay::config::{
    ConfigError, Interval, IrohOverlayConfig, OverlayEnv, DEFAULT_STORAGE_PREFIX,
};
use iroh_overlay::text::{
    chars_of, decimal_string, ensure_trailing_slash, lowercase_eq, parse_u64, starts_with, str_eq,
};

fn ip(a: u8, b: u8, c: u8, d: u8) -> Ipv4Address {
    Ipv4Address { a, b, c, d }
}

fn env_with(overlay: &str) -> OverlayEnv {
    OverlayEnv {
        overlay: Some(overlay.to_string()),
        bind_addr: None,
        local_prefix: None,
        storage_prefix: None,
        publish_interval_secs: None,
        addr_file: None,
    }
}

fn accepted(env: OverlayEnv) -> IrohOverlayConfig {
    match IrohOverlayConfig::from_env("node-a".to_string(), env) {
        Ok(Some(config)) => config,
        other => panic!("expected a configuration, got {:?}", other),
    }
}

fn refused(env: OverlayEnv) -> ConfigError {
    match IrohOverlayConfig::from_env("node-a".to_string(), env) {
        Err(err) => err,
        other => panic!("expected an error, got {:?}", other),
    }
}

#[test]
fn new_config_has_the_defaults() {
    let config = IrohOverlayConfig::new("node-a".to_string());
    assert_eq!(config.node_name, "node-a");
    assert_eq!(config.bind_addr, None);
    assert_eq!(config.local_loopback_prefix, ip(127, 84, 0, 0));
    assert_eq!(config.storage_prefix, "/registry/rusternetes.io/iroh-overlay/nodes/");
    assert_eq!(config.storage_prefix, DEFAULT_STORAGE_PREFIX);
    assert_eq!(config.publish_interval, Interval { secs: 20, subsec_nanos: 0 });
    assert_eq!(config.local_addr_file, None);
}

#[test]
fn config_clone_is_equal() {
    let mut config = IrohOverlayConfig::new("node-a".to_string());
    config.local_addr_file = Some("/tmp/addr".to_string());
    let copy = config.clone();
    assert_eq!(copy.node_name, "node-a");
    assert_eq!(copy.storage_prefix, config.storage_prefix);
    assert_eq!(copy.local_addr_file, Some("/tmp/addr".to_string()));
}

#[test]
fn overlay_switch_values() {
    for on in ["1", "true", "yes", "on", "TRUE", "Yes", "oN"] {
        let res = IrohOverlayConfig::from_env("n".to_string(), env_with(on));
        assert!(matches!(res, Ok(Some(_))), "{}", on);
    }
    for off in ["", "0", "false", "no", "off", "1 ", " on", "yes!", "tru", "11"] {
        let res = IrohOverlayConfig::from_env("n".to_string(), env_with(off));
        assert!(matches!(res, Ok(None)), "{}", off);
    }
    let mut unset = env_with("1");
    unset.overlay = None;
    unset.local_prefix = Some("nonsense".to_string());
    assert!(matches!(IrohOverlayConfig::from_env("n".to_string(), unset), Ok(None)));
}

#[test]
fn unset_variables_keep_the_defaults() {
    let config = accepted(env_with("1"));
    let default = IrohOverlayConfig::new("node-a".to_string());
    assert_eq!(config.node_name, default.node_name);
    assert_eq!(config.bind_addr, default.bind_addr);
    assert_eq!(config.local_loopback_prefix, default.local_loopback_prefix);
    assert_eq!(config.storage_prefix, default.storage_prefix);
    assert_eq!(config.publish_interval, default.publish_interval);
    assert_eq!(config.local_addr_file, default.local_addr_file);
}

#[test]
fn set_variables_are_taken_over() {
    let mut env = env_with("on");
    let bind = SocketAddress::V4(SocketAddressV4 { ip: ip(0, 0, 0, 0), port: 0 });
    env.bind_addr = Some("0.0.0.0:0".to_string());
    env.local_prefix = Some("127.9.8.7".to_string());
    env.storage_prefix = Some("/nodes".to_string());
    env.publish_interval_secs = Some("+7".to_string());
    env.addr_file = Some("/var/lib/rusternetes/iroh-addr.json".to_string());
    let config = accepted(env);
    assert_eq!(config.bind_addr, Some(bind));
    assert_eq!(config.local_loopback_prefix, ip(127, 9, 8, 7));
    assert_eq!(config.storage_prefix, "/nodes/");
    assert_eq!(config.publish_interval, Interval { secs: 7, subsec_nanos: 0 });
    assert_eq!(config.local_addr_file, Some("/var/lib/rusternetes/iroh-addr.json".to_string()));
}

#[test]
fn ipv6_bind_address_is_taken_over() {
    let mut env = env_with("1");
    let bind = SocketAddress::V6(SocketAddressV6 { ip: 1, port: 9, flowinfo: 0, scope_id: 0 });
    env.bind_addr = Some("[::1]:9".to_string());
    assert_eq!(accepted(env).bind_addr, Some(bind));
}

#[test]
fn bind_address_is_read_part_by_part() {
    let mut env = env_with("1");
    let bind = SocketAddress::V4(SocketAddressV4 { ip: ip(10, 1, 2, 3), port: 4567 });
    env.bind_addr = Some("10.1.2.3:4567".to_string());
    assert_eq!(accepted(env).bind_addr, Some(bind));
    let mut env = env_with("1");
    let bind = SocketAddress::V6(SocketAddressV6 {
        ip: 0xfe80_0000_0000_0000_0001_0002_0003_0004,
        port: 80,
        flowinfo: 0,
        scope_id: 3,
    });
    env.bind_addr = Some("[fe80::1:2:3:4%3]:80".to_string());
    assert_eq!(accepted(env).bind_addr, Some(bind));
    for text in ["", "10.1.2.3", "10.1.2.3:", "10.1.2.3:65536", "::1:9", "localhost:80"] {
        let mut env = env_with("1");
        env.bind_addr = Some(text.to_string());
        assert!(matches!(refused(env), ConfigError::InvalidBindAddr(t) if t == text));
    }
}

#[test]
fn bind_address_is_taken_as_it_was_read() {
    let bind = SocketAddress::V4(SocketAddressV4 { ip: ip(10, 1, 2, 3), port: 4567 });
    let build = |env, bind| IrohOverlayConfig::from_parsed_env("node-a".to_string(), env, bind);
    let mut env = env_with("1");
    env.bind_addr = Some("there".to_string());
    let config = build(env, Some(bind)).unwrap().unwrap();
    assert_eq!(config.bind_addr, Some(bind));
    let mut env = env_with("1");
    env.bind_addr = Some("there".to_string());
    assert!(matches!(build(env, None), Err(ConfigError::InvalidBindAddr(t)) if t == "there"));
    assert_eq!(build(env_with("1"), Some(bind)).unwrap().unwrap().bind_addr, None);
    let mut env = env_with("off");
    env.bind_addr = Some("there".to_string());
    assert!(matches!(build(env, None), Ok(None)));
}

#[test]
fn publish_interval_is_one_second_at_least() {
    let mut env = env_with("1");
    env.publish_interval_secs = Some("0".to_string());
    assert_eq!(accepted(env).publish_interval, Interval { secs: 1, subsec_nanos: 0 });
    let mut env = env_with("1");
    env.publish_interval_secs = Some("1".to_string());
    assert_eq!(accepted(env).publish_interval, Interval::from_secs(1));
}

#[test]
fn invalid_bind_address_is_reported() {
    let mut env = env_with("1");
    env.bind_addr = Some("here".to_string());
    let err = refused(env);
    assert!(matches!(&err, ConfigError::InvalidBindAddr(text) if text == "here"));
    assert_eq!(err.message(), "invalid RUSTERNETES_IROH_BIND_ADDR=here");
}

#[test]
fn invalid_local_prefix_is_reported() {
    let mut env = env_with("1");
    env.local_prefix = Some("127.84".to_string());
    let err = refused(env);
    assert!(matches!(&err, ConfigError::InvalidLocalPrefix(text) if text == "127.84"));
    assert_eq!(err.message(), "invalid RUSTERNETES_IROH_LOCAL_PREFIX=127.84");
}

#[test]
fn prefix_outside_loopback_is_reported() {
    let mut env = env_with("1");
    env.local_prefix = Some("10.0.0.0".to_string());
    let err = refused(env);
    assert!(matches!(err, ConfigError::PrefixNotLoopback(x) if x == ip(10, 0, 0, 0)));
    assert_eq!(
        err.message(),
        "RUSTERNETES_IROH_LOCAL_PREFIX must be in 127.0.0.0/8, got 10.0.0.0"
    );
}

#[test]
fn invalid_publish_interval_is_reported() {
    let mut env = env_with("1");
    env.publish_interval_secs = Some("20s".to_string());
    let err = refused(env);
    assert!(matches!(&err, ConfigError::InvalidPublishInterval(text) if text == "20s"));
    assert_eq!(err.message(), "invalid RUSTERNETES_IROH_PUBLISH_INTERVAL_SECS=20s");
}

#[test]
fn errors_are_reported_in_order() {
    let all_wrong = || {
        let mut env = env_with("1");
        env.bind_addr = Some("x".to_string());
        env.local_prefix = Some("y".to_string());
        env.publish_interval_secs = Some("z".to_string());
        env
    };
    assert!(matches!(refused(all_wrong()), ConfigError::InvalidBindAddr(_)));
    let mut env = all_wrong();
    env.bind_addr = None;
    assert!(matches!(refused(env), ConfigError::InvalidLocalPrefix(_)));
    let mut env = all_wrong();
    env.bind_addr = None;
    env.local_prefix = None;
    assert!(matches!(refused(env), ConfigError::InvalidPublishInterval(_)));
}

#[test]
fn ipv4_texts() {
    for (text, want) in [
        ("127.84.0.0", ip(127, 84, 0, 0)),
        ("0.0.0.0", ip(0, 0, 0, 0)),
        ("255.255.255.255", ip(255, 255, 255, 255)),
        ("1.20.103.9", ip(1, 20, 103, 9)),
    ] {
        assert_eq!(parse_ipv4(text), Some(want));
        assert_eq!(want.to_text(), text);
    }
    for text in [
        "", ".", "1", "1.2.3", "1.2.3.", "1.2.3.4.", "1.2.3.4.5", ".1.2.3", "1..2.3", "256.0.0.1",
        "1.2.3.256", "01.2.3.4", "1.2.3.00", "1.2.3.4 ", " 1.2.3.4", "+1.2.3.4", "1,2.3.4",
        "1.2.3.a", "1000.1.1.1", "0x7f.0.0.1", "1.2.3.4:80", "::1",
    ] {
        assert_eq!(parse_ipv4(text), None, "{}", text);
    }
    assert!(ip(127, 1, 2, 3).is_loopback());
    assert!(!ip(128, 1, 2, 3).is_loopback());
}

#[test]
fn numbers_read_as_the_standard_library_reads_them() {
    for text in [
        "0", "1", "20", "007", "+7", "18446744073709551615", "18446744073709551616",
        "+18446744073709551615", "99999999999999999999", "184467440737095516150", "", "+", "-",
        "-1", "++1", "1+", " 1", "1 ", "1_000", "0x10", "1.0", "\u{0661}", "a",
    ] {
        assert_eq!(parse_u64(text), text.parse::<u64>().ok(), "{}", text);
    }
    for n in [0u64, 9, 10, 99, 100, 8193, 65535, u64::MAX] {
        assert_eq!(decimal_string(n), n.to_string());
        assert_eq!(parse_u64(&decimal_string(n)), Some(n));
    }
}

#[test]
fn trailing_slash_is_ensured() {
    assert_eq!(ensure_trailing_slash("/nodes".to_string()), "/nodes/");
    assert_eq!(ensure_trailing_slash("/nodes/".to_string()), "/nodes/");
    assert_eq!(ensure_trailing_slash("".to_string()), "/");
    assert_eq!(ensure_trailing_slash("n\u{e9}".to_string()), "n\u{e9}/");
    let once = ensure_trailing_slash("a".to_string());
    assert_eq!(ensure_trailing_slash(once.clone()), once);
}

#[test]
fn text_comparisons() {
    assert_eq!(chars_of("a\u{e9}/"), vec!['a', '\u{e9}', '/']);
    assert!(starts_with("/nodes/a", "/nodes/"));
    assert!(starts_with("x", ""));
    assert!(!starts_with("/node", "/nodes/"));
    assert!(!starts_with("/modes/a", "/nodes/"));
    assert!(str_eq("ab", "ab"));
    assert!(!str_eq("ab", "aB"));
    assert!(lowercase_eq("YeS", "yes"));
    assert!(!lowercase_eq("YES", "YES"));
    assert!(!lowercase_eq("\u{c9}", "\u{e9}"));
}
