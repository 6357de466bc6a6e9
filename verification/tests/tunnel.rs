use std::collections::hash_map::DefaultHasher;
use std::hash::{Hash, Hasher};

use iroh_overlay::addr::{Ipv4Address, SocketAddressV4};
use iroh_overlay::config::IrohOverlayConfig;
use iroh_overlay::runtime::IrohOverlayRuntime;
use iroh_overlay::tunnel::{
    loopback_ip_for_hash, BindOutcome, ListenerTable, TunnelAttempt, TunnelError, TunnelKey,
    TunnelStep, MAX_BIND_ATTEMPTS,
};

const PREFIX: Ipv4Address = Ipv4Address { a: 127, b: 84, c: 0, d: 0 };

fn key(node: &str, ip: &str, port: u16) -> TunnelKey {
    TunnelKey { remote_node: node.to_string(), dst_ip: ip.to_string(), dst_port: port }
}

fn runtime() -> IrohOverlayRuntime {
    IrohOverlayRuntime::start(IrohOverlayConfig::new("node-a".to_string())).0
}

/// The hash that the derived `Hash` of the key and the attempt give.
fn derived_hash(key: &TunnelKey, attempt: u8) -> u64 {
    let mut hasher = DefaultHasher::new();
    key.hash(&mut hasher);
    attempt.hash(&mut hasher);
    hasher.finish()
}

fn attempt_of(step: TunnelStep) -> TunnelAttempt {
    match step {
        TunnelStep::TryBind(attempt) => attempt,
        other => panic!("expected an attempt, got {:?}", other),
    }
}

#[test]
fn octets_come_from_the_lowest_hash_bytes() {
    let ip = |c, d| Ipv4Address { a: 127, b: 84, c, d };
    assert_eq!(loopback_ip_for_hash(PREFIX, 0x1234), ip(0x34, 0x12));
    assert_eq!(loopback_ip_for_hash(PREFIX, 0xffff_ffff_ffff_1234), ip(0x34, 0x12));
    assert_eq!(loopback_ip_for_hash(PREFIX, 0), ip(1, 1));
    assert_eq!(loopback_ip_for_hash(PREFIX, 0xff00), ip(1, 254));
    assert_eq!(loopback_ip_for_hash(PREFIX, 0x00ff), ip(254, 1));
    assert_eq!(loopback_ip_for_hash(PREFIX, 0xfe01), ip(1, 254));
    let other = Ipv4Address { a: 127, b: 9, c: 8, d: 7 };
    assert_eq!(
        loopback_ip_for_hash(other, 0x0203),
        Ipv4Address { a: 127, b: 9, c: 3, d: 2 }
    );
}

#[test]
fn loopback_ips_follow_the_derived_hash() {
    let rt = runtime();
    for k in [
        key("node-b", "10.244.1.7", 8080),
        key("node-b", "10.244.1.7", 8081),
        key("node-b1", "0.244.1.7", 8080),
        key("", "", 1),
        key("n\u{e9}", "fd00::1", 65535),
        key("node-c", "10.0.0.1", 0x1234),
    ] {
        for attempt in [0u8, 1, 2, 63, 255] {
            assert_eq!(
                rt.deterministic_loopback_ip(&k, attempt),
                loopback_ip_for_hash(PREFIX, derived_hash(&k, attempt))
            );
        }
    }
}

#[test]
fn loopback_ips_are_deterministic() {
    let k = key("node-b", "10.244.1.7", 8080);
    assert_eq!(
        runtime().deterministic_loopback_ip(&k, 3),
        runtime().deterministic_loopback_ip(&k.clone(), 3)
    );
}

#[test]
fn unknown_port_is_refused() {
    match runtime().ensure_tcp_tunnel("node-b", "10.0.0.1", 0) {
        TunnelStep::Failed(err) => {
            assert!(matches!(err, TunnelError::UnknownPort));
            assert_eq!(err.message(), "cannot tunnel endpoint with unknown port 0");
        }
        other => panic!("{:?}", other),
    }
}

#[test]
fn first_bound_address_is_kept() {
    let mut rt = runtime();
    let k = key("node-b", "10.0.0.1", 8080);
    let attempt = attempt_of(rt.ensure_tcp_tunnel("node-b", "10.0.0.1", 8080));
    assert_eq!(*attempt.key(), k);
    let first = rt.local_addr(&attempt);
    assert_eq!(first, SocketAddressV4 { ip: rt.deterministic_loopback_ip(&k, 0), port: 8080 });
    let attempt = attempt_of(rt.bind_finished(attempt, BindOutcome::Failed));
    let second = rt.local_addr(&attempt);
    assert_eq!(second, SocketAddressV4 { ip: rt.deterministic_loopback_ip(&k, 1), port: 8080 });
    match rt.bind_finished(attempt, BindOutcome::Bound) {
        TunnelStep::Created(local) => assert_eq!(local, second),
        other => panic!("{:?}", other),
    }
    match rt.ensure_tcp_tunnel("node-b", "10.0.0.1", 8080) {
        TunnelStep::Existing(local) => assert_eq!(local, second),
        other => panic!("{:?}", other),
    }
    attempt_of(rt.ensure_tcp_tunnel("node-b", "10.0.0.1", 8081));
    attempt_of(rt.ensure_tcp_tunnel("node-b", "10.0.0.2", 8080));
    attempt_of(rt.ensure_tcp_tunnel("node-c", "10.0.0.1", 8080));
}

#[test]
fn later_search_gives_way_to_an_earlier_listener() {
    let mut rt = runtime();
    let one = attempt_of(rt.ensure_tcp_tunnel("node-b", "10.0.0.1", 80));
    let two = attempt_of(rt.ensure_tcp_tunnel("node-b", "10.0.0.1", 80));
    let local = rt.local_addr(&one);
    assert!(matches!(rt.bind_finished(one, BindOutcome::Bound), TunnelStep::Created(l) if l == local));
    let two = attempt_of(rt.bind_finished(two, BindOutcome::Failed));
    assert!(matches!(rt.bind_finished(two, BindOutcome::Bound), TunnelStep::Existing(l) if l == local));
}

#[test]
fn search_ends_when_nothing_can_be_bound() {
    let mut rt = runtime();
    let k = key("node-b", "10.0.0.1", 80);
    let mut tried: u8 = 0;
    let mut step = rt.ensure_tcp_tunnel("node-b", "10.0.0.1", 80);
    loop {
        match step {
            TunnelStep::TryBind(attempt) => {
                let local = rt.local_addr(&attempt);
                assert_eq!(local.ip, rt.deterministic_loopback_ip(&k, tried));
                assert_eq!(local.port, 80);
                assert!(1 <= local.ip.c && local.ip.c <= 254);
                assert!(1 <= local.ip.d && local.ip.d <= 254);
                tried += 1;
                step = rt.bind_finished(attempt, BindOutcome::Failed);
            }
            TunnelStep::Failed(err) => {
                assert_eq!(
                    err.message(),
                    "unable to bind deterministic loopback listener for node-b 10.0.0.1:80"
                );
                break;
            }
            other => panic!("{:?}", other),
        }
    }
    assert_eq!(tried, 64);
    assert_eq!(MAX_BIND_ATTEMPTS, 64);
    attempt_of(rt.ensure_tcp_tunnel("node-b", "10.0.0.1", 80));
}

#[test]
fn listener_table_keeps_one_listener_for_each_backend() {
    let mut table = ListenerTable::new();
    let local = |d| SocketAddressV4 { ip: Ipv4Address { a: 127, b: 84, c: 1, d }, port: 80 };
    assert_eq!(table.get(&key("n", "1", 80)), None);
    assert_eq!(table.claim(key("n", "1", 80), local(1)), None);
    assert_eq!(table.claim(key("n", "2", 80), local(2)), None);
    assert_eq!(table.claim(key("n", "1", 80), local(3)), Some(local(1)));
    assert_eq!(table.get(&key("n", "1", 80)), Some(local(1)));
    assert_eq!(table.get(&key("n", "2", 80)), Some(local(2)));
    assert_eq!(table.get(&key("n", "2", 81)), None);
}

#[test]
fn backends_bound_at_distinct_addresses_stay_apart() {
    let mut rt = runtime();
    let mut locals: Vec<SocketAddressV4> = Vec::new();
    for port in 8080u16..8090 {
        let mut step = rt.ensure_tcp_tunnel("node-b", "10.0.0.1", port);
        while let TunnelStep::TryBind(attempt) = step {
            let outcome = if locals.contains(&rt.local_addr(&attempt)) {
                BindOutcome::Failed
            } else {
                BindOutcome::Bound
            };
            step = rt.bind_finished(attempt, outcome);
        }
        match step {
            TunnelStep::Created(local) => {
                assert_eq!(local.port, port);
                assert!(!locals.contains(&local));
                locals.push(local);
            }
            other => panic!("{:?}", other),
        }
    }
    for (i, port) in (8080u16..8090).enumerate() {
        let step = rt.ensure_tcp_tunnel("node-b", "10.0.0.1", port);
        assert!(matches!(step, TunnelStep::Existing(local) if local == locals[i]));
    }
}

#[test]
fn moving_text_between_the_fields_changes_the_hash() {
    let rt = runtime();
    let ips = |k: &TunnelKey| -> Vec<Ipv4Address> {
        (0u8..8).map(|attempt| rt.deterministic_loopback_ip(k, attempt)).collect()
    };
    assert_ne!(ips(&key("node-b", "1", 80)), ips(&key("node-", "b1", 80)));
    assert_ne!(ips(&key("node-b", "1", 80)), ips(&key("node-b", "1", 81)));
}
