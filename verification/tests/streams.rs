use std::time::{SystemTime, UNIX_EPOCH};

use iroh::{EndpointAddr, SecretKey};

use iroh_overlay::addr::{Ipv4Address, SocketAddress, SocketAddressV4};
use iroh_overlay::clock::{unix_now, unix_timestamp};
use iroh_overlay::config::{Interval, IrohOverlayConfig};
use iroh_overlay::forward::{ForwardError, ForwardEvent, ForwardStep};
use iroh_overlay::pace::{
    accept_loop_next, continue_inbound, refresh_loop_next, AcceptEvent, AcceptStep, InboundEvent,
    InboundStep, ListenEvent, ListenStep, LoopEvent, LoopStep, ACCEPT_RETRY_MILLIS,
    PEER_REFRESH_SECS,
};
use iroh_overlay::peers::{IrohNodeAdvertisement, PeerTable};
use iroh_overlay::publish::{PublishEvent, PublishStep};
use iroh_overlay::refresh::{Reading, RefreshEvent, RefreshStep};
use iroh_overlay::relay::{
    relay_action, relay_progress, Direction, RelayAction, RelayError, RelayProgress,
    RELAY_BUFFER_LEN,
};
use iroh_overlay::runtime::IrohOverlayRuntime;
use iroh_overlay::serve::{handle_connection, ServeError, ServeEvent, ServeStep};
use iroh_overlay::tunnel::TunnelKey;
use iroh_overlay::wire::{
    frame_request, request_header, request_length, RequestError, TcpConnectRequest, MAX_REQUEST_LEN,
    RUSTERNETES_IROH_ALPN,
};

fn endpoint(seed: u8) -> EndpointAddr {
    EndpointAddr::new(SecretKey::from_bytes(&[seed; 32]).public())
}

fn ad(node: &str, seed: u8) -> IrohNodeAdvertisement {
    IrohNodeAdvertisement {
        node_name: node.to_string(),
        endpoint_addr: endpoint(seed),
        updated_at_unix: 5,
    }
}

fn runtime() -> IrohOverlayRuntime {
    let mut config = IrohOverlayConfig::new("node-a".to_string());
    config.storage_prefix = "/nodes/".to_string();
    IrohOverlayRuntime::start(config).0
}

fn key() -> TunnelKey {
    TunnelKey {
        remote_node: "node-b".to_string(),
        dst_ip: "10.0.0.1".to_string(),
        dst_port: 8080,
    }
}

fn put(step: PublishStep) -> (String, IrohNodeAdvertisement) {
    match step {
        PublishStep::Put(key, ad) => (key, ad),
        other => panic!("{:?}", other),
    }
}

fn publishing_to(file: Option<&str>) -> IrohOverlayRuntime {
    let mut config = IrohOverlayConfig::new("node-a".to_string());
    config.storage_prefix = "/nodes/".to_string();
    config.local_addr_file = file.map(|path| path.to_string());
    IrohOverlayRuntime::start(config).0
}

fn check_directions(first: Direction, second: Direction, want: RelayProgress) {
    assert_eq!(relay_progress(first, second), want);
}

fn forward_error(step: ForwardStep) -> ForwardError {
    match step {
        ForwardStep::Fail(err) => err,
        other => panic!("{:?}", other),
    }
}

fn serve_error(event: ServeEvent) -> ServeError {
    match handle_connection(event) {
        ServeStep::Fail(err) => err,
        other => panic!("{:?}", other),
    }
}

#[test]
fn endpoint_accepts_the_overlay_protocol_alone() {
    let mut config = IrohOverlayConfig::new("node-a".to_string());
    let (_, settings) = IrohOverlayRuntime::start(config.clone());
    assert_eq!(settings.alpns, vec![b"rusternetes/iroh-overlay/1".to_vec()]);
    assert_eq!(settings.bind_addr, None);
    let ip = Ipv4Address { a: 0, b: 0, c: 0, d: 0 };
    let bind = SocketAddress::V4(SocketAddressV4 { ip, port: 7777 });
    config.bind_addr = Some(bind);
    assert_eq!(IrohOverlayRuntime::start(config).1.bind_addr, Some(bind));
}

#[test]
fn advertisement_keys_lie_under_the_prefix() {
    let rt = runtime();
    assert_eq!(rt.advertisement_key("node-b"), "/nodes/node-b");
    assert_eq!(rt.advertisement_key(""), "/nodes/");
    assert_eq!(rt.config().node_name, "node-a");
}

#[test]
fn node_publishes_itself_under_its_key() {
    let (key, published) = put(runtime().publish_advertisement(endpoint(1), 1700000000));
    assert_eq!(key, "/nodes/node-a");
    assert_eq!(published.node_name, "node-a");
    assert_eq!(published.endpoint_addr, endpoint(1));
    assert_eq!(published.updated_at_unix, 1700000000);
    let copy = published.clone();
    assert_eq!(copy.node_name, "node-a");
    assert_eq!(copy.endpoint_addr, endpoint(1));
    assert_eq!(copy.updated_at_unix, 1700000000);
}

#[test]
fn stored_advertisement_goes_to_the_address_file() {
    let rt = publishing_to(Some("/run/overlay/addr.json"));
    let (_, stored) = put(rt.publish_advertisement(endpoint(1), 7));
    assert!(matches!(
        rt.continue_publish(&stored, PublishEvent::Stored),
        PublishStep::CreateDirectory(path) if path == "/run/overlay/addr.json"
    ));
    match rt.continue_publish(&stored, PublishEvent::DirectoryTried) {
        PublishStep::EncodeFile(written) => {
            assert_eq!(written.node_name, "node-a");
            assert_eq!(written.endpoint_addr, endpoint(1));
            assert_eq!(written.updated_at_unix, 7);
        }
        other => panic!("{:?}", other),
    }
    match rt.continue_publish(&stored, PublishEvent::FileEncoded("{}".to_string())) {
        PublishStep::WriteFile(path, text) => {
            assert_eq!(path, "/run/overlay/addr.json");
            assert_eq!(text, "{}");
        }
        other => panic!("{:?}", other),
    }
    assert!(matches!(rt.continue_publish(&stored, PublishEvent::FileTried), PublishStep::Done));
}

#[test]
fn no_address_file_is_written_where_none_is_configured() {
    let rt = publishing_to(None);
    let (_, stored) = put(rt.publish_advertisement(endpoint(1), 7));
    assert!(matches!(rt.continue_publish(&stored, PublishEvent::Stored), PublishStep::Done));
}

#[test]
fn publication_failures_are_told_apart() {
    let rt = publishing_to(Some("addr.json"));
    let message = |event| match rt.continue_publish(&ad("node-a", 1), event) {
        PublishStep::Fail(err) => err.message(),
        other => panic!("{:?}", other),
    };
    assert_eq!(message(PublishEvent::PutFailed), "storage put failed");
    assert_eq!(message(PublishEvent::EncodingFailed), "serialize local addr");
}

#[test]
fn publishing_is_repeated_after_the_publish_interval() {
    let mut config = IrohOverlayConfig::new("node-a".to_string());
    config.publish_interval = Interval { secs: 7, subsec_nanos: 0 };
    let rt = IrohOverlayRuntime::start(config).0;
    let pause = LoopStep::Sleep(Interval { secs: 7, subsec_nanos: 0 });
    assert_eq!(rt.publish_loop_next(LoopEvent::Started), LoopStep::Run);
    assert_eq!(rt.publish_loop_next(LoopEvent::Succeeded), pause);
    assert_eq!(rt.publish_loop_next(LoopEvent::Failed), pause);
    assert_eq!(rt.publish_loop_next(LoopEvent::Slept), LoopStep::Run);
}

#[test]
fn peers_are_refreshed_every_five_seconds() {
    let pause = LoopStep::Sleep(Interval { secs: 5, subsec_nanos: 0 });
    assert_eq!(refresh_loop_next(LoopEvent::Started), LoopStep::Run);
    assert_eq!(refresh_loop_next(LoopEvent::Succeeded), pause);
    assert_eq!(refresh_loop_next(LoopEvent::Failed), pause);
    assert_eq!(refresh_loop_next(LoopEvent::Slept), LoopStep::Run);
}

#[test]
fn listener_forwards_clients_and_goes_on() {
    let k = key();
    assert!(matches!(k.continue_listen(ListenEvent::Started), ListenStep::Accept));
    match k.continue_listen(ListenEvent::Accepted) {
        ListenStep::Forward(to) => {
            assert_eq!(to.remote_node, "node-b");
            assert_eq!(to.dst_ip, "10.0.0.1");
            assert_eq!(to.dst_port, 8080);
        }
        other => panic!("{:?}", other),
    }
    assert!(matches!(k.continue_listen(ListenEvent::ForwardBegun), ListenStep::Accept));
    assert!(matches!(
        k.continue_listen(ListenEvent::AcceptFailed),
        ListenStep::Sleep(Interval { secs: 0, subsec_nanos: 50_000_000 })
    ));
    assert!(matches!(k.continue_listen(ListenEvent::Slept), ListenStep::Accept));
}

#[test]
fn intervals_of_milliseconds() {
    assert_eq!(Interval::from_millis(0), Interval { secs: 0, subsec_nanos: 0 });
    assert_eq!(Interval::from_millis(2750), Interval { secs: 2, subsec_nanos: 750_000_000 });
    assert_eq!(Interval::from_millis(3000), Interval::from_secs(3));
}

#[test]
fn peer_keys_are_those_of_other_nodes() {
    let listed: Vec<String> = [
        "/nodes/node-c", "/nodes/node-a", "/other/node-b", "/nodes/node-b", "/nodes/node-a2",
        "/nodes/", "/nodes", "/nodes/node-c",
    ]
    .iter()
    .map(|s| s.to_string())
    .collect();
    assert_eq!(
        runtime().peer_keys(&listed),
        vec!["/nodes/node-c", "/nodes/node-b", "/nodes/node-a2", "/nodes/", "/nodes/node-c"]
    );
}

#[test]
fn refresh_replaces_the_peers() {
    let mut rt = runtime();
    assert_eq!(rt.get_peer_addr("node-b"), None);
    rt.refresh_peers(vec![Some(ad("node-b", 2)), None, Some(ad("node-c", 3))]);
    assert_eq!(rt.get_peer_addr("node-b"), Some(endpoint(2)));
    assert_eq!(rt.get_peer_addr("node-c"), Some(endpoint(3)));
    assert_eq!(rt.get_peer_addr("node-d"), None);
    rt.refresh_peers(vec![Some(ad("node-c", 4))]);
    assert_eq!(rt.get_peer_addr("node-b"), None);
    assert_eq!(rt.get_peer_addr("node-c"), Some(endpoint(4)));
    rt.refresh_peers(vec![]);
    assert_eq!(rt.get_peer_addr("node-c"), None);
}

#[test]
fn refresh_goes_through_its_steps() {
    let mut rt = runtime();
    assert!(matches!(
        rt.continue_refresh(RefreshEvent::Started),
        RefreshStep::List(prefix) if prefix == "/nodes/"
    ));
    let listed = vec!["/nodes/node-a".to_string(), "/nodes/node-b".to_string()];
    match rt.continue_refresh(RefreshEvent::Listed(listed)) {
        RefreshStep::Read(keys) => assert_eq!(keys, vec!["/nodes/node-b"]),
        other => panic!("{:?}", other),
    }
    let readings = vec![
        Reading::Unreadable,
        Reading::Advertised(ad("node-b", 2)),
        Reading::Missing,
    ];
    assert!(matches!(rt.continue_refresh(RefreshEvent::Read(readings)), RefreshStep::Done));
    assert_eq!(rt.get_peer_addr("node-b"), Some(endpoint(2)));
    let unreadable = vec![Reading::Unreadable];
    assert!(matches!(rt.continue_refresh(RefreshEvent::Read(unreadable)), RefreshStep::Done));
    assert_eq!(rt.get_peer_addr("node-b"), None);
}

#[test]
fn failed_listing_keeps_the_peers() {
    let mut rt = runtime();
    rt.refresh_peers(vec![Some(ad("node-b", 2))]);
    assert!(matches!(rt.continue_refresh(RefreshEvent::ListFailed), RefreshStep::Fail));
    assert_eq!(rt.get_peer_addr("node-b"), Some(endpoint(2)));
}

#[test]
fn last_advertisement_of_a_node_counts() {
    let peers = PeerTable::from_advertisements(vec![
        Some(ad("node-b", 2)),
        Some(ad("node-b", 3)),
        Some(ad("node-c", 4)),
        None,
    ]);
    assert_eq!(peers.get_peer_addr("node-b"), Some(endpoint(3)));
    assert_eq!(peers.get_peer_addr("node-c"), Some(endpoint(4)));
    assert_eq!(PeerTable::new().get_peer_addr("node-b"), None);
}

#[test]
fn published_advertisement_is_found_by_another_node() {
    let mut config = IrohOverlayConfig::new("node-b".to_string());
    config.storage_prefix = "/nodes/".to_string();
    let other = IrohOverlayRuntime::start(config).0;
    let (stored_key, stored) = put(other.publish_advertisement(endpoint(9), 1));
    let mut rt = runtime();
    let (own_key, _) = put(rt.publish_advertisement(endpoint(1), 1));
    let wanted = rt.peer_keys(&vec![own_key, stored_key.clone()]);
    assert_eq!(wanted, vec![stored_key]);
    rt.refresh_peers(vec![Some(stored)]);
    assert_eq!(rt.get_peer_addr("node-b"), Some(endpoint(9)));
}

#[test]
fn forwarding_goes_through_its_steps() {
    let mut rt = runtime();
    let k = key();
    let err = forward_error(rt.forward_tcp_over_iroh(&k));
    assert_eq!(err.message(), "no iroh peer advertisement for node-b");
    rt.refresh_peers(vec![Some(ad("node-b", 2))]);
    match rt.forward_tcp_over_iroh(&k) {
        ForwardStep::Dial(addr, alpn) => {
            assert_eq!(addr, endpoint(2));
            assert_eq!(&alpn[..], b"rusternetes/iroh-overlay/1");
        }
        other => panic!("{:?}", other),
    }
    assert!(matches!(k.continue_forward(ForwardEvent::Dialed), ForwardStep::OpenStream));
    match k.continue_forward(ForwardEvent::StreamOpened) {
        ForwardStep::EncodeRequest(request) => {
            assert_eq!(request.dst_ip, "10.0.0.1");
            assert_eq!(request.dst_port, 8080);
        }
        other => panic!("{:?}", other),
    }
    let body = b"{\"dst_ip\":\"10.0.0.1\"}".to_vec();
    let frame = match k.continue_forward(ForwardEvent::RequestEncoded(body.clone())) {
        ForwardStep::SendHeader(frame) => frame,
        other => panic!("{:?}", other),
    };
    assert_eq!(frame.header, [0, 0, 0, 21]);
    match k.continue_forward(ForwardEvent::HeaderSent(frame)) {
        ForwardStep::SendBody(frame) => {
            assert_eq!(frame.header, [0, 0, 0, 21]);
            assert_eq!(frame.body, body);
        }
        other => panic!("{:?}", other),
    }
    assert!(matches!(k.continue_forward(ForwardEvent::BodySent), ForwardStep::Relay));
    assert!(matches!(k.continue_forward(ForwardEvent::RelayEnded), ForwardStep::Done));
}

#[test]
fn forwarding_failures_are_told_apart() {
    let k = key();
    let message = |event| forward_error(k.continue_forward(event)).message();
    assert_eq!(message(ForwardEvent::DialFailed), "failed to connect to remote node node-b");
    assert_eq!(message(ForwardEvent::StreamFailed), "failed to open iroh stream");
    assert_eq!(message(ForwardEvent::EncodingFailed), "failed to serialize connect request");
    assert_eq!(message(ForwardEvent::HeaderFailed), "failed to send request length");
    assert_eq!(message(ForwardEvent::BodyFailed), "failed to send request bytes");
    assert_eq!(message(ForwardEvent::RelayFailed(RelayError::TcpRead)), "tcp read failed");
    assert_eq!(message(ForwardEvent::RelayFailed(RelayError::TcpWrite)), "tcp write failed");
    assert_eq!(message(ForwardEvent::RelayFailed(RelayError::IrohRecv)), "iroh recv failed");
    assert_eq!(message(ForwardEvent::RelayFailed(RelayError::IrohSend)), "iroh send failed");
}

#[test]
fn serving_goes_through_its_steps() {
    assert!(matches!(handle_connection(ServeEvent::StreamOpened), ServeStep::ReadHeader));
    assert!(matches!(
        handle_connection(ServeEvent::HeaderRead([0, 0, 0, 36])),
        ServeStep::ReadBody(36)
    ));
    assert!(matches!(
        handle_connection(ServeEvent::BodyRead(b"{}".to_vec())),
        ServeStep::DecodeRequest(body) if body == b"{}"
    ));
    let request = TcpConnectRequest { dst_ip: "10.0.0.1".to_string(), dst_port: 8080 };
    assert!(matches!(
        handle_connection(ServeEvent::RequestDecoded(request)),
        ServeStep::ConnectBackend(dst) if dst == "10.0.0.1:8080"
    ));
    assert!(matches!(handle_connection(ServeEvent::BackendConnected), ServeStep::Relay));
    assert!(matches!(handle_connection(ServeEvent::RelayEnded), ServeStep::AcceptStream));
    assert!(matches!(handle_connection(ServeEvent::NoMoreStreams), ServeStep::Done));
}

#[test]
fn serving_failures_end_the_connection() {
    assert_eq!(serve_error(ServeEvent::HeaderFailed).message(), "failed to read request length");
    assert_eq!(serve_error(ServeEvent::BodyFailed).message(), "failed to read request");
    assert_eq!(serve_error(ServeEvent::DecodingFailed).message(), "invalid request JSON");
    assert_eq!(
        serve_error(ServeEvent::BackendFailed("10.0.0.1:8080".to_string())).message(),
        "failed to connect to backend 10.0.0.1:8080"
    );
    assert_eq!(
        serve_error(ServeEvent::HeaderRead([0, 0, 0, 0])).message(),
        "invalid request length 0"
    );
    assert_eq!(
        serve_error(ServeEvent::HeaderRead([0, 0, 0x20, 1])).message(),
        "invalid request length 8193"
    );
    assert_eq!(
        serve_error(ServeEvent::RelayFailed(RelayError::IrohSend)).message(),
        "iroh send failed"
    );
}

#[test]
fn headers_hold_the_length_most_significant_byte_first() {
    assert_eq!(request_header(0), [0, 0, 0, 0]);
    assert_eq!(request_header(1), [0, 0, 0, 1]);
    assert_eq!(request_header(8192), [0, 0, 0x20, 0]);
    assert_eq!(request_header(0x0102_0304), [1, 2, 3, 4]);
    for len in [0usize, 5, 255, 256, 70000, 0xffff_ffff] {
        assert_eq!(request_header(len), (len as u32).to_be_bytes());
    }
    assert_eq!(request_header(0x1_0000_0005), [0, 0, 0, 5]);
}

#[test]
fn request_lengths_are_bounded() {
    assert_eq!(MAX_REQUEST_LEN, 8 * 1024);
    assert_eq!(request_length([0, 0, 0, 0]), Err(RequestError::InvalidLength(0)));
    assert_eq!(request_length([0, 0, 0, 1]), Ok(1));
    assert_eq!(request_length([0, 0, 0x20, 0]), Ok(8192));
    assert_eq!(request_length([0, 0, 0x20, 1]), Err(RequestError::InvalidLength(8193)));
    assert_eq!(request_length([255; 4]), Err(RequestError::InvalidLength(0xffff_ffff)));
    for len in [1usize, 36, 300, 8191] {
        assert_eq!(request_length(request_header(len)), Ok(len));
    }
}

#[test]
fn destination_joins_address_and_port() {
    let request = TcpConnectRequest { dst_ip: "fd00::1".to_string(), dst_port: 0 };
    assert_eq!(request.clone().destination(), "fd00::1:0");
    let request = TcpConnectRequest { dst_ip: "10.0.0.1".to_string(), dst_port: 65535 };
    assert_eq!(request.destination(), "10.0.0.1:65535");
}

#[test]
fn relay_forwards_what_was_read() {
    let buf = [1u8, 2, 3, 4];
    assert!(matches!(relay_action(&buf, 3), RelayAction::Forward(bytes) if bytes == [1, 2, 3]));
    assert!(matches!(relay_action(&buf, 4), RelayAction::Forward(bytes) if bytes == buf));
    assert!(matches!(relay_action(&buf, 0), RelayAction::Finish));
    assert_eq!(RELAY_BUFFER_LEN, 16 * 1024);
}

#[test]
fn relay_ends_with_both_directions() {
    check_directions(Direction::Running, Direction::Running, RelayProgress::GoOn);
    check_directions(Direction::Ended, Direction::Running, RelayProgress::GoOn);
    check_directions(Direction::Running, Direction::Ended, RelayProgress::GoOn);
    check_directions(Direction::Ended, Direction::Ended, RelayProgress::Ended);
}

#[test]
fn relay_breaks_off_with_either_direction() {
    let (read, recv) = (RelayError::TcpRead, RelayError::IrohRecv);
    for other in [Direction::Running, Direction::Ended] {
        check_directions(Direction::Failed(read), other, RelayProgress::Failed(read));
        check_directions(other, Direction::Failed(recv), RelayProgress::Failed(recv));
    }
    check_directions(Direction::Failed(read), Direction::Failed(recv), RelayProgress::Failed(read));
}

#[test]
fn connections_are_accepted_until_the_endpoint_ends() {
    assert_eq!(accept_loop_next(AcceptEvent::Started), AcceptStep::Accept);
    assert_eq!(accept_loop_next(AcceptEvent::Incoming), AcceptStep::Serve);
    assert_eq!(accept_loop_next(AcceptEvent::ServeBegun), AcceptStep::Accept);
    assert_eq!(accept_loop_next(AcceptEvent::EndpointClosed), AcceptStep::Stop);
}

#[test]
fn connection_is_served_once_it_stands() {
    assert_eq!(continue_inbound(InboundEvent::Begun), InboundStep::Handshake);
    assert_eq!(continue_inbound(InboundEvent::Connected), InboundStep::Serve);
    assert_eq!(continue_inbound(InboundEvent::HandshakeFailed), InboundStep::End);
    assert_eq!(continue_inbound(InboundEvent::Served), InboundStep::End);
    assert_eq!(continue_inbound(InboundEvent::ServeFailed), InboundStep::End);
}

#[test]
fn framed_request_is_its_length_and_its_body() {
    let frame = frame_request(b"abc".to_vec());
    assert_eq!(frame.header, [0, 0, 0, 3]);
    assert_eq!(frame.body, b"abc");
    assert_eq!(request_length(frame.header), Ok(3));
}

#[test]
fn stream_reaches_the_other_end() {
    let copy = |reads: &[&[u8]]| {
        let mut out: Vec<u8> = Vec::new();
        for read in reads {
            match relay_action(read, read.len()) {
                RelayAction::Forward(bytes) => out.extend_from_slice(bytes),
                RelayAction::Finish => break,
            }
        }
        out
    };
    let sent = copy(&[b"hello ", b"wor", b"ld", b""]);
    assert_eq!(copy(&[&sent[..4], &sent[4..5], &sent[5..], b""]), b"hello world");
}

#[test]
fn relayed_stream_ends_at_the_first_empty_read() {
    let reads: [&[u8]; 4] = [b"ab", b"c", b"", b"d"];
    let mut out: Vec<u8> = Vec::new();
    for read in reads {
        match relay_action(read, read.len()) {
            RelayAction::Forward(bytes) => out.extend_from_slice(bytes),
            RelayAction::Finish => break,
        }
    }
    assert_eq!(out, b"abc");
}

#[test]
fn timestamps() {
    assert_eq!(unix_timestamp(None), 0);
    assert_eq!(unix_timestamp(Some(1700000000)), 1700000000);
    assert_eq!(unix_timestamp(Some(i64::MAX as u64)), i64::MAX);
    assert_eq!(unix_timestamp(Some(i64::MAX as u64 + 1)), i64::MIN);
    assert_eq!(unix_timestamp(Some(u64::MAX)), -1);
}

#[test]
fn unix_now_is_the_present_second() {
    let secs = || SystemTime::now().duration_since(UNIX_EPOCH).unwrap().as_secs() as i64;
    let before = secs();
    let now = unix_now();
    let after = secs();
    assert!(before <= now && now <= after);
}

#[test]
fn fixed_values() {
    assert_eq!(&RUSTERNETES_IROH_ALPN[..], b"rusternetes/iroh-overlay/1");
    assert_eq!(PEER_REFRESH_SECS, 5);
    assert_eq!(ACCEPT_RETRY_MILLIS, 50);
}
