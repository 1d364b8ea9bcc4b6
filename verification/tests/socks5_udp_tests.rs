use mini_pipeline_proxy::error::ProxyError;
use mini_pipeline_proxy::net::SocketAddress;
use mini_pipeline_proxy::udp_sessions::{OpenOutcome, SessionRoute, UdpSessionTable};
use mini_pipeline_proxy::socks5::{DatagramDecision, Socks5Inbound};

type Inbound = Socks5Inbound<()>;

fn parse(b: &[u8]) -> Result<(String, u16, usize), ProxyError> {
    Inbound::parse_socks5_udp_packet(b)
}

fn err_text(b: &[u8]) -> String {
    parse(b).unwrap_err().message()
}

#[test]
fn parses_ipv4_request() {
    let b = [0, 0, 0, 1, 10, 0, 0, 7, 0x1f, 0x90, 0xaa, 0xbb];
    assert_eq!(parse(&b).unwrap(), ("10.0.0.7".to_string(), 8080, 10));
}

#[test]
fn parses_domain_request() {
    let mut b = vec![0, 0, 0, 3, 11];
    b.extend_from_slice(b"example.com");
    b.extend_from_slice(&[0x00, 0x35, 1, 2, 3]);
    assert_eq!(parse(&b).unwrap(), ("example.com".to_string(), 53, 18));
}

#[test]
fn parses_ipv6_request() {
    let mut b = vec![0, 0, 0, 4];
    b.extend_from_slice(&[0x20, 0x01, 0x0d, 0xb8, 0, 0, 0, 0, 0, 0, 0, 0, 0, 0, 0, 1]);
    b.extend_from_slice(&[0x01, 0xbb]);
    assert_eq!(parse(&b).unwrap(), ("2001:db8::1".to_string(), 443, 22));
}

#[test]
fn domain_with_malformed_utf8_is_replaced() {
    let b = [0, 0, 0, 3, 2, 0xff, b'a', 0, 80];
    assert_eq!(parse(&b).unwrap(), ("\u{fffd}a".to_string(), 80, 9));
}

#[test]
fn refuses_each_malformed_header() {
    assert_eq!(err_text(&[0, 0, 0]), "udp packet too short");
    assert_eq!(err_text(&[0, 0, 1, 1, 1, 2, 3, 4, 0, 80]), "fragmented packets not supported");
    assert_eq!(err_text(&[0, 0, 0, 1, 1, 2, 3]), "ipv4 short");
    assert_eq!(err_text(&[0, 0, 0, 1, 1, 2, 3, 4, 0]), "missing port");
    assert_eq!(err_text(&[0, 0, 0, 3]), "domain len missing");
    assert_eq!(err_text(&[0, 0, 0, 3, 3, b'a', b'b']), "domain short");
    assert_eq!(err_text(&[0, 0, 0, 3, 1, b'a', 0]), "missing port");
    assert_eq!(err_text(&[0, 0, 0, 4, 0, 0, 0]), "ipv6 short");
    assert_eq!(err_text(&[0, 0, 0, 4, 0, 0, 0, 0, 0, 0, 0, 0, 0, 0, 0, 0, 0, 0, 0, 1, 0]), "missing port");
    assert_eq!(err_text(&[0, 0, 0, 2, 0, 0]), "invalid atyp");
}

#[test]
fn builds_reply_datagram() {
    assert_eq!(Inbound::build_socks5_udp_packet(b"hi"), vec![0, 0, 0, 1, 0, 0, 0, 0, 0, 0, b'h', b'i']);
    assert_eq!(Inbound::build_socks5_udp_packet(b""), vec![0, 0, 0, 1, 0, 0, 0, 0, 0, 0]);
}

#[test]
fn reply_datagram_parses_back() {
    let payload = b"some payload";
    let packet = Inbound::build_socks5_udp_packet(payload);
    let (host, port, start) = parse(&packet).unwrap();
    assert_eq!((host.as_str(), port, start), ("0.0.0.0", 0, 10));
    assert_eq!(&packet[start..], payload);
}

#[test]
fn associate_reply_names_bound_address() {
    let v4 = SocketAddress::V4 { ip: 0x7f000001, port: 40000 };
    assert_eq!(Inbound::udp_associate_reply(&v4), vec![5, 0, 0, 1, 127, 0, 0, 1, 0x9c, 0x40]);
    let v6 = SocketAddress::V6 { ip: 1, port: 53, flowinfo: 0, scope_id: 0 };
    let mut expect = vec![5, 0, 0, 4];
    expect.extend_from_slice(&[0; 15]);
    expect.extend_from_slice(&[1, 0, 53]);
    assert_eq!(Inbound::udp_associate_reply(&v6), expect);
}

#[test]
fn datagrams_from_other_sources_are_ignored() {
    let client = SocketAddress::V4 { ip: 0x0a000001, port: 5000 };
    let other_host = SocketAddress::V4 { ip: 0x0a000002, port: 5000 };
    let other_family = SocketAddress::V6 { ip: 0x0a000001, port: 5000, flowinfo: 0, scope_id: 0 };
    let b = [0, 0, 0, 1, 1, 1, 1, 1, 0, 53];
    assert!(matches!(Inbound::classify_client_datagram(&client, &other_host, &b), DatagramDecision::Ignore));
    assert!(matches!(Inbound::classify_client_datagram(&client, &other_family, &b), DatagramDecision::Ignore));
}

#[test]
fn datagrams_from_client_ip_on_another_port_are_forwarded() {
    let client = SocketAddress::V4 { ip: 0x0a000001, port: 5000 };
    let udp_source = SocketAddress::V4 { ip: 0x0a000001, port: 61000 };
    let b = [0, 0, 0, 1, 8, 8, 4, 4, 0, 53, 7, 7];
    match Inbound::classify_client_datagram(&client, &udp_source, &b) {
        DatagramDecision::Forward { host, port, payload_start, key } => {
            assert_eq!(host, "8.8.4.4");
            assert_eq!(port, 53);
            assert_eq!(payload_start, 10);
            assert_eq!(key, "8.8.4.4:53");
        }
        other => panic!("unexpected {:?}", other),
    }
    let client6 = SocketAddress::V6 { ip: 1, port: 5000, flowinfo: 0, scope_id: 0 };
    let source6 = SocketAddress::V6 { ip: 1, port: 5001, flowinfo: 3, scope_id: 2 };
    assert!(matches!(Inbound::classify_client_datagram(&client6, &source6, &b), DatagramDecision::Forward { .. }));
}

#[test]
fn datagrams_from_client_are_forwarded_or_refused() {
    let client = SocketAddress::V6 { ip: 1, port: 5000, flowinfo: 0, scope_id: 0 };
    let b = [0, 0, 0, 1, 1, 2, 3, 4, 0, 53, 9];
    match Inbound::classify_client_datagram(&client, &client, &b) {
        DatagramDecision::Forward { host, port, payload_start, key } => {
            assert_eq!(host, "1.2.3.4");
            assert_eq!(port, 53);
            assert_eq!(payload_start, 10);
            assert_eq!(key, "1.2.3.4:53");
        }
        other => panic!("unexpected {:?}", other),
    }
    match Inbound::classify_client_datagram(&client, &client, &[0, 0, 1, 1]) {
        DatagramDecision::Malformed(e) => assert_eq!(e.message(), "fragmented packets not supported"),
        other => panic!("unexpected {:?}", other),
    }
}

#[test]
fn udp_sessions_are_reused_until_closed() {
    let mut t = UdpSessionTable::new();
    let a = "1.2.3.4:53".to_string();
    let b = "example.org:80".to_string();
    assert_eq!(t.route(&a), SessionRoute::Open);
    t.opened(a.clone());
    assert_eq!(t.route(&a), SessionRoute::Existing);
    assert_eq!(t.route(&b), SessionRoute::Open);
    t.opened(b.clone());
    t.opened(a.clone());
    t.closed(&a);
    assert_eq!(t.route(&a), SessionRoute::Open);
    assert_eq!(t.route(&b), SessionRoute::Existing);
    t.closed(&a);
    t.closed(&b);
    assert_eq!(t.route(&b), SessionRoute::Open);
}

#[test]
fn udp_session_recorded_only_after_first_send() {
    let mut t = UdpSessionTable::new();
    let a = "1.2.3.4:53".to_string();
    assert!(!t.open_finished(a.clone(), OpenOutcome::ConnectFailed));
    assert_eq!(t.route(&a), SessionRoute::Open);
    assert!(!t.open_finished(a.clone(), OpenOutcome::SendFailed));
    assert_eq!(t.route(&a), SessionRoute::Open);
    assert!(t.open_finished(a.clone(), OpenOutcome::Sent));
    assert_eq!(t.route(&a), SessionRoute::Existing);
}
