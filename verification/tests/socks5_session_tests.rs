use mini_pipeline_proxy::socks5_session::{SessionAction, SessionEvent, SessionPhase, Socks5Session};

/// Feeds the session one event per expected action, checking each answer.
fn drive(events: Vec<SessionEvent>) -> Vec<String> {
    let (mut s, first) = Socks5Session::start();
    let mut out = vec![format!("{:?}", first)];
    for e in events {
        let a = s.step(e);
        out.push(format!("{:?}", a));
    }
    out
}

fn recv(b: &[u8]) -> SessionEvent {
    SessionEvent::Received(b.to_vec())
}

#[test]
fn connect_to_ipv4_destination() {
    let acts = drive(vec![
        recv(&[5, 1]),
        recv(&[0]),
        SessionEvent::Sent,
        recv(&[5, 1, 0, 1]),
        recv(&[93, 184, 216, 34]),
        recv(&[0, 80]),
        SessionEvent::Sent,
    ]);
    assert_eq!(acts, vec![
        "Read(2)",
        "Read(1)",
        "Send([5, 0])",
        "Read(4)",
        "Read(4)",
        "Read(2)",
        "Send([5, 0, 0, 1, 0, 0, 0, 0, 0, 0])",
        "Connect { host: Some(\"93.184.216.34\"), port: Some(80) }",
    ]);
}

#[test]
fn connect_to_domain_destination() {
    let acts = drive(vec![
        recv(&[5, 2]),
        recv(&[0, 2]),
        SessionEvent::Sent,
        recv(&[5, 1, 0, 3]),
        recv(&[11]),
        recv(b"example.com"),
        recv(&[1, 187]),
        SessionEvent::Sent,
    ]);
    assert_eq!(acts[4], "Read(1)");
    assert_eq!(acts[5], "Read(11)");
    assert_eq!(acts[8], "Connect { host: Some(\"example.com\"), port: Some(443) }");
}

#[test]
fn connect_to_ipv6_destination() {
    let mut addr = vec![0u8; 15];
    addr.push(1);
    let acts = drive(vec![
        recv(&[5, 0]),
        recv(&[]),
        SessionEvent::Sent,
        recv(&[5, 1, 0, 4]),
        recv(&addr),
        recv(&[0x1f, 0x90]),
        SessionEvent::Sent,
    ]);
    assert_eq!(acts[1], "Read(0)");
    assert_eq!(acts[4], "Read(16)");
    assert_eq!(acts[7], "Connect { host: Some(\"::1\"), port: Some(8080) }");
}

#[test]
fn wrong_version_is_refused() {
    let (mut s, _) = Socks5Session::start();
    match s.step(recv(&[4, 1])) {
        SessionAction::Fail(e) => assert_eq!(e.message(), "invalid socks version"),
        other => panic!("unexpected {:?}", other),
    }
    assert_eq!(s.phase(), SessionPhase::Finished);
}

#[test]
fn udp_associate_is_handed_over() {
    let acts = drive(vec![
        recv(&[5, 1]),
        recv(&[0]),
        SessionEvent::Sent,
        recv(&[5, 3, 0, 1]),
        recv(&[0, 0, 0, 0]),
        recv(&[0, 0]),
    ]);
    assert_eq!(acts[6], "UdpAssociate");
}

#[test]
fn other_command_is_refused() {
    let acts = drive(vec![
        recv(&[5, 1]),
        recv(&[0]),
        SessionEvent::Sent,
        recv(&[5, 2, 0, 1]),
        recv(&[1, 2, 3, 4]),
        recv(&[0, 80]),
        SessionEvent::Sent,
    ]);
    assert_eq!(acts[6], "Send([5, 7, 0, 1, 0, 0, 0, 0, 0, 0])");
    assert_eq!(acts[7], "Fail(UnsupportedCommand)");
}

#[test]
fn unknown_address_type_has_no_destination() {
    let acts = drive(vec![
        recv(&[5, 1]),
        recv(&[0]),
        SessionEvent::Sent,
        recv(&[5, 1, 0, 9]),
        SessionEvent::Sent,
    ]);
    assert_eq!(acts[4], "Send([5, 0, 0, 1, 0, 0, 0, 0, 0, 0])");
    assert_eq!(acts[5], "Connect { host: None, port: None }");
}

#[test]
fn domain_that_is_not_utf8_stops_the_session() {
    let acts = drive(vec![
        recv(&[5, 1]),
        recv(&[0]),
        SessionEvent::Sent,
        recv(&[5, 1, 0, 3]),
        recv(&[2]),
        recv(&[0xc3, 0x28]),
        recv(&[0, 80]),
    ]);
    assert_eq!(acts[7], "InvalidDomain");
}
