use mini_pipeline_proxy::config::ShadowsocksConfig;
use mini_pipeline_proxy::context::ConnectionContext;
use mini_pipeline_proxy::net::SocketAddress;
use mini_pipeline_proxy::server::Server;
use mini_pipeline_proxy::ss_outbound::ShadowsocksOutbound;
use mini_pipeline_proxy::tls::{TlsOutbound, TrustAnchorParts, WEBPKI_SERVER_ROOT_COUNT};
use shadowsocks::config::ServerAddr;
use shadowsocks::crypto::CipherKind;

fn ss(method: &str) -> ShadowsocksOutbound {
    ShadowsocksOutbound::new(ShadowsocksConfig {
        server_addr: "ss.example.org".to_string(),
        server_port: 8388,
        password: "secret".to_string(),
        method: method.to_string(),
    })
    .unwrap()
}

#[test]
fn shadowsocks_outbound_keeps_its_settings() {
    let o = ss("aes-256-gcm");
    assert_eq!(o.settings().server_addr, "ss.example.org");
    assert_eq!(o.settings().server_port, 8388);
}

#[test]
fn server_config_for_known_cipher() {
    let o = ss("chacha20-ietf-poly1305");
    let svr = o.build_server_config(ServerAddr::DomainName("ss.example.org".to_string(), 8388)).unwrap();
    assert_eq!(svr.password(), "secret");
    assert_eq!(svr.cipher(), CipherKind::CHACHA20_POLY1305);
    let cfg = svr.server_config();
    assert_eq!(cfg.password(), "secret");
    assert_eq!(cfg.method(), CipherKind::CHACHA20_POLY1305);
    assert_eq!(cfg.addr().port(), 8388);
}

#[test]
fn server_config_for_cipher_names_in_any_case() {
    for (name, kind) in [
        ("PLAIN", CipherKind::NONE),
        ("none", CipherKind::NONE),
        ("AES-128-GCM", CipherKind::AES_128_GCM),
        ("Aes-256-Gcm", CipherKind::AES_256_GCM),
    ] {
        let svr = ss(name).build_server_config(ServerAddr::DomainName("h".to_string(), 1)).unwrap();
        assert_eq!(svr.cipher(), kind);
        assert_eq!(svr.server_config().method(), kind);
        assert_eq!(svr.password(), "secret");
    }
    assert!(ss("aes-128-ctr").build_server_config(ServerAddr::DomainName("h".to_string(), 1)).is_err());
    assert!(ss("").build_server_config(ServerAddr::DomainName("h".to_string(), 1)).is_err());
}

#[test]
fn server_config_refuses_unknown_cipher() {
    let o = ss("rot13");
    let e = o.build_server_config(ServerAddr::DomainName("ss.example.org".to_string(), 8388)).unwrap_err();
    assert_eq!(e.message(), "invalid cipher method: rot13");
}

#[test]
fn tls_outbound_builds_config() {
    let t = TlsOutbound::new(std::sync::Arc::new(
        tokio_rustls::rustls::ClientConfig::builder()
            .with_safe_defaults()
            .with_root_certificates(tokio_rustls::rustls::RootCertStore::empty())
            .with_no_client_auth(),
    ));
    assert_eq!(t.root_store().len(), WEBPKI_SERVER_ROOT_COUNT);
    assert_eq!(t.root_store().len(), webpki_roots::TLS_SERVER_ROOTS.0.len());
    for (anchor, root) in t.root_store().roots.iter().zip(webpki_roots::TLS_SERVER_ROOTS.0.iter()) {
        assert!(anchor.subject().as_ref().ends_with(root.subject));
        assert!(anchor.subject().as_ref().len() > root.subject.len());
    }
}

#[test]
fn tls_outbound_trusts_given_anchors_in_order() {
    let parts = vec![
        TrustAnchorParts { subject: vec![0x31, 0x01, 0xaa], spki: vec![1, 2, 3], name_constraints: None },
        TrustAnchorParts { subject: vec![0x31, 0x01, 0xbb], spki: vec![4, 5], name_constraints: Some(vec![9]) },
    ];
    let t = TlsOutbound::from_root_parts(&parts);
    let store = t.root_store();
    assert_eq!(store.len(), 2);
    assert_eq!(store.roots[0].subject().as_ref(), &[0x30, 0x03, 0x31, 0x01, 0xaa][..]);
    assert_eq!(store.roots[1].subject().as_ref(), &[0x30, 0x03, 0x31, 0x01, 0xbb][..]);
    assert_eq!(TlsOutbound::from_root_parts(&Vec::new()).root_store().len(), 0);
}

#[test]
fn server_keeps_bind_address() {
    assert_eq!(Server::new("127.0.0.1:1080".to_string()).bind_address(), "127.0.0.1:1080");
}

#[test]
fn contexts_of_socks5_requests() {
    let src = SocketAddress::V4 { ip: 0x7f000001, port: 1234 };
    let c = ConnectionContext::socks5_connect(src, Some("h".to_string()), Some(1));
    assert_eq!(c.inbound_type, "socks5");
    assert_eq!(c.metadata.to_string(), "{}");
    assert_eq!(c.outbound_tag, "");
    let u = ConnectionContext::socks5_udp(src, "h".to_string(), 53);
    assert_eq!(u.inbound_type, "socks5-udp");
    assert_eq!(u.metadata.to_string(), "{\"udp_session\":true}");
    assert_eq!(u.dst_port, Some(53));
}
