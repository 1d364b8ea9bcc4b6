use mini_pipeline_proxy::context::ConnectionContext;
use mini_pipeline_proxy::net::SocketAddress;
use mini_pipeline_proxy::outbound::direct_dial_address;
use mini_pipeline_proxy::router::SimpleRouter;
use mini_pipeline_proxy::ss_outbound::ShadowsocksOutbound;
use mini_pipeline_proxy::tls::TlsOutbound;

fn ctx(host: Option<&str>, port: Option<u16>) -> ConnectionContext {
    ConnectionContext::socks5_connect(
        SocketAddress::V4 { ip: 0x7f000001, port: 1234 },
        host.map(|h| h.to_string()),
        port,
    )
}

#[test]
fn router_sends_example_hosts_to_proxy() {
    let r = SimpleRouter::new("direct".to_string(), "proxy".to_string());
    assert_eq!(r.select_outbound(&ctx(Some("www.example.com"), Some(80))).unwrap(), "proxy");
    assert_eq!(r.select_outbound(&ctx(Some("rust-lang.org"), Some(80))).unwrap(), "direct");
    assert_eq!(r.select_outbound(&ctx(None, None)).unwrap(), "direct");
}

#[test]
fn direct_dial_uses_defaults() {
    assert_eq!(direct_dial_address(&ctx(Some("a.test"), Some(8080))), "a.test:8080");
    assert_eq!(direct_dial_address(&ctx(None, Some(8080))), "93.184.216.34:8080");
    assert_eq!(direct_dial_address(&ctx(Some("a.test"), None)), "a.test:80");
    assert_eq!(direct_dial_address(&ctx(None, None)), "93.184.216.34:80");
}

#[test]
fn tls_dial_needs_host_and_defaults_port() {
    let (h, a) = TlsOutbound::dial_target(&ctx(Some("example.org"), None)).unwrap();
    assert_eq!((h.as_str(), a.as_str()), ("example.org", "example.org:443"));
    let (_, a) = TlsOutbound::dial_target(&ctx(Some("example.org"), Some(8443))).unwrap();
    assert_eq!(a, "example.org:8443");
    assert_eq!(TlsOutbound::dial_target(&ctx(None, Some(443))).unwrap_err().message(), "no host");
}

#[test]
fn tls_server_names() {
    assert!(TlsOutbound::server_name("example.org").is_ok());
    assert!(TlsOutbound::server_name("10.0.0.1").is_ok());
    assert_eq!(TlsOutbound::server_name("bad name!").unwrap_err().message(), "invalid dns name");
}

#[test]
fn shadowsocks_destination_needs_host_and_port() {
    let (h, p) = ShadowsocksOutbound::destination(&ctx(Some("example.org"), Some(443))).unwrap();
    assert_eq!((h.as_str(), p), ("example.org", 443));
    assert_eq!(ShadowsocksOutbound::destination(&ctx(None, Some(443))).unwrap_err().message(), "missing dst_host in Context");
    assert_eq!(ShadowsocksOutbound::destination(&ctx(Some("x"), None)).unwrap_err().message(), "missing dst_port in Context");
}
