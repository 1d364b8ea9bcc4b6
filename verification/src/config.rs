use vstd::prelude::*;

verus! {

/// The whole configuration, as `config.json` holds it.
#[derive(Debug)]
pub struct AppConfig {
    pub shadowsocks: ShadowsocksConfig,
}

/// Where and how to reach the Shadowsocks server.
#[derive(Debug, Clone)]
pub struct ShadowsocksConfig {
    pub server_addr: String,
    pub server_port: u16,
    pub password: String,
    /// The cipher, such as "chacha20-ietf-poly1305".
    pub method: String,
}

} // verus!
