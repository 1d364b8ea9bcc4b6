use std::sync::Arc;
use shadowsocks::config::{ServerAddr, ServerConfig, ServerType};
use shadowsocks::context::Context;
use shadowsocks::crypto::CipherKind;
use vstd::prelude::*;
use crate::config::ShadowsocksConfig;
use crate::context::ConnectionContext;
use crate::error::ProxyError;

verus! {

#[verifier::external_type_specification]
#[verifier::external_body]
pub struct ExContext(Context);

#[verifier::external_type_specification]
#[verifier::external_body]
pub struct ExServerConfig(ServerConfig);

#[verifier::external_type_specification]
#[verifier::external_body]
pub struct ExServerAddr(ServerAddr);

#[verifier::external_type_specification]
#[verifier::external_body]
pub struct ExCipherKind(CipherKind);

/// A character with ASCII upper case letters turned to lower case.
pub open spec fn ascii_lower(c: char) -> char {
    if 'A' <= c && c <= 'Z' {
        ((c as u32) + 32) as char
    } else {
        c
    }
}

/// Whether the shadowsocks crate, as this crate builds it (the AEAD ciphers of the original
/// protocol and no others), knows this text as the name of a cipher: "plain", "none",
/// "aes-128-gcm", "aes-256-gcm" or "chacha20-ietf-poly1305", in any mix of letter cases.
pub open spec fn cipher_method_known(method: Seq<char>) -> bool {
    let m = method.map_values(|c: char| ascii_lower(c));
    ||| m == seq!['p', 'l', 'a', 'i', 'n']
    ||| m == seq!['n', 'o', 'n', 'e']
    ||| m == seq!['a', 'e', 's', '-', '1', '2', '8', '-', 'g', 'c', 'm']
    ||| m == seq!['a', 'e', 's', '-', '2', '5', '6', '-', 'g', 'c', 'm']
    ||| m == seq![
        'c', 'h', 'a', 'c', 'h', 'a', '2', '0', '-', 'i', 'e', 't', 'f', '-', 'p', 'o', 'l', 'y', '1', '3', '0', '5',
    ]
}

/// The cipher that `CipherKind::from_str` finds for a known name.
pub uninterp spec fn parsed_cipher(method: Seq<char>) -> CipherKind;

/// Calls `CipherKind::from_str`, which lower-cases the text and compares it with the names
/// of the ciphers compiled in; with the features this crate builds shadowsocks-crypto with
/// (`v1`, `v1-aead`) those are the names that `cipher_method_known` lists. The only
/// characters that lower-case to ASCII are the ASCII letters and the Kelvin sign, which
/// becomes 'k', a letter that none of those names holds. The cipher found depends on the
/// text alone and is named `parsed_cipher`.
#[verifier::external_body]
fn parse_cipher_kind(method: &str) -> (r: Option<CipherKind>)
    ensures
        r is Some <==> cipher_method_known(method@),
        r matches Some(k) ==> k == parsed_cipher(method@),
{
    method.parse::<CipherKind>().ok()
}

/// A Shadowsocks server configuration, kept with the password and cipher it was made with.
#[derive(Debug)]
pub struct ShadowsocksServer {
    config: ServerConfig,
    password: String,
    cipher: CipherKind,
}

impl ShadowsocksServer {
    /// The password the configuration was made with.
    pub closed spec fn password_text(&self) -> Seq<char> {
        self.password@
    }

    /// The cipher the configuration was made with.
    pub closed spec fn cipher_kind(&self) -> CipherKind {
        self.cipher
    }

    /// The configuration itself, as the shadowsocks relays take it.
    pub fn server_config(&self) -> &ServerConfig {
        &self.config
    }

    /// The password the configuration was made with.
    pub fn password(&self) -> (p: &str)
        ensures
            p@ == self.password_text(),
    {
        self.password.as_str()
    }

    /// The cipher the configuration was made with.
    pub fn cipher(&self) -> (k: CipherKind)
        ensures
            k == self.cipher_kind(),
    {
        self.cipher
    }
}

/// Calls `shadowsocks::config::ServerConfig::new(addr, password, method)` and keeps the
/// password and cipher handed to it beside the configuration, turning an error into its text.
/// `ServerConfig::new` fails only where `password_to_keys` does: for the AEAD-2022 ciphers,
/// which need the `aead-cipher-2022` feature that this crate does not enable; for every other
/// cipher it derives the key from the password and succeeds. The contract states that success.
/// What the configuration holds beyond what was handed to it is left unsaid.
#[verifier::external_body]
fn server_config_new(addr: ServerAddr, password: String, method: CipherKind) -> (r: Result<ShadowsocksServer, String>)
    ensures
        r is Ok,
        r matches Ok(s) ==> s.password_text() == password@ && s.cipher_kind() == method,
{
    match ServerConfig::new(addr, password.clone(), method) {
        Ok(config) => Ok(ShadowsocksServer { config, password, cipher: method }),
        Err(e) => Err(e.to_string()),
    }
}

/// Calls `shadowsocks::context::Context::new(ServerType::Local)`, the service context of a
/// Shadowsocks client. It is opaque here, so nothing is stated of it.
#[verifier::external_body]
fn local_context() -> Context {
    Context::new(ServerType::Local)
}

/// The destination that a Shadowsocks connection for this context asks the server for:
/// the context must name both a host and a port.
pub open spec fn shadowsocks_destination(dst_host: Option<Seq<char>>, dst_port: Option<u16>) -> Result<(Seq<char>, u16), ProxyError> {
    match dst_host {
        None => Err(ProxyError::MissingDstHost),
        Some(h) => match dst_port {
            None => Err(ProxyError::MissingDstPort),
            Some(p) => Ok((h, p)),
        },
    }
}

/// Connects to destinations through a Shadowsocks server.
pub struct ShadowsocksOutbound {
    cfg: Arc<ShadowsocksConfig>,
    ctx: Arc<Context>,
}

impl ShadowsocksOutbound {
    /// The server configuration this outbound uses.
    pub closed spec fn config(&self) -> ShadowsocksConfig {
        *self.cfg
    }

    /// The client context shared by this outbound's connections.
    pub closed spec fn shared_context(&self) -> Arc<Context> {
        self.ctx
    }

    /// An outbound for the given server, with a fresh client context; this never fails.
    pub fn new(cfg: ShadowsocksConfig) -> (r: Result<Self, ProxyError>)
        ensures
            r matches Ok(o) && o.config() == cfg,
    {
        let context = local_context();
        Ok(Self { cfg: Arc::new(cfg), ctx: Arc::new(context) })
    }

    /// The server configuration this outbound uses.
    pub fn settings(&self) -> (c: &ShadowsocksConfig)
        ensures
            *c == self.config(),
    {
        &*self.cfg
    }

    /// The client context shared by this outbound's connections.
    pub fn context(&self) -> (c: &Arc<Context>)
        ensures
            *c == self.shared_context(),
    {
        &self.ctx
    }

    /// The Shadowsocks server configuration for the server at `svr_addr`, with the
    /// configured password and cipher. An unknown cipher name is refused with the name;
    /// a known one always gives a configuration.
    pub fn build_server_config(&self, svr_addr: ServerAddr) -> (r: Result<ShadowsocksServer, ProxyError>)
        ensures
            r is Ok <==> cipher_method_known(self.config().method@),
            r matches Err(e) ==> (e matches ProxyError::InvalidCipherMethod(m) && m@ == self.config().method@),
            r matches Ok(s) ==> s.password_text() == self.config().password@
                && s.cipher_kind() == parsed_cipher(self.config().method@),
    {
        let method = match parse_cipher_kind(self.cfg.method.as_str()) {
            Some(m) => m,
            None => return Err(ProxyError::InvalidCipherMethod(self.cfg.method.clone())),
        };
        match server_config_new(svr_addr, self.cfg.password.clone(), method) {
            Ok(svr) => Ok(svr),
            Err(reason) => Err(ProxyError::ServerConfigFailed(reason)),
        }
    }

    /// The host and port that a Shadowsocks connection for this context asks the server for.
    pub fn destination(ctx: &ConnectionContext) -> (r: Result<(String, u16), ProxyError>)
        ensures
            match (r, shadowsocks_destination(
                match ctx.dst_host {
                    Some(h) => Some(h@),
                    None => None,
                },
                ctx.dst_port,
            )) {
                (Ok((h, p)), Ok((sh, sp))) => h@ == sh && p == sp,
                (Err(e), Err(se)) => e == se,
                _ => false,
            },
            ctx.dst_host matches Some(h) ==> (ctx.dst_port matches Some(p)
                ==> (r matches Ok((rh, rp)) && rh@ == h@ && rp == p)),
            ctx.dst_host is None ==> r == Err::<(String, u16), ProxyError>(ProxyError::MissingDstHost),
            ctx.dst_host is Some && ctx.dst_port is None ==> r == Err::<(String, u16), ProxyError>(ProxyError::MissingDstPort),
    {
        let host = match &ctx.dst_host {
            Some(h) => h.clone(),
            None => return Err(ProxyError::MissingDstHost),
        };
        let port = match ctx.dst_port {
            Some(p) => p,
            None => return Err(ProxyError::MissingDstPort),
        };
        Ok((host, port))
    }
}

/// A Shadowsocks connection asks the server for exactly the context's host and port; without
/// a host, or with a host but no port, there is nothing to ask for.
pub proof fn lemma_shadowsocks_asks_for_the_destination(h: Seq<char>, p: u16, port: Option<u16>)
    ensures
        shadowsocks_destination(Some(h), Some(p)) == Ok::<(Seq<char>, u16), ProxyError>((h, p)),
        shadowsocks_destination(None, port) == Err::<(Seq<char>, u16), ProxyError>(ProxyError::MissingDstHost),
        shadowsocks_destination(Some(h), None) == Err::<(Seq<char>, u16), ProxyError>(ProxyError::MissingDstPort),
{
}

} // verus!
