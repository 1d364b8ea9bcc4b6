use std::sync::Arc;
use tokio_rustls::rustls::{ClientConfig, OwnedTrustAnchor, RootCertStore, ServerName};
use vstd::prelude::*;
use crate::context::ConnectionContext;
use crate::error::ProxyError;
use crate::text::{dec_text, host_port_string, host_port_text};

verus! {

#[verifier::external_type_specification]
#[verifier::external_body]
pub struct ExClientConfig(ClientConfig);

#[verifier::external_type_specification]
#[verifier::external_body]
pub struct ExRootCertStore(RootCertStore);

#[verifier::external_type_specification]
#[verifier::external_body]
pub struct ExServerName(ServerName);

/// Whether rustls accepts this text as a TLS server name (a DNS name or an IP address).
pub uninterp spec fn tls_server_name_valid(host: Seq<char>) -> bool;

/// The DER subject (without its outer SEQUENCE), subject public key info and name
/// constraints of a trust anchor.
pub struct TrustAnchorParts {
    pub subject: Vec<u8>,
    pub spki: Vec<u8>,
    pub name_constraints: Option<Vec<u8>>,
}

impl View for TrustAnchorParts {
    type V = (Seq<u8>, Seq<u8>, Option<Seq<u8>>);

    open spec fn view(&self) -> (Seq<u8>, Seq<u8>, Option<Seq<u8>>) {
        (self.subject@, self.spki@, match self.name_constraints {
            Some(nc) => Some(nc@),
            None => None,
        })
    }
}

/// The anchors that a list of parts describes, in order.
pub open spec fn anchor_models(parts: Seq<TrustAnchorParts>) -> Seq<(Seq<u8>, Seq<u8>, Option<Seq<u8>>)> {
    parts.map_values(|p: TrustAnchorParts| p@)
}

/// The number of trust anchors that `webpki_roots::TLS_SERVER_ROOTS` lists.
pub const WEBPKI_SERVER_ROOT_COUNT: usize = 137;

/// The trust anchors a rustls root store holds (its public field `roots`), in order, each
/// taken as the subject, key info and name constraints it was made from.
pub uninterp spec fn root_store_anchors(store: RootCertStore) -> Seq<(Seq<u8>, Seq<u8>, Option<Seq<u8>>)>;

/// The subject, key info and name constraints of the anchor at `index` in
/// `webpki_roots::TLS_SERVER_ROOTS`.
pub uninterp spec fn webpki_server_root(index: int) -> (Seq<u8>, Seq<u8>, Option<Seq<u8>>);

/// The subject, public key info and name constraints of each trust anchor that
/// `webpki_roots::TLS_SERVER_ROOTS` lists, copied out in order. The list in webpki-roots
/// 0.22.6 holds 137 anchors; the one at each index is named `webpki_server_root` of it.
#[verifier::external_body]
fn webpki_server_root_parts() -> (v: Vec<TrustAnchorParts>)
    ensures
        v.len() == WEBPKI_SERVER_ROOT_COUNT,
        forall|i: int| 0 <= i < v.len() ==> #[trigger] v@[i]@ == webpki_server_root(i),
{
    webpki_roots::TLS_SERVER_ROOTS
        .0
        .iter()
        .map(|ta| TrustAnchorParts {
            subject: ta.subject.to_vec(),
            spki: ta.spki.to_vec(),
            name_constraints: ta.name_constraints.map(|nc| nc.to_vec()),
        })
        .collect()
}

/// Calls `rustls::RootCertStore::empty`, a store whose `roots` is an empty vector.
#[verifier::external_body]
fn root_cert_store_empty() -> (s: RootCertStore)
    ensures
        root_store_anchors(s) == Seq::<(Seq<u8>, Seq<u8>, Option<Seq<u8>>)>::empty(),
{
    RootCertStore::empty()
}

/// Calls `rustls::RootCertStore::add_server_trust_anchors`, which extends the store's
/// `roots` with the given anchors in order and does not fail. Each anchor is made from its
/// parts by `OwnedTrustAnchor::from_subject_spki_name_constraints`, which keeps the key info
/// and name constraints and wraps the subject in a SEQUENCE header that it records, so the
/// anchor gives the subject back unchanged.
#[verifier::external_body]
fn add_server_trust_anchors(store: &mut RootCertStore, parts: &Vec<TrustAnchorParts>)
    ensures
        root_store_anchors(*final(store)) == root_store_anchors(*old(store)) + anchor_models(parts@),
{
    #[allow(deprecated)]
    store.add_server_trust_anchors(parts.iter().map(|p| {
        OwnedTrustAnchor::from_subject_spki_name_constraints(p.subject.clone(), p.spki.clone(), p.name_constraints.clone())
    }));
}

/// The trust anchors that a rustls client configuration verifies servers against: those of
/// the root store its `WebPkiVerifier` keeps, taken as `root_store_anchors` takes them.
pub uninterp spec fn config_root_anchors(config: ClientConfig) -> Seq<(Seq<u8>, Seq<u8>, Option<Seq<u8>>)>;

/// Builds a rustls client configuration with the safe default cipher suites, key exchange
/// groups and protocol versions, trusting `roots`, without client authentication:
/// `ClientConfig::builder().with_safe_defaults().with_root_certificates(roots).with_no_client_auth()`.
/// `with_root_certificates` keeps the store, and `with_no_client_auth` hands it to
/// `WebPkiVerifier::new`, which keeps it as the verifier's roots; so the configuration trusts
/// the store's anchors. The builder's steps share one wrapper because their intermediate type,
/// `ConfigBuilder<Side: ConfigSide, State>`, is bounded by a sealed rustls trait that Verus
/// cannot declare. The rest of the configuration is left unsaid.
#[verifier::external_body]
fn client_config_with_roots(roots: Arc<RootCertStore>) -> (c: ClientConfig)
    ensures
        config_root_anchors(c) == root_store_anchors(*roots),
{
    ClientConfig::builder().with_safe_defaults().with_root_certificates(roots).with_no_client_auth()
}

/// Calls `rustls::ServerName::try_from(&str)`; whether it succeeds is named
/// `tls_server_name_valid`. The name itself is opaque here.
#[verifier::external_body]
fn server_name_of(host: &str) -> (r: Option<ServerName>)
    ensures
        r is Some <==> tls_server_name_valid(host@),
{
    ServerName::try_from(host).ok()
}

/// The host and the `host:port` text that a TLS connection for this context dials: the
/// destination host, which it must have, and the destination port, or 443 when there is none.
pub open spec fn tls_dial_target(dst_host: Option<Seq<char>>, dst_port: Option<u16>) -> Result<(Seq<char>, Seq<char>), ProxyError> {
    match dst_host {
        None => Err(ProxyError::NoHost),
        Some(h) => Ok((h, host_port_text(h, match dst_port {
            Some(p) => p,
            None => 443u16,
        }))),
    }
}

/// Connects to destinations over TLS, trusting the anchors of its root store.
pub struct TlsOutbound {
    pub config: Arc<ClientConfig>,
    roots: Arc<RootCertStore>,
}

impl TlsOutbound {
    /// The anchors that the client configuration verifies servers against.
    pub closed spec fn trusted_anchors(&self) -> Seq<(Seq<u8>, Seq<u8>, Option<Seq<u8>>)> {
        config_root_anchors(*self.config)
    }

    /// The anchors of the root store kept beside the configuration.
    pub closed spec fn stored_anchors(&self) -> Seq<(Seq<u8>, Seq<u8>, Option<Seq<u8>>)> {
        root_store_anchors(*self.roots)
    }

    /// An outbound whose client configuration trusts the `webpki-roots` anchors, in their
    /// order; the given configuration is not used.
    pub fn new(config: Arc<ClientConfig>) -> (t: Self)
        ensures
            t.trusted_anchors().len() == WEBPKI_SERVER_ROOT_COUNT,
            forall|i: int| 0 <= i < WEBPKI_SERVER_ROOT_COUNT ==> #[trigger] t.trusted_anchors()[i] == webpki_server_root(i),
            t.stored_anchors() == t.trusted_anchors(),
    {
        let parts = webpki_server_root_parts();
        Self::from_root_parts(&parts)
    }

    /// An outbound whose client configuration, with rustls's safe defaults and no client
    /// authentication, trusts exactly the given anchors, in order, and keeps its root store.
    pub fn from_root_parts(parts: &Vec<TrustAnchorParts>) -> (t: Self)
        ensures
            t.trusted_anchors() == anchor_models(parts@),
            t.stored_anchors() == anchor_models(parts@),
    {
        let mut store = root_cert_store_empty();
        add_server_trust_anchors(&mut store, parts);
        assert(Seq::<(Seq<u8>, Seq<u8>, Option<Seq<u8>>)>::empty() + anchor_models(parts@) =~= anchor_models(parts@));
        let roots = Arc::new(store);
        let cfg = client_config_with_roots(roots.clone());
        Self { config: Arc::new(cfg), roots }
    }

    /// The root store kept beside the client configuration.
    pub fn root_store(&self) -> (r: &RootCertStore)
        ensures
            root_store_anchors(*r) == self.stored_anchors(),
    {
        &*self.roots
    }

    /// The host and the `host:port` text that a TLS connection for this context dials.
    pub fn dial_target(ctx: &ConnectionContext) -> (r: Result<(String, String), ProxyError>)
        ensures
            match (r, tls_dial_target(
                match ctx.dst_host {
                    Some(h) => Some(h@),
                    None => None,
                },
                ctx.dst_port,
            )) {
                (Ok((h, a)), Ok((sh, sa))) => h@ == sh && a@ == sa,
                (Err(e), Err(se)) => e == se,
                _ => false,
            },
            ctx.dst_host matches Some(h) ==> (r matches Ok((name, addr)) && name@ == h@
                && addr@ == h@ + seq![':'] + dec_text(match ctx.dst_port {
                    Some(p) => p as nat,
                    None => 443nat,
                })),
            ctx.dst_host is None ==> r == Err::<(String, String), ProxyError>(ProxyError::NoHost),
    {
        let host = match &ctx.dst_host {
            Some(h) => h.clone(),
            None => return Err(ProxyError::NoHost),
        };
        let port = match ctx.dst_port {
            Some(p) => p,
            None => 443,
        };
        let addr = host_port_string(host.as_str(), port);
        Ok((host, addr))
    }

    /// The TLS server name to present for `host`, or `InvalidDnsName` when rustls refuses it.
    pub fn server_name(host: &str) -> (r: Result<ServerName, ProxyError>)
        ensures
            r is Ok <==> tls_server_name_valid(host@),
            r matches Err(e) ==> e == ProxyError::InvalidDnsName,
    {
        match server_name_of(host) {
            Some(n) => Ok(n),
            None => Err(ProxyError::InvalidDnsName),
        }
    }
}

/// A TLS connection presents exactly the context's host as the server name, whatever the
/// port, and dials that host, ':', and the decimal port: the context's, or 443 without one.
/// Without a host there is nothing to dial.
pub proof fn lemma_tls_presents_the_host(h: Seq<char>, port: Option<u16>)
    ensures
        tls_dial_target(Some(h), port) matches Ok((name, addr)) && name == h
            && addr == h + seq![':'] + dec_text(match port {
                Some(p) => p as nat,
                None => 443nat,
            }),
        tls_dial_target(None, port) == Err::<(Seq<char>, Seq<char>), ProxyError>(ProxyError::NoHost),
{
}

} // verus!
