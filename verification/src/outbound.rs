use std::sync::Arc;
use vstd::prelude::*;
use crate::context::ConnectionContext;
use crate::text::{dec_text, host_port_string, host_port_text};
use crate::transport::TcpTransport;

verus! {

/// The host that a direct connection dials when the context names none.
pub open spec fn default_direct_host() -> Seq<char> {
    "93.184.216.34"@
}

/// The address text that a direct connection dials: the destination host, or
/// 93.184.216.34 when there is none, and the destination port, or 80 when there is none.
pub open spec fn direct_dial_text(dst_host: Option<Seq<char>>, dst_port: Option<u16>) -> Seq<char> {
    let host = match dst_host {
        Some(h) => h,
        None => default_direct_host(),
    };
    let port = match dst_port {
        Some(p) => p,
        None => 80u16,
    };
    host_port_text(host, port)
}

/// The `host:port` text that a direct connection for this context dials.
pub fn direct_dial_address(ctx: &ConnectionContext) -> (s: String)
    ensures
        s@ == direct_dial_text(
            match ctx.dst_host {
                Some(h) => Some(h@),
                None => None,
            },
            ctx.dst_port,
        ),
        s@ == (match ctx.dst_host {
            Some(h) => h@,
            None => "93.184.216.34"@,
        }) + seq![':'] + dec_text(match ctx.dst_port {
            Some(p) => p as nat,
            None => 80nat,
        }),
{
    let host = match &ctx.dst_host {
        Some(h) => h.clone(),
        None => String::from_str("93.184.216.34"),
    };
    let port = match ctx.dst_port {
        Some(p) => p,
        None => 80,
    };
    host_port_string(host.as_str(), port)
}

/// A direct connection dials the context's host, or 93.184.216.34 without one, then ':',
/// then the decimal text of the context's port; port 80 is dialled only when the context
/// has no port.
pub proof fn lemma_direct_dials_the_requested_port(h: Seq<char>, host: Option<Seq<char>>, p: u16)
    ensures
        direct_dial_text(Some(h), Some(p)) == h + seq![':'] + dec_text(p as nat),
        direct_dial_text(Some(h), None) == h + seq![':'] + dec_text(80),
        direct_dial_text(None, Some(p)) == "93.184.216.34"@ + seq![':'] + dec_text(p as nat),
        direct_dial_text(host, Some(p)).subrange(
            direct_dial_text(host, Some(p)).len() - dec_text(p as nat).len(),
            direct_dial_text(host, Some(p)).len() as int,
        ) == dec_text(p as nat),
{
    let t = direct_dial_text(host, Some(p));
    let hh = match host { Some(x) => x, None => "93.184.216.34"@ };
    assert(t == hh + seq![':'] + dec_text(p as nat));
    assert(t.subrange(t.len() - dec_text(p as nat).len(), t.len() as int) =~= dec_text(p as nat));
}

/// Connects to destinations directly over TCP.
pub struct DirectOutbound;

impl DirectOutbound {
    pub fn new() -> (d: Self) {
        Self {}
    }
}

/// The outbounds that connections are dispatched to.
#[derive(Clone)]
pub struct OutboundManager {
    pub direct: Arc<DirectOutbound>,
}

/// Dispatches every connection directly over its TCP transport.
#[derive(Clone)]
pub struct SimpleOutboundManager {
    transport: Arc<TcpTransport>,
}

impl SimpleOutboundManager {
    pub fn new(transport: Arc<TcpTransport>) -> (m: Self)
        ensures
            m.transport() == transport,
    {
        Self { transport }
    }

    /// The transport that connections are dialled over.
    pub closed spec fn transport(&self) -> Arc<TcpTransport> {
        self.transport
    }

    /// The transport that connections are dialled over.
    pub fn tcp_transport(&self) -> (t: &Arc<TcpTransport>)
        ensures
            *t == self.transport(),
    {
        &self.transport
    }
}

} // verus!
