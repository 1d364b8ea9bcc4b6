//! A small SOCKS5 proxy framework: the SOCKS5 handshake and UDP codec, the order of a
//! pipeline run, routing, and the targets that outbounds dial.

pub mod config;
pub mod context;
pub mod error;
pub mod ipv6;
pub mod middleware;
pub mod net;
pub mod outbound;
pub mod pipeline;
pub mod router;
pub mod server;
pub mod socks5;
pub mod socks5_session;
pub mod ss_outbound;
pub mod text;
pub mod tls;
pub mod transport;
pub mod udp_sessions;
