use std::sync::Arc;
use vstd::prelude::*;
use vstd::utf8::*;
use crate::error::ProxyError;
use crate::ipv6::{ipv6_string, ipv6_text};
use crate::net::{be_u16, push_u128_octets, push_u16_octets, push_u32_octets, u128_octets, u16_octets, u32_octets, SocketAddress};
use crate::text::{host_port_string, host_port_text, ipv4_string, ipv4_text, utf8_lossy_string, utf8_lossy_text};

verus! {

/// The destination and payload offset that a SOCKS5 UDP request header names, or why it
/// is refused. A request is `RSV RSV FRAG ATYP DST.ADDR DST.PORT DATA`: fragments are
/// refused, ATYP 1 is an IPv4 address, 3 a length-prefixed domain name, 4 an IPv6 address.
pub open spec fn udp_request_header(b: Seq<u8>) -> Result<(Seq<char>, u16, int), ProxyError> {
    if b.len() < 4 {
        Err(ProxyError::UdpPacketTooShort)
    } else if b[2] != 0 {
        Err(ProxyError::FragmentedPacket)
    } else if b[3] == 1 {
        if b.len() < 8 {
            Err(ProxyError::Ipv4Short)
        } else if b.len() < 10 {
            Err(ProxyError::MissingPort)
        } else {
            Ok((ipv4_text(b[4], b[5], b[6], b[7]), be_u16(b[8], b[9]), 10))
        }
    } else if b[3] == 3 {
        if b.len() < 5 {
            Err(ProxyError::DomainLenMissing)
        } else if b.len() < 5 + b[4] {
            Err(ProxyError::DomainShort)
        } else if b.len() < 7 + b[4] {
            Err(ProxyError::MissingPort)
        } else {
            let n = b[4] as int;
            Ok((utf8_lossy_text(b.subrange(5, 5 + n)), be_u16(b[5 + n], b[6 + n]), 7 + n))
        }
    } else if b[3] == 4 {
        if b.len() < 20 {
            Err(ProxyError::Ipv6Short)
        } else if b.len() < 22 {
            Err(ProxyError::MissingPort)
        } else {
            Ok((ipv6_text(b.subrange(4, 20)), be_u16(b[20], b[21]), 22))
        }
    } else {
        Err(ProxyError::InvalidAtyp)
    }
}

/// The datagram sent back to a UDP client: a header naming 0.0.0.0:0 as the source,
/// followed by the payload.
pub open spec fn udp_reply_packet(payload: Seq<u8>) -> Seq<u8> {
    seq![0u8, 0u8, 0u8, 1u8, 0u8, 0u8, 0u8, 0u8, 0u8, 0u8] + payload
}

/// The reply to a UDP ASSOCIATE request, naming the relay's bound address.
pub open spec fn udp_associate_reply_bytes(local: SocketAddress) -> Seq<u8> {
    match local {
        SocketAddress::V4 { ip, port, .. } => seq![5u8, 0u8, 0u8, 1u8] + u32_octets(ip) + u16_octets(port),
        SocketAddress::V6 { ip, port, .. } => seq![5u8, 0u8, 0u8, 4u8] + u128_octets(ip) + u16_octets(port),
    }
}

/// Whether two socket addresses carry the same IP address: the same family and the same
/// address, whatever their ports (and, for IPv6, flow information and scope ids).
pub open spec fn same_ip(a: SocketAddress, b: SocketAddress) -> bool {
    match (a, b) {
        (SocketAddress::V4 { ip: x, .. }, SocketAddress::V4 { ip: y, .. }) => x == y,
        (SocketAddress::V6 { ip: x, .. }, SocketAddress::V6 { ip: y, .. }) => x == y,
        _ => false,
    }
}

/// What the UDP relay does with a datagram from a client.
#[derive(Debug)]
pub enum DatagramDecision {
    /// It does not come from the associated client's IP address: drop it.
    Ignore,
    /// Its header is refused: report the error and drop it.
    Malformed(ProxyError),
    /// Forward the payload from `payload_start` on to `host:port`; `key` names the session.
    Forward { host: String, port: u16, payload_start: usize, key: String },
}

/// The decision for a datagram from `src` while `client` is associated. Only the client's IP
/// address is checked: its datagrams come from another port than its TCP connection.
pub open spec fn datagram_decision_spec(client: SocketAddress, src: SocketAddress, packet: Seq<u8>, d: DatagramDecision) -> bool {
    if !same_ip(client, src) {
        d is Ignore
    } else {
        match udp_request_header(packet) {
            Err(e) => d == DatagramDecision::Malformed(e),
            Ok((h, p, o)) => match d {
                DatagramDecision::Forward { host, port, payload_start, key } => {
                    &&& host@ == h
                    &&& port == p
                    &&& payload_start == o
                    &&& key@ == host_port_text(h, p)
                },
                _ => false,
            },
        }
    }
}

/// The SOCKS5 inbound: accepts client connections and hands their requests to a pipeline.
#[derive(Clone)]
pub struct Socks5Inbound<P> {
    pipeline: Arc<P>,
}

impl<P> Socks5Inbound<P> {
    pub fn new(pipeline: Arc<P>) -> (s: Self)
        ensures
            s.pipeline() == pipeline,
    {
        Self { pipeline }
    }

    /// The pipeline that accepted requests are handed to.
    pub closed spec fn pipeline(&self) -> Arc<P> {
        self.pipeline
    }

    /// The pipeline that accepted requests are handed to.
    pub fn pipeline_ref(&self) -> (p: &Arc<P>)
        ensures
            *p == self.pipeline(),
    {
        &self.pipeline
    }

    /// Parses the header of a SOCKS5 UDP request: the destination host as text, its port, and
    /// where the payload starts. A domain name that is well-formed UTF-8 is decoded unchanged.
    pub fn parse_socks5_udp_packet(buf: &[u8]) -> (r: Result<(String, u16, usize), ProxyError>)
        ensures
            match r {
                Ok((h, p, o)) => udp_request_header(buf@) == Ok::<(Seq<char>, u16, int), ProxyError>((h@, p, o as int)),
                Err(e) => udp_request_header(buf@) == Err::<(Seq<char>, u16, int), ProxyError>(e),
            },
            r matches Ok((h, _, o)) ==> (buf@[3] == 3 && valid_utf8(buf@.subrange(5, o - 2))
                ==> h@ == decode_utf8(buf@.subrange(5, o - 2))),
            buf@.len() >= 10 && buf@[2] == 0 && buf@[3] == 1 ==> (r matches Ok((_, p, o))
                && p as int == buf@[8] as int * 256 + buf@[9] as int && o == 10),
            buf@.len() >= 22 && buf@[2] == 0 && buf@[3] == 4 ==> (r matches Ok((_, p, o))
                && p as int == buf@[20] as int * 256 + buf@[21] as int && o == 22),
            buf@.len() >= 5 && buf@.len() >= 7 + buf@[4] && buf@[2] == 0 && buf@[3] == 3 ==> (r matches Ok((_, p, o))
                && p as int == buf@[5 + buf@[4]] as int * 256 + buf@[6 + buf@[4]] as int
                && o == 7 + buf@[4]),
    {
        if buf.len() < 4 {
            return Err(ProxyError::UdpPacketTooShort);
        }
        let frag = buf[2];
        if frag != 0x00 {
            return Err(ProxyError::FragmentedPacket);
        }
        let atyp = buf[3];
        let idx: usize = 4;
        if atyp == 0x01 {
            if buf.len() < idx + 4 {
                return Err(ProxyError::Ipv4Short);
            }
            let host = ipv4_string(buf[4], buf[5], buf[6], buf[7]);
            if buf.len() < 10 {
                return Err(ProxyError::MissingPort);
            }
            let port: u16 = (buf[8] as u16) * 256 + (buf[9] as u16);
            Ok((host, port, 10))
        } else if atyp == 0x03 {
            if buf.len() < idx + 1 {
                return Err(ProxyError::DomainLenMissing);
            }
            let len = buf[4] as usize;
            if buf.len() < 5 + len {
                return Err(ProxyError::DomainShort);
            }
            let host = utf8_lossy_string(&buf[5..5 + len]);
            if buf.len() < 7 + len {
                return Err(ProxyError::MissingPort);
            }
            let port: u16 = (buf[5 + len] as u16) * 256 + (buf[6 + len] as u16);
            Ok((host, port, 7 + len))
        } else if atyp == 0x04 {
            if buf.len() < idx + 16 {
                return Err(ProxyError::Ipv6Short);
            }
            let host = ipv6_string(&buf[4..20]);
            if buf.len() < 22 {
                return Err(ProxyError::MissingPort);
            }
            let port: u16 = (buf[20] as u16) * 256 + (buf[21] as u16);
            Ok((host, port, 22))
        } else {
            Err(ProxyError::InvalidAtyp)
        }
    }

    /// Wraps a payload for the client: a header naming 0.0.0.0:0, then the payload.
    pub fn build_socks5_udp_packet(payload: &[u8]) -> (out: Vec<u8>)
        ensures
            out@ == udp_reply_packet(payload@),
    {
        let mut out: Vec<u8> = Vec::new();
        out.push(0x00);
        out.push(0x00);
        out.push(0x00);
        out.push(0x01);
        out.push(0);
        out.push(0);
        out.push(0);
        out.push(0);
        out.push(0);
        out.push(0);
        out.extend_from_slice(payload);
        assert(out@ =~= udp_reply_packet(payload@));
        out
    }

    /// The reply that grants a UDP ASSOCIATE request: success, and the relay's bound address.
    pub fn udp_associate_reply(local: &SocketAddress) -> (out: Vec<u8>)
        ensures
            out@ == udp_associate_reply_bytes(*local),
    {
        let mut out: Vec<u8> = Vec::new();
        out.push(0x05);
        out.push(0x00);
        out.push(0x00);
        match local {
            SocketAddress::V4 { ip, port } => {
                out.push(0x01);
                push_u32_octets(&mut out, *ip);
                push_u16_octets(&mut out, *port);
            },
            SocketAddress::V6 { ip, port, .. } => {
                out.push(0x04);
                push_u128_octets(&mut out, *ip);
                push_u16_octets(&mut out, *port);
            },
        }
        assert(out@ =~= udp_associate_reply_bytes(*local));
        out
    }

    /// Decides what the UDP relay associated with `client` does with `packet`, received from `src`.
    pub fn classify_client_datagram(client: &SocketAddress, src: &SocketAddress, packet: &[u8]) -> (d: DatagramDecision)
        ensures
            datagram_decision_spec(*client, *src, packet@, d),
    {
        let from_client = match (client, src) {
            (SocketAddress::V4 { ip: x, .. }, SocketAddress::V4 { ip: y, .. }) => *x == *y,
            (SocketAddress::V6 { ip: x, .. }, SocketAddress::V6 { ip: y, .. }) => *x == *y,
            _ => false,
        };
        if !from_client {
            return DatagramDecision::Ignore;
        }
        match Self::parse_socks5_udp_packet(packet) {
            Err(e) => DatagramDecision::Malformed(e),
            Ok((host, port, payload_start)) => {
                let key = host_port_string(host.as_str(), port);
                DatagramDecision::Forward { host, port, payload_start, key }
            },
        }
    }
}

/// A UDP request header that is long enough for its address type is accepted, its port
/// is the two bytes after the address read most significant first, and the payload starts
/// right after them: byte 10 for IPv4, 22 for IPv6, and 7 plus the name's length for a domain.
pub proof fn lemma_udp_request_port_and_offset(b: Seq<u8>)
    requires
        b.len() >= 4,
        b[2] == 0,
    ensures
        b[3] == 1 && b.len() >= 10 ==> (udp_request_header(b) matches Ok((_, p, o))
            && p as int == b[8] as int * 256 + b[9] as int && o == 10),
        b[3] == 4 && b.len() >= 22 ==> (udp_request_header(b) matches Ok((_, p, o))
            && p as int == b[20] as int * 256 + b[21] as int && o == 22),
        b[3] == 3 && b.len() >= 5 && b.len() >= 7 + b[4] ==> (udp_request_header(b) matches Ok((_, p, o))
            && p as int == b[5 + b[4]] as int * 256 + b[6 + b[4]] as int && o == 7 + b[4]),
        b[3] == 1 && b.len() >= 10 ==> (udp_request_header(b) matches Ok((h, _, _))
            && h == ipv4_text(b[4], b[5], b[6], b[7])),
{
}

/// Parsing the header of a datagram sent back to a client names 0.0.0.0:0 and finds the
/// payload right after the ten-byte header.
pub proof fn lemma_udp_reply_parses_back(payload: Seq<u8>)
    ensures
        udp_request_header(udp_reply_packet(payload)) == Ok::<(Seq<char>, u16, int), ProxyError>((ipv4_text(0, 0, 0, 0), 0u16, 10)),
        udp_reply_packet(payload).subrange(10, udp_reply_packet(payload).len() as int) == payload,
{
    let b = udp_reply_packet(payload);
    assert(b.subrange(10, b.len() as int) =~= payload);
}

} // verus!
