use vstd::prelude::*;

verus! {

/// Why a proxy operation was refused.
#[derive(Clone, Debug)]
pub enum ProxyError {
    /// The client's greeting does not start with SOCKS version 5.
    InvalidSocksVersion,
    /// The client asked for a command other than CONNECT or UDP ASSOCIATE.
    UnsupportedCommand,
    /// A UDP datagram is shorter than its fixed header.
    UdpPacketTooShort,
    /// A UDP datagram is a fragment.
    FragmentedPacket,
    /// A UDP datagram ends inside its IPv4 address.
    Ipv4Short,
    /// A UDP datagram ends before the length of its domain name.
    DomainLenMissing,
    /// A UDP datagram ends inside its domain name.
    DomainShort,
    /// A UDP datagram ends inside its IPv6 address.
    Ipv6Short,
    /// A UDP datagram names an unknown address type.
    InvalidAtyp,
    /// A UDP datagram ends inside its port.
    MissingPort,
    /// A connection context has no destination host.
    MissingDstHost,
    /// A connection context has no destination port.
    MissingDstPort,
    /// A TLS connection was asked for without a destination host.
    NoHost,
    /// The destination host is not a valid TLS server name.
    InvalidDnsName,
    /// The configured Shadowsocks method is not a known cipher.
    InvalidCipherMethod(String),
    /// The Shadowsocks server configuration was refused, with the reason.
    ServerConfigFailed(String),
}

/// The text that describes an error.
pub open spec fn error_text(e: ProxyError) -> Seq<char> {
    match e {
        ProxyError::InvalidSocksVersion => "invalid socks version"@,
        ProxyError::UnsupportedCommand => "unsupported command"@,
        ProxyError::UdpPacketTooShort => "udp packet too short"@,
        ProxyError::FragmentedPacket => "fragmented packets not supported"@,
        ProxyError::Ipv4Short => "ipv4 short"@,
        ProxyError::DomainLenMissing => "domain len missing"@,
        ProxyError::DomainShort => "domain short"@,
        ProxyError::Ipv6Short => "ipv6 short"@,
        ProxyError::InvalidAtyp => "invalid atyp"@,
        ProxyError::MissingPort => "missing port"@,
        ProxyError::MissingDstHost => "missing dst_host in Context"@,
        ProxyError::MissingDstPort => "missing dst_port in Context"@,
        ProxyError::NoHost => "no host"@,
        ProxyError::InvalidDnsName => "invalid dns name"@,
        ProxyError::InvalidCipherMethod(m) => "invalid cipher method: "@ + m@,
        ProxyError::ServerConfigFailed(r) => "failed to build ServerConfig: "@ + r@,
    }
}

impl ProxyError {
    /// The text that describes this error.
    pub fn message(&self) -> (s: String)
        ensures
            s@ == error_text(*self),
    {
        match self {
            ProxyError::InvalidSocksVersion => String::from_str("invalid socks version"),
            ProxyError::UnsupportedCommand => String::from_str("unsupported command"),
            ProxyError::UdpPacketTooShort => String::from_str("udp packet too short"),
            ProxyError::FragmentedPacket => String::from_str("fragmented packets not supported"),
            ProxyError::Ipv4Short => String::from_str("ipv4 short"),
            ProxyError::DomainLenMissing => String::from_str("domain len missing"),
            ProxyError::DomainShort => String::from_str("domain short"),
            ProxyError::Ipv6Short => String::from_str("ipv6 short"),
            ProxyError::InvalidAtyp => String::from_str("invalid atyp"),
            ProxyError::MissingPort => String::from_str("missing port"),
            ProxyError::MissingDstHost => String::from_str("missing dst_host in Context"),
            ProxyError::MissingDstPort => String::from_str("missing dst_port in Context"),
            ProxyError::NoHost => String::from_str("no host"),
            ProxyError::InvalidDnsName => String::from_str("invalid dns name"),
            ProxyError::InvalidCipherMethod(m) => {
                let mut s = String::from_str("invalid cipher method: ");
                s.append(m.as_str());
                s
            },
            ProxyError::ServerConfigFailed(r) => {
                let mut s = String::from_str("failed to build ServerConfig: ");
                s.append(r.as_str());
                s
            },
        }
    }
}

} // verus!
