use vstd::prelude::*;
use crate::net::SocketAddress;

verus! {

#[verifier::external_type_specification]
#[verifier::external_body]
pub struct ExJsonValue(serde_json::Value);

/// `Clone` of `serde_json::Value`, which makes a deep copy; the value is opaque here, so
/// nothing is stated of the copy.
pub assume_specification[ <serde_json::Value as Clone>::clone ](v: &serde_json::Value) -> serde_json::Value;

/// Everything the pipeline knows about one proxied connection.
#[derive(Clone, Debug)]
pub struct ConnectionContext {
    pub src_addr: SocketAddress,
    pub dst_host: Option<String>,
    pub dst_port: Option<u16>,
    pub original_dst: Option<SocketAddress>,
    pub inbound_type: String,
    pub metadata: serde_json::Value,
    /// Tag chosen by the router, such as "direct" or "proxy".
    pub outbound_tag: String,
}

/// The JSON object that `serde_json::Value::from_iter` makes of key/value pairs, each key
/// given by its text and each value a boolean.
pub uninterp spec fn json_object_from_flags(members: Seq<(Seq<char>, bool)>) -> serde_json::Value;

/// The key/value pairs of `members`, each key taken by its text.
pub open spec fn flag_members(members: Seq<(String, bool)>) -> Seq<(Seq<char>, bool)> {
    members.map_values(|m: (String, bool)| (m.0@, m.1))
}

/// A JSON object holding the given boolean members.
///
/// Calls `serde_json::Value::from_iter`, which collects key/value pairs into
/// `serde_json::Value::Object`. The object depends on the pairs alone, so its value is named
/// `json_object_from_flags` of them; what the object holds is left unsaid.
#[verifier::external_body]
fn json_object_of_flags(members: Vec<(String, bool)>) -> (v: serde_json::Value)
    ensures
        v == json_object_from_flags(flag_members(members@)),
{
    serde_json::Value::from_iter(members)
}

impl ConnectionContext {
    /// The context of a SOCKS5 CONNECT request from `src_addr` to `dst_host:dst_port`, with
    /// an empty JSON object as metadata.
    pub fn socks5_connect(src_addr: SocketAddress, dst_host: Option<String>, dst_port: Option<u16>) -> (c: Self)
        ensures
            c.src_addr == src_addr,
            c.dst_host == dst_host,
            c.dst_port == dst_port,
            c.original_dst is None,
            c.inbound_type@ == "socks5"@,
            c.outbound_tag@ == Seq::<char>::empty(),
            c.metadata == json_object_from_flags(Seq::empty()),
    {
        let members: Vec<(String, bool)> = Vec::new();
        assert(flag_members(members@) =~= Seq::empty());
        ConnectionContext {
            src_addr,
            dst_host,
            dst_port,
            original_dst: None,
            inbound_type: String::from_str("socks5"),
            metadata: json_object_of_flags(members),
            outbound_tag: String::new(),
        }
    }

    /// The context of a UDP session that a SOCKS5 client associated at `src_addr` opens to
    /// `dst_host:dst_port`; its metadata, the object `{"udp_session": true}`, marks it as a UDP session.
    pub fn socks5_udp(src_addr: SocketAddress, dst_host: String, dst_port: u16) -> (c: Self)
        ensures
            c.src_addr == src_addr,
            c.dst_host == Some(dst_host),
            c.dst_port == Some(dst_port),
            c.original_dst is None,
            c.inbound_type@ == "socks5-udp"@,
            c.outbound_tag@ == Seq::<char>::empty(),
            c.metadata == json_object_from_flags(seq![("udp_session"@, true)]),
    {
        let mut members: Vec<(String, bool)> = Vec::new();
        let key = String::from_str("udp_session");
        assert(key@ == "udp_session"@);
        members.push((key, true));
        assert(flag_members(members@) =~= seq![("udp_session"@, true)]);
        ConnectionContext {
            src_addr,
            dst_host: Some(dst_host),
            dst_port: Some(dst_port),
            original_dst: None,
            inbound_type: String::from_str("socks5-udp"),
            metadata: json_object_of_flags(members),
            outbound_tag: String::new(),
        }
    }
}

} // verus!
