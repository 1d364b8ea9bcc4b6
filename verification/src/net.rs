use vstd::prelude::*;

verus! {

/// A socket address: an IPv4 or IPv6 address with a port, the IPv6 form with its flow
/// information and scope id. Addresses are kept as integers, most significant octet first.
#[allow(inconsistent_fields)]
#[derive(Clone, Copy, Debug, PartialEq, Eq, Structural)]
pub enum SocketAddress {
    V4 { ip: u32, port: u16 },
    V6 { ip: u128, port: u16, flowinfo: u32, scope_id: u32 },
}

/// The two octets of a 16-bit value, most significant first.
pub open spec fn u16_octets(v: u16) -> Seq<u8> {
    seq![(v / 256) as u8, (v % 256) as u8]
}

/// A 16-bit value from two octets, most significant first (`u16::from_be_bytes`).
pub open spec fn be_u16(hi: u8, lo: u8) -> u16 {
    (hi as int * 256 + lo as int) as u16
}

/// The four octets of an IPv4 address, most significant first.
pub open spec fn u32_octets(v: u32) -> Seq<u8> {
    Seq::new(4, |i: int| ((v >> ((24 - 8 * i) as u32)) & 0xff) as u8)
}

/// The sixteen octets of an IPv6 address, most significant first.
pub open spec fn u128_octets(v: u128) -> Seq<u8> {
    Seq::new(16, |i: int| ((v >> ((120 - 8 * i) as u32)) & 0xff) as u8)
}

/// Appends the two octets of `v`, most significant first.
pub fn push_u16_octets(out: &mut Vec<u8>, v: u16)
    ensures
        final(out)@ == old(out)@ + u16_octets(v),
{
    out.push((v / 256) as u8);
    out.push((v % 256) as u8);
    assert(final(out)@ =~= old(out)@ + u16_octets(v));
}

/// Appends the four octets of an IPv4 address, most significant first.
pub fn push_u32_octets(out: &mut Vec<u8>, v: u32)
    ensures
        final(out)@ == old(out)@ + u32_octets(v),
{
    let ghost start = out@;
    let mut i: u32 = 0;
    while i < 4
        invariant
            i <= 4,
            out@.len() == start.len() + i,
            forall|k: int| 0 <= k < start.len() ==> out@[k] == start[k],
            forall|k: int| start.len() <= k < out@.len() ==> #[trigger] out@[k] == u32_octets(v)[k - start.len()],
        decreases 4 - i,
    {
        let b = ((v >> (24 - 8 * i)) & 0xff) as u8;
        out.push(b);
        i = i + 1;
    }
    assert(out@ =~= start + u32_octets(v));
}

/// Appends the sixteen octets of an IPv6 address, most significant first.
pub fn push_u128_octets(out: &mut Vec<u8>, v: u128)
    ensures
        final(out)@ == old(out)@ + u128_octets(v),
{
    let ghost start = out@;
    let mut i: u32 = 0;
    while i < 16
        invariant
            i <= 16,
            out@.len() == start.len() + i,
            forall|k: int| 0 <= k < start.len() ==> out@[k] == start[k],
            forall|k: int| start.len() <= k < out@.len() ==> #[trigger] out@[k] == u128_octets(v)[k - start.len()],
        decreases 16 - i,
    {
        let b = ((v >> (120 - 8 * i)) & 0xff) as u8;
        out.push(b);
        i = i + 1;
    }
    assert(out@ =~= start + u128_octets(v));
}

} // verus!
