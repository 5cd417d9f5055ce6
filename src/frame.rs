use vstd::prelude::*;
use crate::addr::{IpAddress, IpModel, SocketAddress};

verus! {

/// A datagram event: payload, source endpoint, destination endpoint.
pub type UdpMsg = (Vec<u8>, SocketAddress, SocketAddress);

/// What a datagram event denotes.
pub type UdpMsgModel = (Seq<u8>, (IpModel, u16), (IpModel, u16));

pub open spec fn msg_view(m: UdpMsg) -> UdpMsgModel {
    (m.0@, m.1@, m.2@)
}

/// Largest payload that fits a UDP datagram inside an IPv4 packet
/// without options.
pub const IPV4_MAX_PAYLOAD: usize = 65507;

/// Largest payload that fits a UDP datagram inside an IPv6 packet
/// without extension headers.
pub const IPV6_MAX_PAYLOAD: usize = 65527;

/// Protocol number of UDP.
pub const PROTOCOL_UDP: u8 = 17;

/// The big-endian 16-bit field at offset `i`.
pub open spec fn be16(s: Seq<u8>, i: int) -> int {
    s[i] as int * 256 + s[i + 1] as int
}

pub open spec fn ip_version(f: Seq<u8>) -> int {
    f[0] as int / 16
}

/// Length in bytes of an IPv4 header, from its IHL field.
pub open spec fn ipv4_header_len(f: Seq<u8>) -> int {
    (f[0] as int % 16) * 4
}

/// Length checks that an IPv4 packet passes before any field is read.
pub open spec fn ipv4_len_ok(f: Seq<u8>) -> bool {
    &&& f.len() >= 20
    &&& 20 <= ipv4_header_len(f)
    &&& ipv4_header_len(f) <= be16(f, 2)
    &&& be16(f, 2) <= f.len()
}

/// Length checks that an IPv6 packet passes: the fixed header and the
/// payload its length field announces.
pub open spec fn ipv6_len_ok(f: Seq<u8>) -> bool {
    &&& f.len() >= 40
    &&& 40 + be16(f, 4) <= f.len()
}

/// Length checks that a UDP segment passes: the header, and a length
/// field that covers the header and stays inside the buffer.
pub open spec fn udp_len_ok(p: Seq<u8>) -> bool {
    &&& p.len() >= 8
    &&& 8 <= be16(p, 4)
    &&& be16(p, 4) <= p.len()
}

/// Source address, destination address and payload of an IP packet of
/// either version, or `None` where it is malformed.
pub open spec fn ip_layer(f: Seq<u8>) -> Option<(IpModel, IpModel, Seq<u8>)> {
    if f.len() == 0 {
        None
    } else if ip_version(f) == 4 {
        if ipv4_len_ok(f) {
            Some(
                (
                    IpModel::V4(f.subrange(12, 16)),
                    IpModel::V4(f.subrange(16, 20)),
                    f.subrange(ipv4_header_len(f), be16(f, 2)),
                ),
            )
        } else {
            None
        }
    } else if ip_version(f) == 6 {
        if ipv6_len_ok(f) {
            Some(
                (
                    IpModel::V6(f.subrange(8, 24)),
                    IpModel::V6(f.subrange(24, 40)),
                    f.subrange(40, 40 + be16(f, 4)),
                ),
            )
        } else {
            None
        }
    } else {
        None
    }
}

/// Source port, destination port and payload of a UDP segment, or `None`
/// where it is malformed.
pub open spec fn udp_layer(p: Seq<u8>) -> Option<(u16, u16, Seq<u8>)> {
    if udp_len_ok(p) {
        Some((be16(p, 0) as u16, be16(p, 2) as u16, p.subrange(8, be16(p, 4))))
    } else {
        None
    }
}

/// The datagram event a raw frame carries, or `None` where the frame is
/// not a well-formed IP packet holding a well-formed UDP segment.
pub open spec fn datagram_of(f: Seq<u8>) -> Option<UdpMsgModel> {
    match ip_layer(f) {
        None => None,
        Some((src, dst, p)) => match udp_layer(p) {
            None => None,
            Some((sp, dp, data)) => Some((data, (src, sp), (dst, dp))),
        },
    }
}

/// Relies on smoltcp's `Ipv4Packet::new_checked` (its `check_len`), then
/// `src_addr`, `dst_addr` and `payload` (the bytes from the header's end
/// to the total length).
#[verifier::external_body]
fn ipv4_fields(frame: &[u8]) -> (r: Option<([u8; 4], [u8; 4], Vec<u8>)>)
    ensures
        r is Some <==> ipv4_len_ok(frame@),
        r matches Some(x) ==> {
            &&& x.0@ == frame@.subrange(12, 16)
            &&& x.1@ == frame@.subrange(16, 20)
            &&& x.2@ == frame@.subrange(ipv4_header_len(frame@), be16(frame@, 2))
        },
{
    match smoltcp::wire::Ipv4Packet::new_checked(frame) {
        Ok(p) => Some((p.src_addr().octets(), p.dst_addr().octets(), p.payload().to_vec())),
        Err(_) => None,
    }
}

/// Relies on smoltcp's `Ipv6Packet::new_checked` (its `check_len`), then
/// `src_addr`, `dst_addr` and `payload` (the bytes after the fixed header,
/// as many as the payload length field says).
#[verifier::external_body]
fn ipv6_fields(frame: &[u8]) -> (r: Option<([u8; 16], [u8; 16], Vec<u8>)>)
    ensures
        r is Some <==> ipv6_len_ok(frame@),
        r matches Some(x) ==> {
            &&& x.0@ == frame@.subrange(8, 24)
            &&& x.1@ == frame@.subrange(24, 40)
            &&& x.2@ == frame@.subrange(40, 40 + be16(frame@, 4))
        },
{
    match smoltcp::wire::Ipv6Packet::new_checked(frame) {
        Ok(p) => Some((p.src_addr().octets(), p.dst_addr().octets(), p.payload().to_vec())),
        Err(_) => None,
    }
}

/// Relies on smoltcp's `UdpPacket::new_checked` (its `check_len`), then
/// `src_port`, `dst_port` and `payload` (the bytes after the header, up to
/// the length field).
#[verifier::external_body]
fn udp_fields(segment: &[u8]) -> (r: Option<(u16, u16, Vec<u8>)>)
    ensures
        r is Some <==> udp_len_ok(segment@),
        r matches Some(x) ==> {
            &&& x.0 == be16(segment@, 0)
            &&& x.1 == be16(segment@, 2)
            &&& x.2@ == segment@.subrange(8, be16(segment@, 4))
        },
{
    match smoltcp::wire::UdpPacket::new_checked(segment) {
        Ok(p) => Some((p.src_port(), p.dst_port(), p.payload().to_vec())),
        Err(_) => None,
    }
}

/// Reads one raw frame as a datagram event: an IPv4 or IPv6 packet whose
/// payload is a UDP segment. `None` where either layer is malformed.
pub fn parse_datagram(frame: &[u8]) -> (r: Option<UdpMsg>)
    ensures
        r is None <==> datagram_of(frame@) is None,
        r matches Some(m) ==> datagram_of(frame@) == Some(msg_view(m)),
{
    if frame.len() == 0 {
        return None;
    }
    let version: u8 = frame[0] / 16;
    let (src, dst, payload) = if version == 4 {
        match ipv4_fields(frame) {
            Some((s, d, p)) => (IpAddress::V4(s), IpAddress::V4(d), p),
            None => return None,
        }
    } else if version == 6 {
        match ipv6_fields(frame) {
            Some((s, d, p)) => (IpAddress::V6(s), IpAddress::V6(d), p),
            None => return None,
        }
    } else {
        return None;
    };
    match udp_fields(payload.as_slice()) {
        Some((sp, dp, data)) => Some(
            (data, SocketAddress { ip: src, port: sp }, SocketAddress { ip: dst, port: dp }),
        ),
        None => None,
    }
}

/// The bytes of an IPv4 packet without options carrying one UDP datagram,
/// field by field; the two checksum fields are left open.
pub open spec fn ipv4_udp_layout(
    r: Seq<u8>,
    src: Seq<u8>,
    dst: Seq<u8>,
    ttl: u8,
    sp: u16,
    dp: u16,
    payload: Seq<u8>,
) -> bool {
    &&& r.len() == 28 + payload.len()
    &&& r[0] == 0x45u8
    &&& be16(r, 2) == 28 + payload.len()
    &&& r[8] == ttl
    &&& r[9] == PROTOCOL_UDP
    &&& r.subrange(12, 16) == src
    &&& r.subrange(16, 20) == dst
    &&& be16(r, 20) == sp
    &&& be16(r, 22) == dp
    &&& be16(r, 24) == 8 + payload.len()
    &&& r.subrange(28, r.len() as int) == payload
}

/// The bytes of an IPv6 packet without extension headers carrying one UDP
/// datagram, field by field; the UDP checksum field is left open.
pub open spec fn ipv6_udp_layout(
    r: Seq<u8>,
    src: Seq<u8>,
    dst: Seq<u8>,
    hop_limit: u8,
    sp: u16,
    dp: u16,
    payload: Seq<u8>,
) -> bool {
    &&& r.len() == 48 + payload.len()
    &&& r[0] == 0x60u8
    &&& be16(r, 4) == 8 + payload.len()
    &&& r[6] == PROTOCOL_UDP
    &&& r[7] == hop_limit
    &&& r.subrange(8, 24) == src
    &&& r.subrange(24, 40) == dst
    &&& be16(r, 40) == sp
    &&& be16(r, 42) == dp
    &&& be16(r, 44) == 8 + payload.len()
    &&& r.subrange(48, r.len() as int) == payload
}

/// The frame that carries `payload` from `src` to `dst`, with the given
/// time to live (hop limit), where both endpoints share a family.
pub open spec fn frame_layout(
    r: Seq<u8>,
    payload: Seq<u8>,
    src: SocketAddress,
    dst: SocketAddress,
    ttl: u8,
) -> bool {
    match (src.ip, dst.ip) {
        (IpAddress::V4(s), IpAddress::V4(d)) => ipv4_udp_layout(
            r,
            s@,
            d@,
            ttl,
            src.port,
            dst.port,
            payload,
        ),
        (IpAddress::V6(s), IpAddress::V6(d)) => ipv6_udp_layout(
            r,
            s@,
            d@,
            ttl,
            src.port,
            dst.port,
            payload,
        ),
        _ => false,
    }
}

/// Largest payload one frame can carry for an address of this family.
pub open spec fn max_payload(a: IpAddress) -> nat {
    match a {
        IpAddress::V4(_) => IPV4_MAX_PAYLOAD as nat,
        IpAddress::V6(_) => IPV6_MAX_PAYLOAD as nat,
    }
}

/// Relies on etherparse's `PacketBuilder::ipv4(..).udp(..)` and its `write`:
/// an option-less IPv4 header (total length, protocol UDP, the given time to
/// live), a UDP header with its length field, then the payload. `write`
/// fails only past the IPv4 payload limit, which `requires` leaves out.
#[verifier::external_body]
fn write_ipv4_udp(
    src: [u8; 4],
    dst: [u8; 4],
    ttl: u8,
    sp: u16,
    dp: u16,
    payload: &[u8],
) -> (r: Vec<u8>)
    requires
        payload@.len() <= IPV4_MAX_PAYLOAD,
    ensures
        ipv4_udp_layout(r@, src@, dst@, ttl, sp, dp, payload@),
{
    let builder = etherparse::PacketBuilder::ipv4(src, dst, ttl).udp(sp, dp);
    let mut out = Vec::with_capacity(builder.size(payload.len()));
    builder.write(&mut out, payload).expect("payload within the IPv4 limit");
    out
}

/// Relies on etherparse's `PacketBuilder::ipv6(..).udp(..)` and its `write`:
/// a fixed IPv6 header (payload length, next header UDP, the given hop
/// limit), a UDP header with its length field, then the payload. `write`
/// fails only past the IPv6 payload limit, which `requires` leaves out.
#[verifier::external_body]
fn write_ipv6_udp(
    src: [u8; 16],
    dst: [u8; 16],
    hop_limit: u8,
    sp: u16,
    dp: u16,
    payload: &[u8],
) -> (r: Vec<u8>)
    requires
        payload@.len() <= IPV6_MAX_PAYLOAD,
    ensures
        ipv6_udp_layout(r@, src@, dst@, hop_limit, sp, dp, payload@),
{
    let builder = etherparse::PacketBuilder::ipv6(src, dst, hop_limit).udp(sp, dp);
    let mut out = Vec::with_capacity(builder.size(payload.len()));
    builder.write(&mut out, payload).expect("payload within the IPv6 limit");
    out
}

/// Frames `payload` as one UDP datagram from `src` to `dst`. `None` where
/// the two endpoints belong to different address families.
pub fn build_frame(payload: &[u8], src: SocketAddress, dst: SocketAddress, ttl: u8) -> (r: Option<
    Vec<u8>,
>)
    requires
        SocketAddress::same_family(src, dst) ==> payload@.len() <= max_payload(src.ip),
    ensures
        r is None <==> !SocketAddress::same_family(src, dst),
        r matches Some(f) ==> frame_layout(f@, payload@, src, dst, ttl),
{
    match (src.ip, dst.ip) {
        (IpAddress::V4(s), IpAddress::V4(d)) => Some(
            write_ipv4_udp(s, d, ttl, src.port, dst.port, payload),
        ),
        (IpAddress::V6(s), IpAddress::V6(d)) => Some(
            write_ipv6_udp(s, d, ttl, src.port, dst.port, payload),
        ),
        _ => None,
    }
}

/// A frame built for `payload` from `src` to `dst` reads back as the
/// datagram event with that payload, `src` as its source and `dst` as its
/// destination.
pub proof fn lemma_round_trip(
    frame: Seq<u8>,
    payload: Seq<u8>,
    src: SocketAddress,
    dst: SocketAddress,
    ttl: u8,
)
    requires
        frame_layout(frame, payload, src, dst, ttl),
    ensures
        datagram_of(frame) == Some((payload, src@, dst@)),
{
    let n = payload.len() as int;
    if src.ip is V4 {
        assert(ip_version(frame) == 4);
        assert(ipv4_header_len(frame) == 20);
        let p = frame.subrange(20, 28 + n);
        assert(p.len() == 8 + n);
        assert(be16(p, 0) == be16(frame, 20));
        assert(be16(p, 2) == be16(frame, 22));
        assert(be16(p, 4) == be16(frame, 24));
        assert(p.subrange(8, 8 + n) =~= frame.subrange(28, frame.len() as int));
        assert(ip_layer(frame) == Some((src.ip@, dst.ip@, p)));
    } else {
        assert(ip_version(frame) == 6);
        let p = frame.subrange(40, 48 + n);
        assert(p.len() == 8 + n);
        assert(be16(p, 0) == be16(frame, 40));
        assert(be16(p, 2) == be16(frame, 42));
        assert(be16(p, 4) == be16(frame, 44));
        assert(p.subrange(8, 8 + n) =~= frame.subrange(48, frame.len() as int));
        assert(ip_layer(frame) == Some((src.ip@, dst.ip@, p)));
    }
}

} // verus!
