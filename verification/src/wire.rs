//! The wire format of the headers that the classifier reads, and the facts
//! about it that are taken from the `network_types` crate.
//!
//! All multi-byte header fields are big-endian on the wire.

use network_types::eth::{EthHdr, EtherType};
use network_types::ip::{IpProto, Ipv4Hdr};
use network_types::udp::UdpHdr;
use vstd::prelude::*;

verus! {

/// Offset of the two-byte ether-type field in an Ethernet header.
pub const ETHER_TYPE_OFFSET: usize = 12;

/// Offset of the version and header-length byte in an IPv4 header.
pub const IPV4_VIHL_OFFSET: usize = 0;

/// Offset of the protocol byte in an IPv4 header.
pub const IPV4_PROTO_OFFSET: usize = 9;

/// Offset of the two-byte destination port in a UDP header.
pub const UDP_DST_PORT_OFFSET: usize = 2;

/// Length of an Ethernet header in bytes.
pub open spec fn eth_hdr_len() -> nat {
    14
}

/// Length of an IPv4 header without options in bytes.
pub open spec fn ipv4_hdr_len() -> nat {
    20
}

/// Length of a UDP header in bytes.
pub open spec fn udp_hdr_len() -> nat {
    8
}

/// The ether-type of IPv4.
pub open spec fn ether_type_ipv4() -> int {
    0x0800
}

/// The IPv4 protocol number of UDP.
pub open spec fn ip_proto_udp() -> int {
    17
}

/// The value of a two-byte big-endian field.
pub open spec fn be16(hi: u8, lo: u8) -> int {
    hi as int * 256 + lo as int
}

/// The length in bytes that an IPv4 header declares in its version and
/// header-length byte: the low four bits, counted in units of four bytes.
pub open spec fn ipv4_declared_len(vihl: u8) -> int {
    (vihl as int % 16) * 4
}

/// `network_types::eth::EthHdr::LEN`, the size of that crate's Ethernet header
/// struct: two six-byte addresses and a two-byte ether-type, fourteen bytes.
#[verifier::external_body]
pub(crate) fn eth_hdr_size() -> (n: usize)
    ensures
        n == eth_hdr_len(),
{
    EthHdr::LEN
}

/// `network_types::ip::Ipv4Hdr::LEN`, the size of that crate's IPv4 header
/// struct, which holds the fixed part of the header: twenty bytes.
#[verifier::external_body]
pub(crate) fn ipv4_hdr_size() -> (n: usize)
    ensures
        n == ipv4_hdr_len(),
{
    Ipv4Hdr::LEN
}

/// `network_types::udp::UdpHdr::LEN`, the size of that crate's UDP header
/// struct: four two-byte fields, eight bytes.
#[verifier::external_body]
pub(crate) fn udp_hdr_size() -> (n: usize)
    ensures
        n == udp_hdr_len(),
{
    UdpHdr::LEN
}

/// The two bytes that an IPv4 frame carries in its ether-type field, from
/// `network_types::eth::EtherType::Ipv4`. That crate defines the variant as
/// 0x0800 stored in network byte order, so its bytes in memory are 0x08, 0x00
/// on every target.
#[verifier::external_body]
pub(crate) fn ether_type_ipv4_bytes() -> (bytes: [u8; 2])
    ensures
        be16(bytes[0], bytes[1]) == ether_type_ipv4(),
{
    u16::from(EtherType::Ipv4).to_ne_bytes()
}

/// The protocol number of UDP, from `network_types::ip::IpProto::Udp`, which
/// that crate defines as 17.
#[verifier::external_body]
pub(crate) fn ip_proto_udp_number() -> (proto: u8)
    ensures
        proto == ip_proto_udp(),
{
    u8::from(IpProto::Udp)
}

/// `network_types::ip::Ipv4Hdr::ihl` on a header whose first byte is `vihl`.
/// The method reads that byte alone and returns the header length in bytes:
/// the low four bits shifted left by two.
#[verifier::external_body]
pub(crate) fn ipv4_ihl(vihl: u8) -> (len: u8)
    ensures
        len == ipv4_declared_len(vihl),
{
    Ipv4Hdr {
        vihl,
        tos: 0,
        tot_len: [0; 2],
        id: [0; 2],
        frags: [0; 2],
        ttl: 0,
        proto: 0,
        check: [0; 2],
        src_addr: [0; 4],
        dst_addr: [0; 4],
    }.ihl()
}

/// `network_types::udp::UdpHdr::dst_port` on a header whose destination field
/// holds `dst`. The method reads that field alone and converts it from network
/// byte order: the first byte is the high one.
#[verifier::external_body]
pub(crate) fn udp_dst_port(dst: [u8; 2]) -> (port: u16)
    ensures
        port == be16(dst[0], dst[1]),
{
    UdpHdr { src: [0; 2], dst, len: [0; 2], check: [0; 2] }.dst_port()
}

} // verus!
