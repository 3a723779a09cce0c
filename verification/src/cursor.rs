//! Bounds-checked access to the headers of a packet.
//!
//! A [`HeaderCursor`] hands out a window of the packet only after checking that
//! the whole window lies inside the buffer. A header view is such a window of
//! exactly the header's length, so reading one of its fields cannot leave the
//! buffer.

use crate::wire::{
    be16, eth_hdr_len, eth_hdr_size, ether_type_ipv4, ether_type_ipv4_bytes, ip_proto_udp,
    ip_proto_udp_number, ipv4_declared_len, ipv4_hdr_len, ipv4_hdr_size, ipv4_ihl, udp_dst_port,
    udp_hdr_len, udp_hdr_size, ETHER_TYPE_OFFSET, IPV4_PROTO_OFFSET, IPV4_VIHL_OFFSET,
    UDP_DST_PORT_OFFSET,
};
use vstd::prelude::*;
use vstd::slice::slice_subrange;

verus! {

/// A header access would have read past the end of the packet buffer.
#[derive(Clone, Copy, Debug, PartialEq, Eq, Structural)]
pub struct BoundsError;

/// Whether the `size` bytes that start at `offset` lie inside a buffer of
/// `len` bytes.
pub open spec fn in_bounds(len: nat, offset: int, size: int) -> bool {
    0 <= offset && 0 <= size && offset + size <= len
}

/// Whether an Ethernet header carries the ether-type of IPv4.
pub open spec fn eth_is_ipv4(eth: Seq<u8>) -> bool {
    be16(eth[ETHER_TYPE_OFFSET as int], eth[ETHER_TYPE_OFFSET + 1]) == ether_type_ipv4()
}

/// Whether an IPv4 header carries the protocol number of UDP.
pub open spec fn ipv4_is_udp(ip: Seq<u8>) -> bool {
    ip[IPV4_PROTO_OFFSET as int] == ip_proto_udp()
}

/// The length in bytes that an IPv4 header declares for itself.
pub open spec fn ipv4_header_len(ip: Seq<u8>) -> int {
    ipv4_declared_len(ip[IPV4_VIHL_OFFSET as int])
}

/// The destination port of a UDP header, in host byte order.
pub open spec fn udp_dst(udp: Seq<u8>) -> int {
    be16(udp[UDP_DST_PORT_OFFSET as int], udp[UDP_DST_PORT_OFFSET + 1])
}

/// A read-only view of a packet buffer that checks every access against the
/// end of the buffer.
#[derive(Clone, Copy, Debug)]
pub struct HeaderCursor<'a> {
    buf: &'a [u8],
}

impl<'a> View for HeaderCursor<'a> {
    type V = Seq<u8>;

    closed spec fn view(&self) -> Seq<u8> {
        self.buf@
    }
}

/// The Ethernet header of a packet: fourteen bytes of the packet buffer.
#[derive(Clone, Copy, Debug)]
pub struct EthHdrView<'a> {
    bytes: &'a [u8],
}

/// The fixed part of the IPv4 header of a packet: twenty bytes of the packet
/// buffer.
#[derive(Clone, Copy, Debug)]
pub struct Ipv4HdrView<'a> {
    bytes: &'a [u8],
}

/// The UDP header of a packet: eight bytes of the packet buffer.
#[derive(Clone, Copy, Debug)]
pub struct UdpHdrView<'a> {
    bytes: &'a [u8],
}

impl<'a> View for EthHdrView<'a> {
    type V = Seq<u8>;

    closed spec fn view(&self) -> Seq<u8> {
        self.bytes@
    }
}

impl<'a> View for Ipv4HdrView<'a> {
    type V = Seq<u8>;

    closed spec fn view(&self) -> Seq<u8> {
        self.bytes@
    }
}

impl<'a> View for UdpHdrView<'a> {
    type V = Seq<u8>;

    closed spec fn view(&self) -> Seq<u8> {
        self.bytes@
    }
}

impl<'a> HeaderCursor<'a> {
    /// A cursor over `buf`.
    pub fn new(buf: &'a [u8]) -> (cursor: HeaderCursor<'a>)
        ensures
            cursor@ == buf@,
    {
        HeaderCursor { buf }
    }

    /// The length of the buffer.
    pub fn len(&self) -> (n: usize)
        ensures
            n == self@.len(),
    {
        self.buf.len()
    }

    /// The `size` bytes of the buffer that start at `offset`, if all of them
    /// lie inside the buffer; a bounds error otherwise. The check cannot be
    /// misled by an `offset + size` that exceeds `usize::MAX`.
    pub fn read_at(&self, offset: usize, size: usize) -> (window: Result<&'a [u8], BoundsError>)
        ensures
            window.is_ok() == in_bounds(self@.len(), offset as int, size as int),
            window matches Ok(w) ==> w@ == self@.subrange(offset as int, offset + size),
    {
        let len = self.buf.len();
        if offset > len || size > len - offset {
            Err(BoundsError)
        } else {
            Ok(slice_subrange(self.buf, offset, offset + size))
        }
    }

    /// The Ethernet header that starts at `offset`, if it lies inside the
    /// buffer.
    pub fn eth_at(&self, offset: usize) -> (hdr: Result<EthHdrView<'a>, BoundsError>)
        ensures
            hdr.is_ok() == in_bounds(self@.len(), offset as int, eth_hdr_len() as int),
            hdr matches Ok(h) ==> h@ == self@.subrange(offset as int, offset + eth_hdr_len()),
    {
        match self.read_at(offset, eth_hdr_size()) {
            Ok(bytes) => Ok(EthHdrView { bytes }),
            Err(e) => Err(e),
        }
    }

    /// The fixed part of the IPv4 header that starts at `offset`, if it lies
    /// inside the buffer.
    pub fn ipv4_at(&self, offset: usize) -> (hdr: Result<Ipv4HdrView<'a>, BoundsError>)
        ensures
            hdr.is_ok() == in_bounds(self@.len(), offset as int, ipv4_hdr_len() as int),
            hdr matches Ok(h) ==> h@ == self@.subrange(offset as int, offset + ipv4_hdr_len()),
    {
        match self.read_at(offset, ipv4_hdr_size()) {
            Ok(bytes) => Ok(Ipv4HdrView { bytes }),
            Err(e) => Err(e),
        }
    }

    /// The UDP header that starts at `offset`, if it lies inside the buffer.
    pub fn udp_at(&self, offset: usize) -> (hdr: Result<UdpHdrView<'a>, BoundsError>)
        ensures
            hdr.is_ok() == in_bounds(self@.len(), offset as int, udp_hdr_len() as int),
            hdr matches Ok(h) ==> h@ == self@.subrange(offset as int, offset + udp_hdr_len()),
    {
        match self.read_at(offset, udp_hdr_size()) {
            Ok(bytes) => Ok(UdpHdrView { bytes }),
            Err(e) => Err(e),
        }
    }
}

impl<'a> EthHdrView<'a> {
    #[verifier::type_invariant]
    spec fn well_formed(self) -> bool {
        self.bytes@.len() == eth_hdr_len()
    }

    /// Whether the frame carries IPv4.
    pub fn is_ipv4(&self) -> (b: bool)
        ensures
            b == eth_is_ipv4(self@),
    {
        proof {
            use_type_invariant(self);
        }
        let ipv4 = ether_type_ipv4_bytes();
        self.bytes[ETHER_TYPE_OFFSET] == ipv4[0] && self.bytes[ETHER_TYPE_OFFSET + 1] == ipv4[1]
    }
}

impl<'a> Ipv4HdrView<'a> {
    #[verifier::type_invariant]
    spec fn well_formed(self) -> bool {
        self.bytes@.len() == ipv4_hdr_len()
    }

    /// Whether the packet carries UDP.
    pub fn is_udp(&self) -> (b: bool)
        ensures
            b == ipv4_is_udp(self@),
    {
        proof {
            use_type_invariant(self);
        }
        self.bytes[IPV4_PROTO_OFFSET] == ip_proto_udp_number()
    }

    /// The length in bytes that the header declares for itself, options
    /// included: between 0 and 60.
    pub fn header_len(&self) -> (len: usize)
        ensures
            len == ipv4_header_len(self@),
    {
        proof {
            use_type_invariant(self);
        }
        ipv4_ihl(self.bytes[IPV4_VIHL_OFFSET]) as usize
    }
}

impl<'a> UdpHdrView<'a> {
    #[verifier::type_invariant]
    spec fn well_formed(self) -> bool {
        self.bytes@.len() == udp_hdr_len()
    }

    /// The destination port, in host byte order.
    pub fn dst_port(&self) -> (port: u16)
        ensures
            port == udp_dst(self@),
    {
        proof {
            use_type_invariant(self);
        }
        udp_dst_port([self.bytes[UDP_DST_PORT_OFFSET], self.bytes[UDP_DST_PORT_OFFSET + 1]])
    }
}

} // verus!
