//! Header views: the fields of each layer that the classifier reads.
//!
//! A view is decoded from a window of the frame that the bounded reader has
//! granted. The bytes are taken as they come: a length field that no sane
//! sender would write is decoded like any other.

use crate::reader::{be16, be32, in_bounds, ptr_at, BoundsError};
use vstd::prelude::*;

verus! {

/// Length of an Ethernet header.
pub const ETH_HDR_LEN: usize = 14;

/// Length of an IPv4 header without options.
pub const IPV4_HDR_LEN: usize = 20;

/// Length of a TCP header without options.
pub const TCP_HDR_LEN: usize = 20;

/// Length of a UDP header.
pub const UDP_HDR_LEN: usize = 8;

/// Ether-type of IPv4.
pub const ETHERTYPE_IPV4: u16 = 0x0800;

/// IPv4 protocol number of TCP.
pub const IPPROTO_TCP: u8 = 6;

/// IPv4 protocol number of UDP.
pub const IPPROTO_UDP: u8 = 17;

/// Link-layer header view.
#[derive(Debug, Clone, Copy, PartialEq, Eq, Structural)]
pub struct EthHdr {
    /// Bytes 12 and 13, big-endian.
    pub ether_type: u16,
}

/// Network-layer header view.
#[derive(Debug, Clone, Copy, PartialEq, Eq, Structural)]
pub struct Ipv4Hdr {
    /// Header length in 32-bit words: the low four bits of byte 0.
    pub ihl: u8,
    /// Bytes 4 and 5, big-endian. No rule reads it.
    pub identification: u16,
    /// Byte 9.
    pub protocol: u8,
    /// Bytes 12 to 15, big-endian.
    pub source_addr: u32,
}

/// Transport-layer header view of a TCP segment.
#[derive(Debug, Clone, Copy, PartialEq, Eq, Structural)]
pub struct TcpHdr {
    /// Bytes 0 and 1, big-endian.
    pub source_port: u16,
    /// Header length in 32-bit words: the high four bits of byte 12.
    pub data_offset: u8,
}

/// Transport-layer header view of a UDP datagram.
#[derive(Debug, Clone, Copy, PartialEq, Eq, Structural)]
pub struct UdpHdr {
    /// Bytes 0 and 1, big-endian.
    pub source_port: u16,
}

impl EthHdr {
    /// The view of the header that starts at `offset`.
    pub open spec fn decode(frame: Seq<u8>, offset: int) -> EthHdr {
        EthHdr { ether_type: be16(frame[offset + 12], frame[offset + 13]) }
    }

    /// Reads the header that starts at `offset`, if all of its
    /// [`ETH_HDR_LEN`] bytes are in the frame.
    pub fn read(frame: &[u8], offset: usize) -> (hdr: Result<EthHdr, BoundsError>)
        ensures
            in_bounds(frame@, offset as int, ETH_HDR_LEN as int) ==> hdr == Ok::<
                EthHdr,
                BoundsError,
            >(EthHdr::decode(frame@, offset as int)),
            !in_bounds(frame@, offset as int, ETH_HDR_LEN as int) ==> hdr is Err,
    {
        let view = ptr_at(frame, offset, ETH_HDR_LEN)?;
        Ok(EthHdr { ether_type: be16(view[12], view[13]) })
    }
}

impl Ipv4Hdr {
    /// The view of the header that starts at `offset`.
    pub open spec fn decode(frame: Seq<u8>, offset: int) -> Ipv4Hdr {
        Ipv4Hdr {
            ihl: frame[offset] % 16,
            identification: be16(frame[offset + 4], frame[offset + 5]),
            protocol: frame[offset + 9],
            source_addr: be32(
                frame[offset + 12],
                frame[offset + 13],
                frame[offset + 14],
                frame[offset + 15],
            ),
        }
    }

    /// Reads the header that starts at `offset`, if all of its
    /// [`IPV4_HDR_LEN`] fixed bytes are in the frame.
    pub fn read(frame: &[u8], offset: usize) -> (hdr: Result<Ipv4Hdr, BoundsError>)
        ensures
            in_bounds(frame@, offset as int, IPV4_HDR_LEN as int) ==> hdr == Ok::<
                Ipv4Hdr,
                BoundsError,
            >(Ipv4Hdr::decode(frame@, offset as int)),
            !in_bounds(frame@, offset as int, IPV4_HDR_LEN as int) ==> hdr is Err,
    {
        let view = ptr_at(frame, offset, IPV4_HDR_LEN)?;
        let version_ihl: u8 = view[0];
        assert(version_ihl & 0x0f == version_ihl % 16) by (bit_vector);
        Ok(
            Ipv4Hdr {
                ihl: version_ihl & 0x0f,
                identification: be16(view[4], view[5]),
                protocol: view[9],
                source_addr: be32(view[12], view[13], view[14], view[15]),
            },
        )
    }

    /// Header length in bytes, as the header itself declares it.
    pub open spec fn spec_header_len(&self) -> usize {
        (self.ihl * 4) as usize
    }

    /// Header length in bytes, as the header itself declares it.
    #[verifier::when_used_as_spec(spec_header_len)]
    pub fn header_len(&self) -> (len: usize)
        ensures
            len == self.spec_header_len(),
    {
        (self.ihl as usize) * 4
    }
}

impl TcpHdr {
    /// The view of the header that starts at `offset`.
    pub open spec fn decode(frame: Seq<u8>, offset: int) -> TcpHdr {
        TcpHdr {
            source_port: be16(frame[offset], frame[offset + 1]),
            data_offset: frame[offset + 12] / 16,
        }
    }

    /// Reads the header that starts at `offset`, if all of its
    /// [`TCP_HDR_LEN`] fixed bytes are in the frame.
    pub fn read(frame: &[u8], offset: usize) -> (hdr: Result<TcpHdr, BoundsError>)
        ensures
            in_bounds(frame@, offset as int, TCP_HDR_LEN as int) ==> hdr == Ok::<
                TcpHdr,
                BoundsError,
            >(TcpHdr::decode(frame@, offset as int)),
            !in_bounds(frame@, offset as int, TCP_HDR_LEN as int) ==> hdr is Err,
    {
        let view = ptr_at(frame, offset, TCP_HDR_LEN)?;
        let offset_reserved: u8 = view[12];
        assert(offset_reserved >> 4 == offset_reserved / 16) by (bit_vector);
        Ok(TcpHdr { source_port: be16(view[0], view[1]), data_offset: offset_reserved >> 4 })
    }

    /// Header length in bytes, as the header itself declares it.
    pub open spec fn spec_header_len(&self) -> usize {
        (self.data_offset * 4) as usize
    }

    /// Header length in bytes, as the header itself declares it.
    #[verifier::when_used_as_spec(spec_header_len)]
    pub fn header_len(&self) -> (len: usize)
        ensures
            len == self.spec_header_len(),
    {
        (self.data_offset as usize) * 4
    }
}

impl UdpHdr {
    /// The view of the header that starts at `offset`.
    pub open spec fn decode(frame: Seq<u8>, offset: int) -> UdpHdr {
        UdpHdr { source_port: be16(frame[offset], frame[offset + 1]) }
    }

    /// Reads the header that starts at `offset`, if all of its
    /// [`UDP_HDR_LEN`] bytes are in the frame.
    pub fn read(frame: &[u8], offset: usize) -> (hdr: Result<UdpHdr, BoundsError>)
        ensures
            in_bounds(frame@, offset as int, UDP_HDR_LEN as int) ==> hdr == Ok::<
                UdpHdr,
                BoundsError,
            >(UdpHdr::decode(frame@, offset as int)),
            !in_bounds(frame@, offset as int, UDP_HDR_LEN as int) ==> hdr is Err,
    {
        let view = ptr_at(frame, offset, UDP_HDR_LEN)?;
        Ok(UdpHdr { source_port: be16(view[0], view[1]) })
    }
}

/// The name of a transport protocol, for the log.
pub fn protocol_to_str(protocol: u8) -> (name: &'static str)
    ensures
        protocol == IPPROTO_TCP ==> name@ == "TCP"@,
        protocol == IPPROTO_UDP ==> name@ == "UDP"@,
        protocol != IPPROTO_TCP && protocol != IPPROTO_UDP ==> name@ == "OTHER"@,
{
    if protocol == IPPROTO_TCP {
        "TCP"
    } else if protocol == IPPROTO_UDP {
        "UDP"
    } else {
        "OTHER"
    }
}

} // verus!
