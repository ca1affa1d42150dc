//! The classifier: one frame in, one decision out.
//!
//! The frame is walked once, front to back: Ethernet header, IPv4 header,
//! TCP or UDP header, DNS transaction ID, DNS header fields. The walk ends at
//! the first header that shows the frame to be something other than a DNS
//! response, and at the first read that the frame is too short for. Either
//! way the frame passes.

use crate::dns::{check_dns_header, spec_check_dns_header, DnsHeader, DNS_PORT, DNS_TCP_PREFIX_LEN};
use crate::headers::{
    EthHdr, Ipv4Hdr, TcpHdr, UdpHdr, ETHERTYPE_IPV4, ETH_HDR_LEN, IPPROTO_TCP, IPPROTO_UDP,
    IPV4_HDR_LEN, TCP_HDR_LEN, UDP_HDR_LEN,
};
use crate::reader::{be16, in_bounds, read_be16, BoundsError};
use crate::verdict::{Decision, Reason, Source, Verdict};
use vstd::prelude::*;

verus! {

/// The frame's link-layer header, which starts the frame.
pub open spec fn link(frame: Seq<u8>) -> EthHdr {
    EthHdr::decode(frame, 0)
}

/// The frame's network-layer header, which follows the link-layer header.
pub open spec fn network(frame: Seq<u8>) -> Ipv4Hdr {
    Ipv4Hdr::decode(frame, ETH_HDR_LEN as int)
}

/// Where the transport-layer header starts: after the link-layer header and
/// as many bytes as the IPv4 header declares for itself.
pub open spec fn transport_offset(frame: Seq<u8>) -> int {
    ETH_HDR_LEN + network(frame).header_len()
}

/// The frame holds an Ethernet header that announces IPv4, and the fixed part
/// of an IPv4 header.
pub open spec fn is_ipv4(frame: Seq<u8>) -> bool {
    &&& in_bounds(frame, 0, ETH_HDR_LEN as int)
    &&& link(frame).ether_type == ETHERTYPE_IPV4
    &&& in_bounds(frame, ETH_HDR_LEN as int, IPV4_HDR_LEN as int)
}

/// How many bytes are read as the transport-layer header: the fixed part of
/// a TCP header, or a UDP header.
pub open spec fn transport_len(frame: Seq<u8>) -> int {
    if network(frame).protocol == IPPROTO_TCP {
        TCP_HDR_LEN as int
    } else {
        UDP_HDR_LEN as int
    }
}

/// The frame is IPv4, announces TCP, and holds the fixed part of a TCP header.
pub open spec fn is_tcp(frame: Seq<u8>) -> bool {
    &&& is_ipv4(frame)
    &&& network(frame).protocol == IPPROTO_TCP
    &&& in_bounds(frame, transport_offset(frame), transport_len(frame))
}

/// The frame is IPv4, announces UDP, and holds a UDP header.
pub open spec fn is_udp(frame: Seq<u8>) -> bool {
    &&& is_ipv4(frame)
    &&& network(frame).protocol == IPPROTO_UDP
    &&& in_bounds(frame, transport_offset(frame), transport_len(frame))
}

/// The source port, which opens a TCP header and a UDP header alike.
pub open spec fn source_port(frame: Seq<u8>) -> u16 {
    be16(frame[transport_offset(frame)], frame[transport_offset(frame) + 1])
}

/// The frame claims to be a DNS response: TCP or UDP from the DNS port.
pub open spec fn is_dns_response(frame: Seq<u8>) -> bool {
    (is_tcp(frame) || is_udp(frame)) && source_port(frame) == DNS_PORT
}

/// Where the DNS header starts: right after a UDP header; after a TCP header
/// of the length it declares for itself, and the length prefix of DNS over
/// TCP.
pub open spec fn dns_offset(frame: Seq<u8>) -> int {
    if network(frame).protocol == IPPROTO_UDP {
        transport_offset(frame) + UDP_HDR_LEN
    } else {
        transport_offset(frame) + TcpHdr::decode(frame, transport_offset(frame)).header_len()
            + DNS_TCP_PREFIX_LEN
    }
}

/// The two bytes of the DNS transaction ID are in the frame.
pub open spec fn has_transaction_id(frame: Seq<u8>) -> bool {
    in_bounds(frame, dns_offset(frame), 2)
}

/// The DNS transaction ID: the first two bytes of the DNS header.
pub open spec fn transaction_id(frame: Seq<u8>) -> u16 {
    be16(frame[dns_offset(frame)], frame[dns_offset(frame) + 1])
}

/// Where the frame claims to come from.
pub open spec fn source(frame: Seq<u8>) -> Source {
    Source {
        addr: network(frame).source_addr,
        port: source_port(frame),
        protocol: network(frame).protocol,
    }
}

/// The verdict on a frame: dropped if it claims to be a DNS response and
/// carries the transaction ID zero, passed in every other case.
pub open spec fn verdict_of(frame: Seq<u8>) -> Verdict {
    if is_dns_response(frame) && has_transaction_id(frame) && transaction_id(frame) == 0 {
        Verdict::Drop
    } else {
        Verdict::Pass
    }
}

/// The decision on a frame: its verdict, and the record of a DNS response
/// that was noted.
pub open spec fn decision_of(frame: Seq<u8>) -> Decision {
    if is_dns_response(frame) && has_transaction_id(frame) {
        if transaction_id(frame) == 0 {
            Decision::noted(source(frame), Reason::ZeroTransactionId)
        } else if DnsHeader::readable(frame, dns_offset(frame)) && DnsHeader::decode(
            frame,
            dns_offset(frame),
        ).authoritative() {
            Decision::noted(source(frame), Reason::AuthoritativeAnswer)
        } else {
            Decision::pass()
        }
    } else {
        Decision::pass()
    }
}

/// What [`try_sanitize_dns`] returns: the walk through the frame, stage by
/// stage. A stage that the frame is too short for ends it with an error; a
/// header that rules out a DNS response ends it with a pass.
pub open spec fn spec_try_sanitize_dns(frame: Seq<u8>) -> Result<Decision, BoundsError> {
    if !in_bounds(frame, 0, ETH_HDR_LEN as int) {
        Err(BoundsError)
    } else if link(frame).ether_type != ETHERTYPE_IPV4 {
        Ok(Decision::pass())
    } else if !in_bounds(frame, ETH_HDR_LEN as int, IPV4_HDR_LEN as int) {
        Err(BoundsError)
    } else if network(frame).protocol != IPPROTO_TCP && network(frame).protocol != IPPROTO_UDP {
        Ok(Decision::pass())
    } else if !in_bounds(frame, transport_offset(frame), transport_len(frame)) {
        Err(BoundsError)
    } else if source_port(frame) != DNS_PORT {
        Ok(Decision::pass())
    } else if !has_transaction_id(frame) {
        Err(BoundsError)
    } else {
        spec_check_dns_header(frame, dns_offset(frame), transaction_id(frame), source(frame))
    }
}

/// The walk and the decision agree: where the walk ends in a decision, it is
/// the frame's decision; where it ends in an error, the frame passes without
/// a word. The verdict of the decision is the frame's verdict.
pub proof fn lemma_walk_decides(frame: Seq<u8>)
    ensures
        decision_of(frame).verdict == verdict_of(frame),
        decision_of(frame) == match spec_try_sanitize_dns(frame) {
            Ok(decision) => decision,
            Err(_) => Decision::pass(),
        },
{
}

/// Walks through the frame and judges it, or reports the first read that the
/// frame was too short for.
pub fn try_sanitize_dns(frame: &[u8]) -> (outcome: Result<Decision, BoundsError>)
    ensures
        outcome == spec_try_sanitize_dns(frame@),
{
    let eth = EthHdr::read(frame, 0)?;
    if eth.ether_type != ETHERTYPE_IPV4 {
        return Ok(Decision::pass());
    }
    let ip = Ipv4Hdr::read(frame, ETH_HDR_LEN)?;
    let transport_offset: usize = ETH_HDR_LEN + ip.header_len();

    let source_port: u16;
    let dns_offset: usize;
    if ip.protocol == IPPROTO_TCP {
        let tcp = TcpHdr::read(frame, transport_offset)?;
        source_port = tcp.source_port;
        dns_offset = transport_offset + tcp.header_len() + DNS_TCP_PREFIX_LEN;
    } else if ip.protocol == IPPROTO_UDP {
        let udp = UdpHdr::read(frame, transport_offset)?;
        source_port = udp.source_port;
        dns_offset = transport_offset + UDP_HDR_LEN;
    } else {
        return Ok(Decision::pass());
    }

    // Only what claims to come from a DNS server is looked into.
    if source_port != DNS_PORT {
        return Ok(Decision::pass());
    }
    let transaction_id = read_be16(frame, dns_offset)?;
    let source = Source { addr: ip.source_addr, port: source_port, protocol: ip.protocol };
    check_dns_header(frame, dns_offset, transaction_id, source)
}

/// Judges one frame. Always answers: a frame that is too short for a read
/// passes, like one that is no DNS response.
pub fn sanitize_dns(frame: &[u8]) -> (decision: Decision)
    ensures
        decision == decision_of(frame@),
        decision.verdict == verdict_of(frame@),
{
    proof {
        lemma_walk_decides(frame@);
    }
    match try_sanitize_dns(frame) {
        Ok(decision) => decision,
        Err(_) => Decision::pass(),
    }
}

} // verus!
