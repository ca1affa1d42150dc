//! What holds of every frame.
//!
//! Each law is stated over [`verdict_of`], which [`sanitize_dns`] is proved to
//! compute, so each holds of every call.
//!
//! [`sanitize_dns`]: crate::classifier::sanitize_dns

use crate::classifier::{
    decision_of, dns_offset, has_transaction_id, is_dns_response, is_tcp, is_udp, link, network,
    source_port, transaction_id, transport_len, transport_offset, verdict_of,
};
use crate::dns::DNS_PORT;
use crate::headers::{
    TcpHdr, ETHERTYPE_IPV4, ETH_HDR_LEN, IPPROTO_TCP, IPPROTO_UDP, IPV4_HDR_LEN, TCP_HDR_LEN,
};
use crate::reader::in_bounds;
use crate::verdict::{Decision, Verdict};
use vstd::math::max3;
use vstd::prelude::*;

verus! {

/// A frame too short for an Ethernet header passes.
pub proof fn law_short_frame_passes(frame: Seq<u8>)
    requires
        frame.len() < ETH_HDR_LEN,
    ensures
        verdict_of(frame) == Verdict::Pass,
        decision_of(frame) == Decision::pass(),
{
}

/// An IPv4/UDP frame from port 53 whose DNS transaction ID is in the frame
/// and is zero is dropped, whatever else the DNS header holds.
///
/// The fixed part of the IPv4 header has to be in the frame too. That goes
/// without saying where the header declares twenty bytes or more for itself;
/// where it declares fewer, the ID may lie inside what should be the header.
pub proof fn law_udp_zero_id_drops(frame: Seq<u8>)
    requires
        link(frame).ether_type == ETHERTYPE_IPV4,
        network(frame).protocol == IPPROTO_UDP,
        source_port(frame) == DNS_PORT,
        has_transaction_id(frame),
        transaction_id(frame) == 0,
        in_bounds(frame, ETH_HDR_LEN as int, IPV4_HDR_LEN as int),
    ensures
        is_udp(frame),
        verdict_of(frame) == Verdict::Drop,
{
}

/// An IPv4/TCP frame from port 53 whose length prefix and DNS transaction ID
/// are in the frame, the ID being zero, is dropped, whatever the prefix and
/// the rest of the DNS header hold.
///
/// The fixed parts of the IPv4 header and of the TCP header have to be in
/// the frame too. That goes without saying where each header declares twenty
/// bytes or more for itself.
pub proof fn law_tcp_zero_id_drops(frame: Seq<u8>)
    requires
        link(frame).ether_type == ETHERTYPE_IPV4,
        network(frame).protocol == IPPROTO_TCP,
        source_port(frame) == DNS_PORT,
        has_transaction_id(frame),
        transaction_id(frame) == 0,
        in_bounds(frame, ETH_HDR_LEN as int, IPV4_HDR_LEN as int),
        in_bounds(frame, transport_offset(frame), TCP_HDR_LEN as int),
    ensures
        is_tcp(frame),
        verdict_of(frame) == Verdict::Drop,
{
}

/// In a frame whose IPv4 header, and TCP header if it has one, declare twenty
/// bytes or more for themselves, every header lies before the end of the DNS
/// transaction ID: a frame that holds the ID holds them all.
pub proof fn law_id_in_frame_means_headers_in_frame(frame: Seq<u8>)
    requires
        has_transaction_id(frame),
        network(frame).protocol == IPPROTO_TCP || network(frame).protocol == IPPROTO_UDP,
        network(frame).header_len() >= IPV4_HDR_LEN,
        network(frame).protocol == IPPROTO_TCP ==> TcpHdr::decode(
            frame,
            transport_offset(frame),
        ).header_len() >= TCP_HDR_LEN,
    ensures
        in_bounds(frame, 0, ETH_HDR_LEN as int),
        in_bounds(frame, ETH_HDR_LEN as int, IPV4_HDR_LEN as int),
        in_bounds(frame, transport_offset(frame), transport_len(frame)),
        decisive_len(frame) == dns_offset(frame) + 2,
{
}

/// A frame whose ether-type is not IPv4, or whose protocol is neither TCP nor
/// UDP, or whose source port is not 53, passes.
pub proof fn law_other_traffic_passes(frame: Seq<u8>)
    requires
        link(frame).ether_type != ETHERTYPE_IPV4 || (network(frame).protocol != IPPROTO_TCP
            && network(frame).protocol != IPPROTO_UDP) || source_port(frame) != DNS_PORT,
    ensures
        verdict_of(frame) == Verdict::Pass,
        decision_of(frame) == Decision::pass(),
{
}

/// A DNS response whose transaction ID is not zero passes, whatever its
/// flags, its answer count and its authority count are.
pub proof fn law_nonzero_id_passes(frame: Seq<u8>)
    requires
        is_dns_response(frame),
        transaction_id(frame) != 0,
    ensures
        verdict_of(frame) == Verdict::Pass,
{
}

/// Judging the same bytes twice gives the same decision: a decision that
/// [`sanitize_dns`](crate::classifier::sanitize_dns) returns for a frame is a
/// function of the frame's bytes and of nothing else.
pub proof fn law_same_frame_same_decision(
    first_frame: Seq<u8>,
    second_frame: Seq<u8>,
    first: Decision,
    second: Decision,
)
    requires
        first_frame == second_frame,
        first == decision_of(first_frame),
        second == decision_of(second_frame),
    ensures
        first == second,
        first.verdict == second.verdict,
{
}

/// How many leading bytes of a frame a drop rests on: the Ethernet and IPv4
/// headers, the transport header, and the DNS transaction ID, whichever ends
/// last.
pub open spec fn decisive_len(frame: Seq<u8>) -> int {
    let network_end = ETH_HDR_LEN + IPV4_HDR_LEN;
    let transport_end = transport_offset(frame) + transport_len(frame);
    let id_end = dns_offset(frame) + 2;
    max3(network_end, transport_end, id_end)
}

/// A frame cut exactly one byte short of the end of a header field that a
/// drop rests on passes. `field_end` is where the Ethernet header ends, or
/// the IPv4 header, or the transport header, or what precedes the DNS header,
/// or the DNS transaction ID.
pub proof fn law_one_byte_short_passes(frame: Seq<u8>, field_end: int)
    requires
        field_end == ETH_HDR_LEN || field_end == ETH_HDR_LEN + IPV4_HDR_LEN || field_end
            == transport_offset(frame) + transport_len(frame) || field_end == dns_offset(frame)
            || field_end == dns_offset(frame) + 2,
        field_end - 1 <= frame.len(),
    ensures
        verdict_of(frame.take(field_end - 1)) == Verdict::Pass,
{
}

/// A frame cut anywhere short of the bytes that a drop rests on passes.
pub proof fn law_cut_short_passes(frame: Seq<u8>, keep: int)
    requires
        0 <= keep <= frame.len(),
        keep < decisive_len(frame),
    ensures
        verdict_of(frame.take(keep)) == Verdict::Pass,
{
}

/// A cut that leaves the bytes that a drop rests on leaves the verdict as it
/// was: no byte past them plays a part in it.
pub proof fn law_cut_long_keeps_verdict(frame: Seq<u8>, keep: int)
    requires
        0 <= keep <= frame.len(),
        keep >= decisive_len(frame),
    ensures
        verdict_of(frame.take(keep)) == verdict_of(frame),
{
}

} // verus!
