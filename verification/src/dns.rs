//! The DNS message header and the rules that judge a response by it.
//!
//! The header is twelve bytes of six big-endian 16-bit fields: transaction
//! ID, flags, question count, answer count, authority count and additional
//! count.

use crate::reader::{be16, in_bounds, offset_by, read_be16, BoundsError};
use crate::verdict::{Decision, Reason, Source};
use vstd::prelude::*;

verus! {

/// The port that DNS servers answer from.
pub const DNS_PORT: u16 = 53;

/// Length of the length prefix that precedes a DNS message sent over TCP.
pub const DNS_TCP_PREFIX_LEN: usize = 2;

/// The authoritative-answer bit of the flags field.
pub const DNS_FLAG_AA: u16 = 0x0400;

/// Where the flags field starts within the DNS header.
pub const DNS_FLAGS_AT: usize = 2;

/// Where the answer count starts within the DNS header.
pub const DNS_ANSWERS_AT: usize = 6;

/// Where the authority count starts within the DNS header.
pub const DNS_AUTHORITIES_AT: usize = 8;

/// DNS header view: the fields past the transaction ID that the rules read.
#[derive(Debug, Clone, Copy, PartialEq, Eq, Structural)]
pub struct DnsHeader {
    /// Bytes 2 and 3, big-endian.
    pub flags: u16,
    /// Bytes 6 and 7, big-endian.
    pub answer_count: u16,
    /// Bytes 8 and 9, big-endian.
    pub authority_count: u16,
}

impl DnsHeader {
    /// All three fields of the header that starts at `offset` are in the
    /// frame.
    pub open spec fn readable(frame: Seq<u8>, offset: int) -> bool {
        in_bounds(frame, offset + DNS_FLAGS_AT, 2) && in_bounds(frame, offset + DNS_ANSWERS_AT, 2)
            && in_bounds(frame, offset + DNS_AUTHORITIES_AT, 2)
    }

    /// The view of the header that starts at `offset`.
    pub open spec fn decode(frame: Seq<u8>, offset: int) -> DnsHeader {
        DnsHeader {
            flags: be16(frame[offset + DNS_FLAGS_AT], frame[offset + DNS_FLAGS_AT + 1]),
            answer_count: be16(frame[offset + DNS_ANSWERS_AT], frame[offset + DNS_ANSWERS_AT + 1]),
            authority_count: be16(
                frame[offset + DNS_AUTHORITIES_AT],
                frame[offset + DNS_AUTHORITIES_AT + 1],
            ),
        }
    }

    /// Reads the three fields of the header that starts at `offset`, each by
    /// a bounded read of its own.
    pub fn read(frame: &[u8], offset: usize) -> (hdr: Result<DnsHeader, BoundsError>)
        ensures
            DnsHeader::readable(frame@, offset as int) ==> hdr == Ok::<DnsHeader, BoundsError>(
                DnsHeader::decode(frame@, offset as int),
            ),
            !DnsHeader::readable(frame@, offset as int) ==> hdr is Err,
    {
        proof {
            // A frame is no longer than the machine word can count.
            assert(frame@.len() == frame.len());
        }
        let flags = read_be16(frame, offset_by(offset, DNS_FLAGS_AT)?)?;
        let answer_count = read_be16(frame, offset_by(offset, DNS_ANSWERS_AT)?)?;
        let authority_count = read_be16(frame, offset_by(offset, DNS_AUTHORITIES_AT)?)?;
        Ok(DnsHeader { flags, answer_count, authority_count })
    }

    /// The authoritative-answer flag, bit 10 of the flags, is set.
    pub open spec fn spec_authoritative(&self) -> bool {
        (self.flags / DNS_FLAG_AA) % 2 == 1
    }

    /// The authoritative-answer flag, bit 10 of the flags, is set.
    #[verifier::when_used_as_spec(spec_authoritative)]
    pub fn authoritative(&self) -> (set: bool)
        ensures
            set == self.spec_authoritative(),
    {
        let flags: u16 = self.flags;
        assert((flags & 0x0400 != 0) == ((flags / 0x0400) % 2 == 1)) by (bit_vector);
        flags & DNS_FLAG_AA != 0
    }
}

/// What [`check_dns_header`] returns.
///
/// A zero transaction ID drops the response without a look at the header. Any
/// other ID needs the header's three fields in the frame, and then passes,
/// whatever the flags and counts are; a response that claims to be
/// authoritative is noted on its way.
pub open spec fn spec_check_dns_header(
    frame: Seq<u8>,
    dns_offset: int,
    transaction_id: u16,
    source: Source,
) -> Result<Decision, BoundsError> {
    if transaction_id == 0 {
        Ok(Decision::noted(source, Reason::ZeroTransactionId))
    } else if !DnsHeader::readable(frame, dns_offset) {
        Err(BoundsError)
    } else if DnsHeader::decode(frame, dns_offset).authoritative() {
        Ok(Decision::noted(source, Reason::AuthoritativeAnswer))
    } else {
        Ok(Decision::pass())
    }
}

/// Judges the DNS message whose header starts at `dns_offset`, by the rules
/// in their order, the first that matches deciding. The caller has read the
/// transaction ID, the header's first two bytes, and hands it in.
pub fn check_dns_header(
    frame: &[u8],
    dns_offset: usize,
    transaction_id: u16,
    source: Source,
) -> (decision: Result<Decision, BoundsError>)
    ensures
        decision == spec_check_dns_header(frame@, dns_offset as int, transaction_id, source),
{
    // A compliant resolver does not answer with ID 0.
    if transaction_id == 0 {
        return Ok(Decision::noted(source, Reason::ZeroTransactionId));
    }
    let header = DnsHeader::read(frame, dns_offset)?;
    // An authoritative answer is suspicious, yet no rule drops on the flag
    // alone: it is noted, and the counts decide.
    let decision = if header.authoritative() {
        Decision::noted(source, Reason::AuthoritativeAnswer)
    } else {
        Decision::pass()
    };
    // Several answers, or any authority record, pass.
    if header.answer_count > 1 || header.authority_count > 0 {
        return Ok(decision);
    }
    // So does everything else.
    Ok(decision)
}

} // verus!
