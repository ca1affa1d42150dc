//! What the classifier hands back for one frame.

use vstd::prelude::*;

verus! {

/// The fate of a frame.
#[derive(Debug, Clone, Copy, PartialEq, Eq, Structural)]
pub enum Verdict {
    /// The frame goes on through the network stack.
    Pass,
    /// The frame is discarded at once.
    Drop,
}

/// Why a DNS response was noted.
#[derive(Debug, Clone, Copy, PartialEq, Eq, Structural)]
pub enum Reason {
    /// The transaction ID is zero. Such a response is dropped.
    ZeroTransactionId,
    /// The authoritative-answer flag is set. Such a response is noted and
    /// passes all the same.
    AuthoritativeAnswer,
}

/// Where a DNS response claims to come from.
#[derive(Debug, Clone, Copy, PartialEq, Eq, Structural)]
pub struct Source {
    /// IPv4 source address, first byte on the wire in the top byte.
    pub addr: u32,
    /// Transport-layer source port.
    pub port: u16,
    /// IPv4 protocol number.
    pub protocol: u8,
}

/// One entry for the host's log.
#[derive(Debug, Clone, Copy, PartialEq, Eq)]
pub struct LogRecord {
    /// Where the response claims to come from.
    pub source: Source,
    /// Why it was noted.
    pub reason: Reason,
}

/// The verdict on a frame, and what the host should log about it.
#[derive(Debug, Clone, Copy, PartialEq, Eq)]
pub struct Decision {
    /// What becomes of the frame.
    pub verdict: Verdict,
    /// The entry to log, if the frame was noted.
    pub record: Option<LogRecord>,
}

impl Decision {
    /// A frame that passes without a word.
    pub open spec fn spec_pass() -> Decision {
        Decision { verdict: Verdict::Pass, record: None }
    }

    /// What is decided of a response from `source` that was noted for
    /// `reason`: only a zero transaction ID drops it.
    pub open spec fn spec_noted(source: Source, reason: Reason) -> Decision {
        Decision {
            verdict: match reason {
                Reason::ZeroTransactionId => Verdict::Drop,
                Reason::AuthoritativeAnswer => Verdict::Pass,
            },
            record: Some(LogRecord { source, reason }),
        }
    }

    /// A frame that passes without a word.
    #[verifier::when_used_as_spec(spec_pass)]
    pub fn pass() -> (decision: Decision)
        ensures
            decision == Decision::spec_pass(),
    {
        Decision { verdict: Verdict::Pass, record: None }
    }

    /// What is decided of a response from `source` that was noted for
    /// `reason`: only a zero transaction ID drops it.
    #[verifier::when_used_as_spec(spec_noted)]
    pub fn noted(source: Source, reason: Reason) -> (decision: Decision)
        ensures
            decision == Decision::spec_noted(source, reason),
    {
        let verdict = match reason {
            Reason::ZeroTransactionId => Verdict::Drop,
            Reason::AuthoritativeAnswer => Verdict::Pass,
        };
        Decision { verdict, record: Some(LogRecord { source, reason }) }
    }
}

} // verus!
