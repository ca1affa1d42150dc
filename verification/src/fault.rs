//! What becomes of a fault inside the classifier's host.

use vstd::prelude::*;

verus! {

/// What the host does once an unrecoverable fault has been raised.
#[derive(Debug, Clone, Copy, PartialEq, Eq, Structural)]
pub enum FaultAction {
    /// Stop for good: no further frame is judged.
    Halt,
    /// Carry on as if nothing had happened.
    Resume,
}

/// The policy for an unrecoverable fault: halt, never carry on.
///
/// The functions of this crate are proved free of faults, so a host reaches
/// this only through code of its own. Its fault handler asks here and obeys.
pub fn panic() -> (action: FaultAction)
    ensures
        action == FaultAction::Halt,
{
    FaultAction::Halt
}

} // verus!
