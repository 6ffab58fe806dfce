//! The closed status taxonomy of every boundary response.

use vstd::prelude::*;

verus! {

/// Status code carried by every response record.  The declaration order
/// fixes the ordinals that callers on the far side of the boundary see,
/// and must stay stable once published.
#[derive(Clone, Copy, Debug, PartialEq, Eq, Structural)]
pub enum FCPResponseStatus {
    /// The operation succeeded.
    FCPNoError,
    /// A failure that did not originate in this boundary's own checks.
    FCPUnclassifiedError,
    /// The caller handed in invalid input.
    FCPCallerError,
    /// An internal invariant of the receiver was broken.
    FCPReceiverError,
}

} // verus!
