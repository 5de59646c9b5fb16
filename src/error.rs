//! The one error a cancel guard produces.

use vstd::prelude::*;
use vstd::string::StringExecFns;

verus! {

/// The text that describes a `CancelledByShutdown` error.
pub open spec fn shutdown_message() -> Seq<char> {
    "A shutdown request caused this "@ + "task to be cancelled"@
}

/// The guarded operation was abandoned: cancellation was requested and the
/// grace period, if any, ran out before the operation finished.
#[derive(Clone, Copy, Debug, PartialEq, Eq, Structural)]
pub struct CancelledByShutdown;

impl CancelledByShutdown {
    /// The human-readable description of this error.
    pub fn message(&self) -> (r: String)
        ensures
            r@ == shutdown_message(),
    {
        let mut r = "A shutdown request caused this ".to_owned();
        r.append("task to be cancelled");
        r
    }
}

} // verus!
