//! Error taxonomy surfaced to callers of the supervision and signal layers.

use vstd::prelude::*;

verus! {

/// An error from the supervision or signal layer.
///
/// Every error is returned as a value; none is treated as fatal to the
/// process hosting the supervisor.
#[derive(Debug)]
pub enum Error {
    /// A signal name or raw numeric value could not be classified.
    InvalidSignal(String),
    /// The requested capability does not exist on this platform; carries the
    /// name of the operation that was attempted.
    NotSupportedOnThisPlatform(&'static str),
    /// Delivering a signal to another process failed at the OS boundary.
    FailedToSendSignal,
    /// An OS-level operation failed; carries the OS error text unchanged.
    Os(String),
}

impl Error {
    /// True when this error reports an unclassifiable signal whose raw text
    /// was `raw`.
    pub open spec fn is_invalid_signal(self, raw: Seq<char>) -> bool {
        self matches Error::InvalidSignal(m) && m@ == raw
    }

    /// True when this error reports a capability missing on this platform,
    /// for the operation named `op`.
    pub open spec fn is_not_supported(self, op: Seq<char>) -> bool {
        self matches Error::NotSupportedOnThisPlatform(m) && m@ == op
    }
}

} // verus!
