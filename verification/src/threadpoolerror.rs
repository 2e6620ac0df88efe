//! Error type for worker-pool construction and resizing.

use vstd::prelude::*;

verus! {

/// Why a pool operation failed.
#[derive(Clone, Debug)]
pub enum ThreadPoolErrorReason {
    /// Anything not covered by the specific variants.
    Other(String),
    /// The requested initial pool size exceeds the supported maximum.
    InvalidPoolSize,
    /// The requested upper pool bound exceeds the supported maximum.
    InvalidDynamicPoolBounds,
    /// Bookkeeping inconsistency during a resize.
    DynamicResizingError,
}

impl ThreadPoolErrorReason {
    /// What `text` returns for each reason.
    pub open spec fn spec_text(self) -> Seq<char> {
        match self {
            ThreadPoolErrorReason::Other(s) => "Other: "@ + s@,
            ThreadPoolErrorReason::InvalidPoolSize => "InvalidPoolSize"@,
            ThreadPoolErrorReason::InvalidDynamicPoolBounds => "InvalidDynamicPoolBounds"@,
            ThreadPoolErrorReason::DynamicResizingError => "DynamicResizingError"@,
        }
    }

    /// The canonical name of this reason.
    pub fn text(&self) -> (r: String)
        ensures
            r@ == self.spec_text(),
    {
        match self {
            ThreadPoolErrorReason::Other(s) => {
                let mut t = String::from_str("Other: ");
                t.append(s.as_str());
                t
            },
            ThreadPoolErrorReason::InvalidPoolSize => String::from_str("InvalidPoolSize"),
            ThreadPoolErrorReason::InvalidDynamicPoolBounds => String::from_str(
                "InvalidDynamicPoolBounds",
            ),
            ThreadPoolErrorReason::DynamicResizingError => String::from_str(
                "DynamicResizingError",
            ),
        }
    }
}

/// A worker-pool failure.
#[derive(Clone, Debug)]
pub struct ThreadPoolError {
    pub reason: ThreadPoolErrorReason,
}

impl ThreadPoolError {
    /// A failure with the given reason.
    pub fn new(reason: ThreadPoolErrorReason) -> (r: ThreadPoolError)
        ensures
            r.reason == reason,
    {
        ThreadPoolError { reason }
    }

    /// A rendering of this failure for logs.
    pub fn text(&self) -> (r: String)
        ensures
            r@ == "ThreadPoolError: "@ + self.reason.spec_text(),
    {
        let mut s = String::from_str("ThreadPoolError: ");
        let t = self.reason.text();
        s.append(t.as_str());
        s
    }
}

} // verus!
