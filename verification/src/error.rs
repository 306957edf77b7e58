//! The pool's error values.

use vstd::prelude::*;
use vstd::string::StringExecFns;

verus! {

/// Why an operation of the pool failed. Each kind carries its reason as text.
#[derive(Debug)]
pub enum PoolError {
    /// The pool could not be constructed.
    CreationError(String),
    /// A job could not be enqueued.
    SendError(String),
}

/// The reason given when a pool of no workers is asked for.
pub open spec fn zero_size_reason() -> Seq<char> {
    "Pool size must be greater than zero"@
}

/// The reason given when the pool's sending end has been let go.
pub open spec fn sender_missing_reason() -> Seq<char> {
    "ThreadPool sender is missing"@
}

/// The reason given when no worker is left to receive a job.
pub open spec fn channel_closed_reason() -> Seq<char> {
    "sending on a closed channel"@
}

/// What stands before the reason in a creation error's message.
pub open spec fn creation_prefix() -> Seq<char> {
    "Pool Creation Error: "@
}

/// What stands before the reason in a dispatch error's message.
pub open spec fn dispatch_prefix() -> Seq<char> {
    "Job Dispatch Error: "@
}

impl PoolError {
    /// The reason the error carries.
    pub open spec fn reason(self) -> Seq<char> {
        match self {
            PoolError::CreationError(msg) => msg@,
            PoolError::SendError(msg) => msg@,
        }
    }

    /// The text a reader is shown: the kind's prefix, then the reason.
    pub open spec fn rendered(self) -> Seq<char> {
        match self {
            PoolError::CreationError(msg) => creation_prefix() + msg@,
            PoolError::SendError(msg) => dispatch_prefix() + msg@,
        }
    }

    /// The error of a request for an empty pool.
    pub fn zero_size() -> (e: PoolError)
        ensures
            e is CreationError,
            e.reason() == zero_size_reason(),
    {
        PoolError::CreationError(String::from_str("Pool size must be greater than zero"))
    }

    /// The error of a submission to a pool whose sending end is gone.
    pub fn sender_missing() -> (e: PoolError)
        ensures
            e is SendError,
            e.reason() == sender_missing_reason(),
    {
        PoolError::SendError(String::from_str("ThreadPool sender is missing"))
    }

    /// The error of a submission that no worker is left to receive.
    pub fn channel_closed() -> (e: PoolError)
        ensures
            e is SendError,
            e.reason() == channel_closed_reason(),
    {
        PoolError::SendError(String::from_str("sending on a closed channel"))
    }

    /// Renders the error for display.
    pub fn message(&self) -> (text: String)
        ensures
            text@ == self.rendered(),
    {
        match self {
            PoolError::CreationError(msg) => {
                String::from_str("Pool Creation Error: ").concat(msg.as_str())
            },
            PoolError::SendError(msg) => {
                String::from_str("Job Dispatch Error: ").concat(msg.as_str())
            },
        }
    }
}

} // verus!
