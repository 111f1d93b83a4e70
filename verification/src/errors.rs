//! The failure kinds a run of the pipeline can report.

use vstd::prelude::*;

verus! {

/// The three failure kinds of the update pipeline.
#[derive(Clone, Copy, PartialEq, Eq, Structural, Debug)]
pub enum UpdateError {
    /// Connection or transport failure, or a non-success HTTP status.
    Network,
    /// A response body that does not have the expected shape.
    Format,
    /// A local file create, write, remove, extract or spawn failure.
    LocalIo,
}

/// The description each failure kind carries.
pub open spec fn message_chars(e: UpdateError) -> Seq<char> {
    match e {
        UpdateError::Network => "network request failed"@,
        UpdateError::Format => "malformed response body"@,
        UpdateError::LocalIo => "local file operation failed"@,
    }
}

impl UpdateError {
    /// A human-readable description of the error.
    pub fn message(&self) -> (r: String)
        ensures
            r@ == message_chars(*self),
    {
        match self {
            UpdateError::Network => String::from_str("network request failed"),
            UpdateError::Format => String::from_str("malformed response body"),
            UpdateError::LocalIo => String::from_str("local file operation failed"),
        }
    }
}

} // verus!
