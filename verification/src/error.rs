//! The failures that the table function reports to its host.

use vstd::prelude::*;

verus! {

/// Why a bind or a production step failed.
#[derive(Clone, Copy, Debug, PartialEq, Eq, Structural)]
pub enum HelloError {
    /// A bind-time argument is out of range, such as a negative `count`.
    InvalidArgument,
    /// The name cannot be copied into the owned text buffer.
    AllocationError,
    /// The stored text is not valid UTF-8 when a row is formatted.
    EncodingError,
    /// The formatted row cannot be turned into an output value.
    FormatError,
}

impl HelloError {
    /// True of the failures that are found before the query runs.
    pub open spec fn at_bind_time(self) -> bool {
        self == HelloError::InvalidArgument || self == HelloError::AllocationError
    }

    /// Whether the failure belongs to bind time (the query never starts) or
    /// to execution (the running scan is aborted).
    pub fn is_bind_error(&self) -> (r: bool)
        ensures
            r == self.at_bind_time(),
    {
        match self {
            HelloError::InvalidArgument => true,
            HelloError::AllocationError => true,
            HelloError::EncodingError => false,
            HelloError::FormatError => false,
        }
    }
}

} // verus!
