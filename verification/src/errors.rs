//! The error raised when a byte buffer fails structural validation.

use vstd::prelude::*;

verus! {

/// A decode error carrying a human-readable description of the cause.
#[derive(Debug)]
pub struct BufferParseError {
    pub description: String,
}

impl BufferParseError {
    /// Builds an error carrying the given description.
    pub fn new(description: &str) -> (r: Self)
        ensures
            r.description@ == description@,
    {
        BufferParseError { description: description.to_owned() }
    }
}

} // verus!
