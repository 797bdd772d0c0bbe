//! The failure that reading delimiters out of an ISA segment can report.

use vstd::prelude::*;

verus! {

/// Why delimiters could not be read from an ISA segment.
#[derive(Debug, PartialEq, Eq, Clone, Copy, Structural)]
pub enum DelimiterError {
    /// The segment ends before the position of the segment terminator.
    InvalidIsaLength,
}

impl DelimiterError {
    /// The text shown to a person for this error.
    pub open spec fn spec_message(self) -> Seq<char> {
        match self {
            DelimiterError::InvalidIsaLength =>
                "header must be at least 106 bytes to extract delimiters"@,
        }
    }

    /// Returns the human-readable description of the error.
    pub fn message(&self) -> (text: String)
        ensures
            text@ == self.spec_message(),
    {
        match self {
            DelimiterError::InvalidIsaLength =>
                "header must be at least 106 bytes to extract delimiters".to_owned(),
        }
    }
}

} // verus!
