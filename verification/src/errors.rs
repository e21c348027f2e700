//! The failure categories a command can report.

use vstd::prelude::*;

verus! {

/// Every fallible operation of the editor returns one of these categories
/// rather than terminating the process. The surrounding loop renders any
/// failure as a terse `?` marker and stores its message as the last error.
#[derive(Debug, Clone, Copy, PartialEq, Eq, Structural)]
pub enum RedError {
    /// An address resolved outside `[1, len]`, or a malformed range.
    InvalidAddress,
    /// A move destination falling inside the moved range.
    InvalidDestination,
    /// A substitution argument without its `/` delimiters.
    MissingDelimiter,
    /// A substitution that changed no line in its range, or an unusable pattern.
    NoMatch,
    /// A bare substitute command with no argument to repeat.
    NoPreviousSubstitution,
    /// A file command with neither an explicit nor an associated path.
    NoFilename,
    /// An unforced quit while the buffer holds unsaved changes.
    BufferModified,
}

impl RedError {
    /// The text of this error, as the help command re-prints it.
    pub open spec fn spec_message(self) -> Seq<char> {
        match self {
            RedError::InvalidAddress => "Invalid address"@,
            RedError::InvalidDestination => "Invalid destination"@,
            RedError::MissingDelimiter => "Missing pattern delimiter"@,
            RedError::NoMatch => "No match"@,
            RedError::NoPreviousSubstitution => "No previous substitution"@,
            RedError::NoFilename => "No current filename"@,
            RedError::BufferModified => "Warning: buffer modified"@,
        }
    }

    /// Renders the message that the surrounding loop stores as the last error.
    pub fn message(&self) -> (r: String)
        ensures
            r@ == self.spec_message(),
    {
        match self {
            RedError::InvalidAddress => String::from_str("Invalid address"),
            RedError::InvalidDestination => String::from_str("Invalid destination"),
            RedError::MissingDelimiter => String::from_str("Missing pattern delimiter"),
            RedError::NoMatch => String::from_str("No match"),
            RedError::NoPreviousSubstitution => String::from_str("No previous substitution"),
            RedError::NoFilename => String::from_str("No current filename"),
            RedError::BufferModified => String::from_str("Warning: buffer modified"),
        }
    }
}

} // verus!
