use vstd::prelude::*;

verus! {

/// Why an operation on a guard failed.
#[derive(Debug, Clone, Copy, PartialEq, Eq, Structural)]
pub enum GuardError {
    /// The time budget ran out, or an instant observation found nothing.
    Timeout,
    /// The cell has been killed: no value will be published.
    Killed,
    /// A kill was asked for after a value had already arrived.
    UnableToKilled,
}

impl GuardError {
    /// The text of this error, as a sequence of characters.
    pub open spec fn spec_message(self) -> Seq<char> {
        match self {
            GuardError::Timeout => "Timeout error"@,
            GuardError::Killed => "Killed"@,
            GuardError::UnableToKilled => "Unable to kill an already elapsed Guard"@,
        }
    }

    /// The human-readable text of this error.
    pub fn message(&self) -> (text: String)
        ensures
            text@ == self.spec_message(),
    {
        match self {
            GuardError::Timeout => "Timeout error".to_string(),
            GuardError::Killed => "Killed".to_string(),
            GuardError::UnableToKilled => "Unable to kill an already elapsed Guard".to_string(),
        }
    }
}

} // verus!
