//! The one way in which a calculation can fail.

use vstd::prelude::*;

verus! {

/// Why a calculation produced no number.
#[derive(Clone, Copy, Debug, PartialEq, Eq, Structural)]
pub enum CalcError {
    /// The divisor was zero.
    DivisionByZero,
}

impl CalcError {
    /// The text that `message` produces for this error.
    pub open spec fn message_text(self) -> Seq<char> {
        match self {
            CalcError::DivisionByZero => "Cannot divide by zero"@,
        }
    }

    /// A sentence for people, to be shown where the failure is reported.
    pub fn message(&self) -> (text: String)
        ensures
            text@ == self.message_text(),
    {
        match self {
            CalcError::DivisionByZero => "Cannot divide by zero".to_string(),
        }
    }
}

} // verus!
