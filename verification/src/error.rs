//! Why a declaration is refused.

use vstd::prelude::*;

verus! {

/// Why a declaration was rejected. Every rejection is final: nothing is
/// emitted for a declaration that is refused.
#[derive(Clone, Copy, Debug, PartialEq, Eq, Structural)]
pub enum BridgeError {
    /// The struct declares two fields or more.
    TooManyFields,
    /// The declaration has no named field where exactly one is required.
    MissingField,
    /// The field is not a draining iterator over one named item type.
    TypeMismatch,
    /// The enum bridge was given a declaration that is not an enum.
    InvalidEnumInput,
}

impl BridgeError {
    /// The diagnostic of a rejection, as a sequence of characters.
    pub open spec fn diagnostic(self) -> Seq<char> {
        match self {
            BridgeError::TooManyFields => "Too many fields"@,
            BridgeError::MissingField => "Expected one field"@,
            BridgeError::TypeMismatch => "Expected field of type `IntoIter`"@,
            BridgeError::InvalidEnumInput => "Invalid input"@,
        }
    }

    /// The diagnostic with which the expansion is aborted.
    pub fn message(&self) -> (text: String)
        ensures
            text@ == self.diagnostic(),
    {
        match self {
            BridgeError::TooManyFields => String::from_str("Too many fields"),
            BridgeError::MissingField => String::from_str("Expected one field"),
            BridgeError::TypeMismatch => String::from_str("Expected field of type `IntoIter`"),
            BridgeError::InvalidEnumInput => String::from_str("Invalid input"),
        }
    }
}

} // verus!
