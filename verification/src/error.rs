//! The conditions on which decoding fails.

use vstd::prelude::*;

verus! {

/// Why a JSON value could not be decoded.
#[derive(Debug, Clone, Copy, PartialEq, Eq, Structural)]
pub enum DecodeError {
    /// A string or number that names no variant of the enum.
    UnrecognizedEnumValue,
    /// A JSON value of a kind that the field's declared type does not take.
    TypeMismatch,
}

impl DecodeError {
    /// A short description of the condition.
    pub fn message(&self) -> (text: &'static str)
        ensures
            text@ == match *self {
                DecodeError::UnrecognizedEnumValue => "unrecognized enum value"@,
                DecodeError::TypeMismatch => "type mismatch"@,
            },
    {
        match self {
            DecodeError::UnrecognizedEnumValue => "unrecognized enum value",
            DecodeError::TypeMismatch => "type mismatch",
        }
    }
}

} // verus!
