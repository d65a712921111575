//! The reasons an input string can fail prefix validation.

use vstd::prelude::*;

verus! {

/// Represents errors that can occur during validation of `TypeID` prefixes.
///
/// Each variant corresponds to one rule of the prefix specification, so a
/// caller can branch on the exact reason an input was rejected.
#[derive(Clone, Copy, Debug, PartialEq, Eq, Structural)]
pub enum ValidationError {
    /// The input exceeds the maximum allowed length of 63 characters.
    ExceedsMaxLength,
    /// The input contains characters that are not allowed in a prefix.
    ///
    /// Valid characters are lowercase ASCII letters and underscores.
    ContainsInvalidCharacters,
    /// The input starts with an underscore, which is not allowed.
    StartsWithUnderscore,
    /// The input ends with an underscore, which is not allowed.
    EndsWithUnderscore,
    /// The input does not start with a lowercase alphabetic character.
    InvalidStartCharacter,
    /// The input does not end with a lowercase alphabetic character.
    InvalidEndCharacter,
    /// The input is an empty string.
    ///
    /// The validator in this crate accepts the empty string, so this kind is
    /// never produced by it; the variant completes the error taxonomy for
    /// callers that reject empty prefixes themselves.
    IsEmpty,
}

impl ValidationError {
    /// The characters of the human-readable message for this error kind.
    pub open spec fn spec_message(self) -> Seq<char> {
        match self {
            ValidationError::ExceedsMaxLength => "Input exceeds 63 characters"@,
            ValidationError::ContainsInvalidCharacters => "Input contains invalid characters: only lowercase ASCII letters and underscores are allowed"@,
            ValidationError::StartsWithUnderscore => "Input cannot start with an underscore"@,
            ValidationError::EndsWithUnderscore => "Input cannot end with an underscore"@,
            ValidationError::InvalidStartCharacter => "Input must start with a lowercase alphabetic character"@,
            ValidationError::InvalidEndCharacter => "Input must end with a lowercase alphabetic character"@,
            ValidationError::IsEmpty => "Input cannot be empty"@,
        }
    }

    /// Returns the human-readable message for this error kind.
    ///
    /// No two kinds share a message, so the message alone identifies the
    /// rule that was broken; see [`crate::laws::lemma_messages_distinct`].
    pub fn message(&self) -> (r: String)
        ensures
            r@ == self.spec_message(),
    {
        match self {
            ValidationError::ExceedsMaxLength => "Input exceeds 63 characters".to_owned(),
            ValidationError::ContainsInvalidCharacters => "Input contains invalid characters: only lowercase ASCII letters and underscores are allowed".to_owned(),
            ValidationError::StartsWithUnderscore => "Input cannot start with an underscore".to_owned(),
            ValidationError::EndsWithUnderscore => "Input cannot end with an underscore".to_owned(),
            ValidationError::InvalidStartCharacter => "Input must start with a lowercase alphabetic character".to_owned(),
            ValidationError::InvalidEndCharacter => "Input must end with a lowercase alphabetic character".to_owned(),
            ValidationError::IsEmpty => "Input cannot be empty".to_owned(),
        }
    }
}

} // verus!
