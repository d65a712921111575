//! The rule set for `TypeID` prefixes, as mathematical functions over
//! character sequences.
//!
//! Everything the executable functions promise is stated in terms of the
//! definitions here: which characters a prefix may hold
//! ([`is_prefix_char`]), when a whole string is a valid prefix
//! ([`is_valid_prefix`]), the exact outcome of strict validation
//! ([`spec_validate`]) and the canonicalization pipeline
//! ([`spec_canonicalize`]).

use vstd::prelude::*;

use crate::error::ValidationError;

verus! {

/// Greatest number of characters a valid prefix may have.
pub const MAX_PREFIX_LEN: usize = 63;

/// `c` is a lowercase ASCII letter, `a` through `z`.
pub open spec fn is_lowercase_letter(c: char) -> bool {
    'a' <= c && c <= 'z'
}

/// `c` may appear in a valid prefix: a lowercase ASCII letter or an underscore.
pub open spec fn is_prefix_char(c: char) -> bool {
    is_lowercase_letter(c) || c == '_'
}

/// The full prefix invariant on a character sequence: at most
/// [`MAX_PREFIX_LEN`] characters, every character allowed, and a non-empty
/// sequence starts and ends with a lowercase letter.
pub open spec fn is_valid_prefix(s: Seq<char>) -> bool {
    &&& s.len() <= MAX_PREFIX_LEN
    &&& forall|i: int| 0 <= i < s.len() ==> is_prefix_char(#[trigger] s[i])
    &&& s.len() > 0 ==> is_lowercase_letter(s[0]) && is_lowercase_letter(s[s.len() - 1])
}

/// The number of bytes of the UTF-8 encoding of `s`.
///
/// Strict validation measures length in bytes, so an over-long input is
/// reported as too long even when a multi-byte character would also have
/// failed a later rule.
pub open spec fn utf8_length(s: Seq<char>) -> nat {
    vstd::utf8::encode_utf8(s).len()
}

/// The outcome of strict validation of `s`: `Ok(())` when `s` is accepted
/// verbatim, otherwise the first error in rule order.
///
/// The rules run in a fixed order and the first broken one names the error:
/// byte length, then (accepting the empty string) ASCII-ness, underscores at
/// either boundary, letters at either boundary, and finally the character
/// set of the interior.
pub open spec fn spec_validate(s: Seq<char>) -> Result<(), ValidationError> {
    if utf8_length(s) > MAX_PREFIX_LEN {
        Err(ValidationError::ExceedsMaxLength)
    } else if s.len() == 0 {
        Ok(())
    } else if !vstd::utf8::is_ascii_chars(s) {
        Err(ValidationError::ContainsInvalidCharacters)
    } else if s[0] == '_' {
        Err(ValidationError::StartsWithUnderscore)
    } else if s[s.len() - 1] == '_' {
        Err(ValidationError::EndsWithUnderscore)
    } else if !is_lowercase_letter(s[0]) {
        Err(ValidationError::InvalidStartCharacter)
    } else if !is_lowercase_letter(s[s.len() - 1]) {
        Err(ValidationError::InvalidEndCharacter)
    } else if !(forall|i: int| 0 <= i < s.len() ==> is_prefix_char(#[trigger] s[i])) {
        Err(ValidationError::ContainsInvalidCharacters)
    } else {
        Ok(())
    }
}

/// `c` with an uppercase ASCII letter mapped to its lowercase counterpart;
/// every other character is left as it is.
pub open spec fn lower_char(c: char) -> char {
    if 'A' <= c && c <= 'Z' {
        ((c as u32) + 32) as char
    } else {
        c
    }
}

/// Step one of canonicalization: lowercase every character.
pub open spec fn lowered(s: Seq<char>) -> Seq<char> {
    s.map_values(|c: char| lower_char(c))
}

/// Step two of canonicalization: keep at most the first
/// [`MAX_PREFIX_LEN`] characters.
pub open spec fn truncated(s: Seq<char>) -> Seq<char> {
    if s.len() > MAX_PREFIX_LEN {
        s.take(MAX_PREFIX_LEN as int)
    } else {
        s
    }
}

/// The character filter of canonicalization as a single closure value, so
/// that every statement about filtering speaks of the same function.
pub open spec fn prefix_char_pred() -> spec_fn(char) -> bool {
    |c: char| is_prefix_char(c)
}

/// Step three of canonicalization: drop every character that may not appear
/// in a prefix.
pub open spec fn filtered(s: Seq<char>) -> Seq<char> {
    s.filter(prefix_char_pred())
}

/// Drops every leading underscore of `s`.
pub open spec fn trim_leading(s: Seq<char>) -> Seq<char>
    decreases s.len(),
{
    if s.len() > 0 && s[0] == '_' {
        trim_leading(s.drop_first())
    } else {
        s
    }
}

/// Drops every trailing underscore of `s`.
pub open spec fn trim_trailing(s: Seq<char>) -> Seq<char>
    decreases s.len(),
{
    if s.len() > 0 && s[s.len() - 1] == '_' {
        trim_trailing(s.drop_last())
    } else {
        s
    }
}

/// The canonical repair of an arbitrary input: lowercase every character,
/// truncate to the first [`MAX_PREFIX_LEN`] characters, drop every
/// disallowed character, then strip underscores from both boundaries
/// (interior runs of underscores are preserved).
pub open spec fn spec_canonicalize(s: Seq<char>) -> Seq<char> {
    trim_trailing(trim_leading(filtered(truncated(lowered(s)))))
}

} // verus!
