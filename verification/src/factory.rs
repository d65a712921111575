//! The construction surface for string-like input: strict creation and
//! lenient, sanitizing creation.

use vstd::prelude::*;

use crate::error::ValidationError;
use crate::rules::{spec_canonicalize, spec_validate};
use crate::type_id_prefix::TypeIdPrefix;

verus! {

/// A marker trait for types whose string content can be checked against the
/// prefix rule set.
pub trait Validate {
}

impl<'a> Validate for &'a str {
}

impl Validate for String {
}

/// Creates valid [`TypeIdPrefix`] values from string-like input.
///
/// The two methods are the intended ways for callers to construct a prefix:
/// [`PrefixFactory::try_create_prefix`] validates the input verbatim, and
/// [`PrefixFactory::create_prefix_sanitized`] canonicalizes it first and so
/// always succeeds.
pub trait PrefixFactory {
    /// The characters of the input that the factory reads.
    spec fn prefix_chars(&self) -> Seq<char>;

    /// Sanitizes the input and creates a valid `TypeIdPrefix`.
    ///
    /// The result is exactly the canonical form of the input: lowercased,
    /// truncated to 63 characters, stripped of disallowed characters and of
    /// boundary underscores. When nothing of the input survives, the result
    /// is the empty prefix.
    fn create_prefix_sanitized(&self) -> (r: TypeIdPrefix)
        ensures
            r@ == spec_canonicalize(self.prefix_chars()),
    ;

    /// Attempts to create a `TypeIdPrefix` from the input without modifying
    /// it, returning the first broken rule on failure.
    fn try_create_prefix(&self) -> (r: Result<TypeIdPrefix, ValidationError>)
        ensures
            match r {
                Ok(p) => spec_validate(self.prefix_chars()) == Ok::<(), ValidationError>(())
                    && p@ == self.prefix_chars(),
                Err(e) => spec_validate(self.prefix_chars()) == Err::<(), ValidationError>(e),
            },
    ;
}

impl<'a> PrefixFactory for &'a str {
    open spec fn prefix_chars(&self) -> Seq<char> {
        self@
    }

    fn create_prefix_sanitized(&self) -> (r: TypeIdPrefix) {
        TypeIdPrefix::sanitize(*self)
    }

    fn try_create_prefix(&self) -> (r: Result<TypeIdPrefix, ValidationError>) {
        TypeIdPrefix::validate(*self)
    }
}

impl PrefixFactory for String {
    open spec fn prefix_chars(&self) -> Seq<char> {
        self@
    }

    fn create_prefix_sanitized(&self) -> (r: TypeIdPrefix) {
        TypeIdPrefix::sanitize(self.as_str())
    }

    fn try_create_prefix(&self) -> (r: Result<TypeIdPrefix, ValidationError>) {
        TypeIdPrefix::validate(self.as_str())
    }
}

} // verus!
