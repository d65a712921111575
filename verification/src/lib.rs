//! A type-safe representation of `TypeID` prefixes.
//!
//! A prefix is a short identifier string: at most 63 characters, built from
//! lowercase ASCII letters and underscores, never starting or ending with an
//! underscore. The [`TypeIdPrefix`] type holds only strings that satisfy
//! this rule set; [`TypeIdPrefix::validate`] checks an input strictly, and
//! [`TypeIdPrefix::clean_inner`] repairs arbitrary input into the closest
//! valid prefix. The [`PrefixFactory`] trait offers both operations on any
//! string-like value.

pub mod error;
pub mod laws;
pub mod rules;

mod factory;
mod type_id_prefix;

pub use error::ValidationError;
pub use factory::PrefixFactory;
pub use factory::Validate;
pub use type_id_prefix::TypeIdPrefix;
