use typeid_prefix::PrefixFactory;
use typeid_prefix::TypeIdPrefix;
use typeid_prefix::ValidationError;

#[test]
fn test_type_id_spaces_sanitize() {
    assert_eq!(
        "Invalid String with Spaces!!__".create_prefix_sanitized().as_str(),
        "invalidstringwithspaces"
    );
}

#[test]
fn test_type_id_truncation() {
    assert_eq!(
        "A_valid_string_that_is_way_too_long_and_should_be_truncated_to_63_chars"
            .create_prefix_sanitized()
            .as_str(),
        "a_valid_string_that_is_way_too_long_and_should_be_truncated_to"
    );
}

#[test]
fn test_type_id_underscores_sanitize() {
    assert_eq!(
        "_underscores__everywhere__".create_prefix_sanitized().as_str(),
        "underscores__everywhere"
    );
}

#[test]
fn test_typeid_prefix_non_ascii() {
    assert!(TypeIdPrefix::validate("🌀").is_err());
    let sanitized_input = "🌀".create_prefix_sanitized();
    assert!(
        sanitized_input.as_str().is_empty(),
        "Prefix was not empty: {}",
        sanitized_input.as_str()
    );
}

#[test]
fn test_typeid_prefix_empty() {
    assert!(TypeIdPrefix::validate("").is_ok());
}

#[test]
fn test_typeid_prefix_single_char() {
    assert!(TypeIdPrefix::validate("a").is_ok());
}

#[test]
fn test_typeid_prefix_valid_string() {
    assert!(TypeIdPrefix::validate("valid_string").is_ok());
}

#[test]
fn test_typeid_prefix_with_underscores() {
    assert!(TypeIdPrefix::validate("valid_string_with_underscores").is_ok());
}

#[test]
fn test_typeid_prefix_exceeds_max_length() {
    let input = "a_valid_string_with_underscores_and_length_of_63_characters_____";
    assert_eq!(
        TypeIdPrefix::validate(input).unwrap_err(),
        ValidationError::ExceedsMaxLength
    );
    assert_eq!(
        input.create_prefix_sanitized().as_str(),
        "a_valid_string_with_underscores_and_length_of__characters"
    );
}

#[test]
fn test_typeid_prefix_invalid_characters() {
    assert_eq!(
        TypeIdPrefix::validate("InvalidString").unwrap_err(),
        ValidationError::InvalidStartCharacter
    );
    assert_eq!("InvalidString".create_prefix_sanitized().as_str(), "invalidstring");
}

#[test]
fn test_typeid_prefix_starts_with_underscore() {
    assert_eq!(
        TypeIdPrefix::validate("_invalid").unwrap_err(),
        ValidationError::StartsWithUnderscore
    );
    assert_eq!("_invalid".create_prefix_sanitized().as_str(), "invalid");
}

#[test]
fn test_typeid_prefix_ends_with_underscore() {
    assert_eq!(
        TypeIdPrefix::validate("invalid_").unwrap_err(),
        ValidationError::EndsWithUnderscore
    );
    assert_eq!("invalid_".create_prefix_sanitized().as_str(), "invalid");
}

#[test]
fn test_typeid_prefix_invalid_characters_with_spaces() {
    assert_eq!(
        TypeIdPrefix::validate("invalid string with spaces").unwrap_err(),
        ValidationError::ContainsInvalidCharacters
    );
    assert_eq!(
        "invalid string with spaces".create_prefix_sanitized().as_str(),
        "invalidstringwithspaces"
    );
}

#[test]
fn test_typeid_prefix_max_length() {
    let input = "a".repeat(63);
    assert!(TypeIdPrefix::validate(input.as_str()).is_ok());
}

#[test]
fn test_typeid_prefix_max_length_exceeded() {
    let input = "a".repeat(64);
    assert_eq!(
        TypeIdPrefix::validate(input.as_str()).unwrap_err(),
        ValidationError::ExceedsMaxLength
    );
    assert_eq!(input.create_prefix_sanitized().as_str(), "a".repeat(63));
}

#[test]
fn test_typeid_prefix_contains_uppercase() {
    assert_eq!(
        TypeIdPrefix::validate("InvalidString").unwrap_err(),
        ValidationError::InvalidStartCharacter
    );
    assert_eq!("InvalidString".create_prefix_sanitized().as_str(), "invalidstring");
}

#[test]
fn test_typeid_prefix_non_alphanumeric() {
    assert_eq!(
        TypeIdPrefix::validate("invalid_string!").unwrap_err(),
        ValidationError::InvalidEndCharacter
    );
    assert_eq!("invalid_string!".create_prefix_sanitized().as_str(), "invalid_string");
}

#[test]
fn test_typeid_prefix_numeric_start() {
    assert_eq!(
        TypeIdPrefix::validate("1invalid").unwrap_err(),
        ValidationError::InvalidStartCharacter
    );
    assert_eq!("1invalid".create_prefix_sanitized().as_str(), "invalid");
}

#[test]
fn test_typeid_prefix_numeric_end() {
    assert_eq!(
        TypeIdPrefix::validate("invalid1").unwrap_err(),
        ValidationError::InvalidEndCharacter
    );
    assert_eq!("invalid1".create_prefix_sanitized().as_str(), "invalid");
}
