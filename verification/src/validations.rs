//! Validation of user inputs (usernames, passwords, API key names,
//! variable names and values), done by `mogh_validations`.
use mogh_validations::{StringValidator, StringValidatorMatches};
use vstd::prelude::*;

verus! {

#[verifier::external_type_specification]
#[verifier::external_body]
pub struct ExAnyhowError(anyhow::Error);

/// Minimum length for usernames.
pub const MIN_USERNAME_LENGTH: usize = 1;

/// Maximum length for usernames.
pub const MAX_USERNAME_LENGTH: usize = 100;

/// Maximum length for passwords.
pub const MAX_PASSWORD_LENGTH: usize = 1000;

/// Maximum length for API key names.
pub const MAX_API_KEY_NAME_LENGTH: usize = 200;

/// Minimum length for variable names.
pub const MIN_VARIABLE_NAME_LENGTH: usize = 1;

/// Maximum length for variable names.
pub const MAX_VARIABLE_NAME_LENGTH: usize = 500;

/// Maximum length for variable values.
pub const MAX_VARIABLE_VALUE_LENGTH: usize = 10000;

/// A pattern the whole input must match.
#[derive(Clone, Copy, Debug, PartialEq, Eq, Structural)]
pub enum InputPattern {
    /// `^[a-zA-Z0-9._@-]+$`, and not 24 hex digits.
    Username,
    /// `^[a-zA-Z_][a-zA-Z0-9_]*$`.
    VariableName,
}

/// A control character: general category Cc, `U+0000..=U+001F` and
/// `U+007F..=U+009F`.
pub open spec fn is_control(c: char) -> bool {
    (c as u32) <= 0x1f || (0x7f <= (c as u32) && (c as u32) <= 0x9f)
}

/// An ASCII letter.
pub open spec fn is_ascii_letter(c: char) -> bool {
    ('a' <= c && c <= 'z') || ('A' <= c && c <= 'Z')
}

/// An ASCII digit.
pub open spec fn is_ascii_digit(c: char) -> bool {
    '0' <= c && c <= '9'
}

/// An ASCII hexadecimal digit, either case.
pub open spec fn is_ascii_hex(c: char) -> bool {
    is_ascii_digit(c) || ('a' <= c && c <= 'f') || ('A' <= c && c <= 'F')
}

/// A character a username may hold.
pub open spec fn is_username_char(c: char) -> bool {
    is_ascii_letter(c) || is_ascii_digit(c) || c == '.' || c == '_' || c == '@' || c == '-'
}

/// A character a variable name may hold after the first.
pub open spec fn is_variable_char(c: char) -> bool {
    is_ascii_letter(c) || is_ascii_digit(c) || c == '_'
}

/// Whether `s` matches the pattern.
pub open spec fn matches_pattern(s: Seq<char>, pattern: InputPattern) -> bool {
    match pattern {
        InputPattern::Username => {
            &&& s.len() > 0
            &&& forall|i: int| 0 <= i < s.len() ==> is_username_char(#[trigger] s[i])
            &&& !(s.len() == 24 && forall|i: int| 0 <= i < s.len() ==> is_ascii_hex(#[trigger] s[i]))
        },
        InputPattern::VariableName => {
            &&& s.len() > 0
            &&& (is_ascii_letter(s[0]) || s[0] == '_')
            &&& forall|i: int| 1 <= i < s.len() ==> is_variable_char(#[trigger] s[i])
        },
    }
}

/// Whether `s` passes validation: between the length bounds (counted
/// in characters), free of control characters, and matching the
/// pattern if one is given.
pub open spec fn string_passes(
    s: Seq<char>,
    min_length: usize,
    max_length: Option<usize>,
    pattern: Option<InputPattern>,
) -> bool {
    &&& s.len() >= min_length
    &&& (max_length matches Some(max) ==> s.len() <= max)
    &&& forall|i: int| 0 <= i < s.len() ==> !is_control(#[trigger] s[i])
    &&& (pattern matches Some(p) ==> matches_pattern(s, p))
}

/// `StringValidator::validate` with the given minimum and maximum
/// length and pattern, and the control character check on: passes
/// exactly the inputs of [string_passes].
#[verifier::external_body]
fn validate_string(
    input: &str,
    min_length: usize,
    max_length: Option<usize>,
    pattern: Option<InputPattern>,
) -> (r: Result<(), anyhow::Error>)
    ensures
        r is Ok <==> string_passes(input@, min_length, max_length, pattern),
{
    let matches = match pattern {
        Some(InputPattern::Username) => Some(StringValidatorMatches::Username),
        Some(InputPattern::VariableName) => Some(StringValidatorMatches::VariableName),
        None => None,
    };
    StringValidator::default().min_length(min_length).max_length(max_length).matches(matches).validate(
        input,
    )
}

/// Which input failed validation, with the validator's reason.
#[derive(Debug)]
pub enum ValidationError {
    Username(anyhow::Error),
    Password(anyhow::Error),
    ApiKeyName(anyhow::Error),
    VariableName(anyhow::Error),
    VariableValue(anyhow::Error),
}

/// Validates a username: 1 to 100 characters matching
/// `^[a-zA-Z0-9._@-]+$`, and not 24 hex digits.
pub fn validate_username(username: &str) -> (r: Result<(), ValidationError>)
    ensures
        r is Ok <==> string_passes(
            username@,
            MIN_USERNAME_LENGTH,
            Some(MAX_USERNAME_LENGTH),
            Some(InputPattern::Username),
        ),
        r matches Err(e) ==> e is Username,
{
    match validate_string(username, MIN_USERNAME_LENGTH, Some(MAX_USERNAME_LENGTH), Some(InputPattern::Username)) {
        Ok(()) => Ok(()),
        Err(e) => Err(ValidationError::Username(e)),
    }
}

/// Validates a password: between the configured minimum length and
/// 1000 characters.
pub fn validate_password(password: &str, min_password_length: usize) -> (r: Result<(), ValidationError>)
    ensures
        r is Ok <==> string_passes(password@, min_password_length, Some(MAX_PASSWORD_LENGTH), None),
        r matches Err(e) ==> e is Password,
{
    match validate_string(password, min_password_length, Some(MAX_PASSWORD_LENGTH), None) {
        Ok(()) => Ok(()),
        Err(e) => Err(ValidationError::Password(e)),
    }
}

/// Validates an API key name: at most 200 characters.
pub fn validate_api_key_name(name: &str) -> (r: Result<(), ValidationError>)
    ensures
        r is Ok <==> string_passes(name@, 0, Some(MAX_API_KEY_NAME_LENGTH), None),
        r matches Err(e) ==> e is ApiKeyName,
{
    match validate_string(name, 0, Some(MAX_API_KEY_NAME_LENGTH), None) {
        Ok(()) => Ok(()),
        Err(e) => Err(ValidationError::ApiKeyName(e)),
    }
}

/// Validates a variable name: 1 to 500 characters matching
/// `^[a-zA-Z_][a-zA-Z0-9_]*$`.
pub fn validate_variable_name(name: &str) -> (r: Result<(), ValidationError>)
    ensures
        r is Ok <==> string_passes(
            name@,
            MIN_VARIABLE_NAME_LENGTH,
            Some(MAX_VARIABLE_NAME_LENGTH),
            Some(InputPattern::VariableName),
        ),
        r matches Err(e) ==> e is VariableName,
{
    match validate_string(
        name,
        MIN_VARIABLE_NAME_LENGTH,
        Some(MAX_VARIABLE_NAME_LENGTH),
        Some(InputPattern::VariableName),
    ) {
        Ok(()) => Ok(()),
        Err(e) => Err(ValidationError::VariableName(e)),
    }
}

/// Validates a variable value: at most 10000 characters.
pub fn validate_variable_value(value: &str) -> (r: Result<(), ValidationError>)
    ensures
        r is Ok <==> string_passes(value@, 0, Some(MAX_VARIABLE_VALUE_LENGTH), None),
        r matches Err(e) ==> e is VariableValue,
{
    match validate_string(value, 0, Some(MAX_VARIABLE_VALUE_LENGTH), None) {
        Ok(()) => Ok(()),
        Err(e) => Err(ValidationError::VariableValue(e)),
    }
}

} // verus!
