//! Shorthands that make errors.

use crate::text::joined;
use crate::thinking::error::ErrorKind;
use crate::thinking::error::SequentialThinkingError;
use crate::time::TimeSpan;
use vstd::prelude::*;

verus! {

/// An internal error with the message `error`.
pub fn from_string_error(error: String) -> (e: SequentialThinkingError)
    ensures
        e.kind() == ErrorKind::InternalError,
        e.detail() == error@,
{
    SequentialThinkingError::InternalError { message: error }
}

/// An error from elsewhere, of which `error` is the text.
pub fn from_generic_error(error: String) -> (e: SequentialThinkingError)
    ensures
        e.kind() == ErrorKind::Wrapped,
        e.detail() == error@,
{
    SequentialThinkingError::Wrapped { source: error }
}

/// An error about an operation that took longer than `duration`.
pub fn timeout_error(duration: TimeSpan) -> (e: SequentialThinkingError)
    ensures
        e == (SequentialThinkingError::Timeout { duration }),
{
    SequentialThinkingError::Timeout { duration }
}

/// The message of a validation error about the field `field`.
pub open spec fn field_message(field: Seq<char>, message: Seq<char>) -> Seq<char> {
    "Field '"@ + field + "': "@ + message
}

/// A validation error about the field `field`.
pub fn field_validation_error(field: &str, message: &str) -> (e: SequentialThinkingError)
    ensures
        e.kind() == ErrorKind::ValidationError,
        e.detail() == field_message(field@, message@),
{
    let head = joined("Field '", field);
    let middle = joined(head.as_str(), "': ");
    let text = joined(middle.as_str(), message);
    SequentialThinkingError::ValidationError { message: text }
}

/// A validation error about a field that is missing.
pub fn required_field_error(field: &str) -> (e: SequentialThinkingError)
    ensures
        e.kind() == ErrorKind::ValidationError,
        e.detail() == field_message(field@, "Field is required"@),
{
    field_validation_error(field, "Field is required")
}

/// A validation error about a field that is not in the format `expected`.
pub fn invalid_format_error(field: &str, expected: &str) -> (e: SequentialThinkingError)
    ensures
        e.kind() == ErrorKind::ValidationError,
        e.detail() == field_message(field@, "Expected format: "@ + expected@),
{
    let message = joined("Expected format: ", expected);
    field_validation_error(field, message.as_str())
}

} // verus!
