//! Failures of the protocol engine.

use vstd::prelude::*;

verus! {

/// Why a response body could not be turned into a result.  Every variant is
/// fatal for the operation that met it; a valid "no result" is never reported
/// through this type.
#[derive(Debug, Clone, Copy, PartialEq, Eq, Structural)]
pub enum ParseError {
    /// The text is not JSON of the kind that the operation expects at its
    /// top level.
    Json,
    /// The office identifier is absent from the JSON object.
    MissingOfficeId,
    /// The office identifier is present but is no non-negative integer.
    InvalidOfficeId,
    /// A record lacks a field, or holds a value of the wrong kind in one.
    Record,
    /// The page holds neither the "recently reserved" notice nor the
    /// embedded list of days.
    UnexpectedBody,
    /// A day, month and year that name no calendar date.
    InvalidDate,
    /// The page holds no `<select>` with the expected id.
    MissingSelect,
    /// The `<select>` holds no `<optgroup>`.
    MissingOptgroup,
    /// An `<optgroup>` carries no label.
    MissingLabel,
    /// An `<option>` carries no value.
    MissingValue,
    /// The value of an `<option>` is no identifier.
    InvalidId,
    /// The time of a slot is not written as hours and minutes.
    InvalidTime,
    /// The civil time of a slot does not name exactly one instant in the
    /// office's time zone.
    NoLocalInstant,
}

/// The sentence that describes a failure.
pub open spec fn message_of(error: ParseError) -> Seq<char> {
    match error {
        ParseError::Json => "Parsing response body"@,
        ParseError::MissingOfficeId => "Required office id not present in json"@,
        ParseError::InvalidOfficeId => "Office id is not a valid numeric value"@,
        ParseError::Record => "Response record lacks a field or holds an unexpected value"@,
        ParseError::UnexpectedBody => "Response body didn't match expected response"@,
        ParseError::InvalidDate => "Response names a day that is no calendar date"@,
        ParseError::MissingSelect => "Page holds no select element with the expected id"@,
        ParseError::MissingOptgroup => "Select element holds no option group"@,
        ParseError::MissingLabel => "Option group carries no label"@,
        ParseError::MissingValue => "Option carries no value"@,
        ParseError::InvalidId => "Option value is not a valid identifier"@,
        ParseError::InvalidTime => "Slot time is not written as hours and minutes"@,
        ParseError::NoLocalInstant => "Slot time names no single instant in Europe/Madrid"@,
    }
}

impl ParseError {
    /// A sentence that describes the failure.
    pub fn message(&self) -> (text: &'static str)
        ensures
            text@ == message_of(*self),
    {
        match self {
            ParseError::Json => "Parsing response body",
            ParseError::MissingOfficeId => "Required office id not present in json",
            ParseError::InvalidOfficeId => "Office id is not a valid numeric value",
            ParseError::Record => "Response record lacks a field or holds an unexpected value",
            ParseError::UnexpectedBody => "Response body didn't match expected response",
            ParseError::InvalidDate => "Response names a day that is no calendar date",
            ParseError::MissingSelect => "Page holds no select element with the expected id",
            ParseError::MissingOptgroup => "Select element holds no option group",
            ParseError::MissingLabel => "Option group carries no label",
            ParseError::MissingValue => "Option carries no value",
            ParseError::InvalidId => "Option value is not a valid identifier",
            ParseError::InvalidTime => "Slot time is not written as hours and minutes",
            ParseError::NoLocalInstant => "Slot time names no single instant in Europe/Madrid",
        }
    }
}

} // verus!
