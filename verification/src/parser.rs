//! Field-by-field numeric parsing over a list of whitespace-split fields,
//! mirroring iterator-style consumption with an explicit cursor.

use vstd::prelude::*;
use crate::text::{is_u64_string, digits_val};

verus! {

/// Why a piece of monitoring text was rejected.
#[derive(Clone, Copy, Debug, PartialEq, Eq, Structural)]
pub enum ParseError {
    /// A required field was absent.
    MissingField,
    /// A field was present but is not a decimal number in range.
    InvalidNumber,
    /// A line or value does not have the expected shape.
    BadFormat,
    /// A value carried a unit other than the one understood.
    UnknownUnit,
    /// A value is syntactically fine but does not fit the result type.
    Overflow,
}

/// Parses the field under the cursor as a `u64` and advances the cursor;
/// a missing field is an error.
pub fn parse_next_field(fields: &Vec<String>, pos: &mut usize) -> (r: Result<u64, ParseError>)
    ensures
        *final(pos) == if *old(pos) < fields@.len() {
            *old(pos) + 1int
        } else {
            *old(pos) as int
        },
        match r {
            Ok(v) => *old(pos) < fields@.len() && is_u64_string(fields.deep_view()[*old(pos) as int])
                && v == digits_val(fields.deep_view()[*old(pos) as int]),
            Err(ParseError::MissingField) => *old(pos) >= fields@.len(),
            Err(ParseError::InvalidNumber) => *old(pos) < fields@.len() && !is_u64_string(
                fields.deep_view()[*old(pos) as int],
            ),
            Err(_) => false,
        },
{
    match maybe_parse_next_field(fields, pos) {
        Ok(Some(v)) => Ok(v),
        Ok(None) => Err(ParseError::MissingField),
        Err(e) => Err(e),
    }
}

/// Parses the field under the cursor as a `u64` and advances the cursor;
/// a missing field yields the default value zero.
pub fn parse_next_field_opt(fields: &Vec<String>, pos: &mut usize) -> (r: Result<u64, ParseError>)
    ensures
        *final(pos) == if *old(pos) < fields@.len() {
            *old(pos) + 1int
        } else {
            *old(pos) as int
        },
        match r {
            Ok(v) => if *old(pos) < fields@.len() {
                is_u64_string(fields.deep_view()[*old(pos) as int]) && v == digits_val(
                    fields.deep_view()[*old(pos) as int],
                )
            } else {
                v == 0
            },
            Err(ParseError::InvalidNumber) => *old(pos) < fields@.len() && !is_u64_string(
                fields.deep_view()[*old(pos) as int],
            ),
            Err(_) => false,
        },
{
    match maybe_parse_next_field(fields, pos) {
        Ok(Some(v)) => Ok(v),
        Ok(None) => Ok(0),
        Err(e) => Err(e),
    }
}

/// Parses the field under the cursor as a `u64` and advances the cursor;
/// reports a missing field as `None` rather than an error.
pub fn maybe_parse_next_field(fields: &Vec<String>, pos: &mut usize) -> (r: Result<
    Option<u64>,
    ParseError,
>)
    ensures
        *final(pos) == if *old(pos) < fields@.len() {
            *old(pos) + 1int
        } else {
            *old(pos) as int
        },
        match r {
            Ok(Some(v)) => *old(pos) < fields@.len() && is_u64_string(
                fields.deep_view()[*old(pos) as int],
            ) && v == digits_val(fields.deep_view()[*old(pos) as int]),
            Ok(None) => *old(pos) >= fields@.len(),
            Err(ParseError::InvalidNumber) => *old(pos) < fields@.len() && !is_u64_string(
                fields.deep_view()[*old(pos) as int],
            ),
            Err(_) => false,
        },
{
    if *pos >= fields.len() {
        return Ok(None);
    }
    let s: &String = &fields[*pos];
    *pos = *pos + 1;
    match crate::text::parse_u64_str(s.as_str()) {
        Some(v) => Ok(Some(v)),
        None => Err(ParseError::InvalidNumber),
    }
}

} // verus!
