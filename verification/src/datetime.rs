//! Reading points in time from text.
//!
//! The grammar of dates is chrono's. What this file declares about chrono is
//! taken on trust; each reading is given a name, and what the library does
//! with a reading is stated over that name.

use crate::content::UtcDateTime;
use chrono::{DateTime, ParseError};
use vstd::prelude::*;

verus! {

/// `chrono::ParseError`, carried as an opaque value.
#[verifier::external_type_specification]
#[verifier::external_body]
pub struct ExParseError(ParseError);

/// The point in time that `text` denotes as an RFC 3339 date and time, as
/// whole seconds since the epoch and the nanoseconds past them, or `None`
/// where it denotes none.
pub uninterp spec fn rfc3339_instant(text: Seq<char>) -> Option<(i64, u32)>;

/// The point in time that `text` denotes as an RFC 2822 date and time, as
/// whole seconds since the epoch and the nanoseconds past them, or `None`
/// where it denotes none.
pub uninterp spec fn rfc2822_instant(text: Seq<char>) -> Option<(i64, u32)>;

/// The point in time that `text` denotes when read by the `strftime` pattern
/// `format`, as whole seconds since the epoch and the nanoseconds past them,
/// or `None` where it denotes none.
pub uninterp spec fn formatted_instant(text: Seq<char>, format: Seq<char>) -> Option<(i64, u32)>;

/// `DateTime::parse_from_rfc3339`, followed on success by
/// `DateTime::timestamp` and `DateTime::timestamp_subsec_nanos`: the reading
/// of `text` is the one named by [`rfc3339_instant`].
#[verifier::external_body]
fn parse_rfc3339(text: &str) -> (parsed: Result<(i64, u32), ParseError>)
    ensures
        match parsed {
            Ok(instant) => rfc3339_instant(text@) == Some(instant),
            Err(_) => rfc3339_instant(text@) is None,
        },
{
    match DateTime::parse_from_rfc3339(text) {
        Ok(at) => Ok((at.timestamp(), at.timestamp_subsec_nanos())),
        Err(e) => Err(e),
    }
}

/// `DateTime::parse_from_rfc2822`, followed on success by
/// `DateTime::timestamp` and `DateTime::timestamp_subsec_nanos`: the reading
/// of `text` is the one named by [`rfc2822_instant`].
#[verifier::external_body]
fn parse_rfc2822(text: &str) -> (parsed: Result<(i64, u32), ParseError>)
    ensures
        match parsed {
            Ok(instant) => rfc2822_instant(text@) == Some(instant),
            Err(_) => rfc2822_instant(text@) is None,
        },
{
    match DateTime::parse_from_rfc2822(text) {
        Ok(at) => Ok((at.timestamp(), at.timestamp_subsec_nanos())),
        Err(e) => Err(e),
    }
}

/// `DateTime::parse_from_str`, followed on success by `DateTime::timestamp`
/// and `DateTime::timestamp_subsec_nanos`: the reading of `text` by `format`
/// is the one named by [`formatted_instant`].
#[verifier::external_body]
fn parse_formatted(text: &str, format: &str) -> (parsed: Result<(i64, u32), ParseError>)
    ensures
        match parsed {
            Ok(instant) => formatted_instant(text@, format@) == Some(instant),
            Err(_) => formatted_instant(text@, format@) is None,
        },
{
    match DateTime::parse_from_str(text, format) {
        Ok(at) => Ok((at.timestamp(), at.timestamp_subsec_nanos())),
        Err(e) => Err(e),
    }
}

/// Why a text could not be read as a point in time.
#[derive(Clone, Copy, Debug, PartialEq, Eq, Structural)]
pub enum DateTimeError {
    /// The text does not denote a date and time in the form asked for.
    Invalid,
}

/// The point in time at `instant`, or the failure to read one.
pub open spec fn reading(instant: Option<(i64, u32)>) -> Result<UtcDateTime, DateTimeError> {
    match instant {
        Some(at) => Ok(UtcDateTime { timestamp: at.0, subsec_nanos: at.1 }),
        None => Err(DateTimeError::Invalid),
    }
}

impl UtcDateTime {
    /// The point in time at `instant`, which gives the whole seconds since
    /// the epoch and the nanoseconds past them, or the failure to read one
    /// where there is none.
    pub fn from_reading(instant: Option<(i64, u32)>) -> (at: Result<UtcDateTime, DateTimeError>)
        ensures
            at == reading(instant),
    {
        match instant {
            Some(at) => Ok(UtcDateTime { timestamp: at.0, subsec_nanos: at.1 }),
            None => Err(DateTimeError::Invalid),
        }
    }

    /// Reads an RFC 3339 date and time, such as `1996-12-19T16:39:57-08:00`.
    pub fn from_rfc3339(text: &str) -> (at: Result<UtcDateTime, DateTimeError>)
        ensures
            at == reading(rfc3339_instant(text@)),
    {
        match parse_rfc3339(text) {
            Ok(instant) => Self::from_reading(Some(instant)),
            Err(_) => Self::from_reading(None),
        }
    }

    /// Reads an RFC 2822 date and time, such as
    /// `Tue, 1 Jul 2003 10:52:37 +0200`.
    pub fn from_rfc2822(text: &str) -> (at: Result<UtcDateTime, DateTimeError>)
        ensures
            at == reading(rfc2822_instant(text@)),
    {
        match parse_rfc2822(text) {
            Ok(instant) => Self::from_reading(Some(instant)),
            Err(_) => Self::from_reading(None),
        }
    }

    /// Reads a date and time by the `strftime` pattern `format`.
    pub fn from_format(text: &str, format: &str) -> (at: Result<UtcDateTime, DateTimeError>)
        ensures
            at == reading(formatted_instant(text@, format@)),
    {
        match parse_formatted(text, format) {
            Ok(instant) => Self::from_reading(Some(instant)),
            Err(_) => Self::from_reading(None),
        }
    }
}

} // verus!
