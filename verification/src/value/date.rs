//! Dates: instants in time, as milliseconds since the epoch.
//!
//! Which instants can be handled is for the chrono crate to say,
//! since the host takes its dates from there.

use crate::errors::ValueError;
use crate::tag::JsTag;
use vstd::prelude::*;
use vstd::string::StringExecFns;

verus! {

/// Whether chrono has a UTC date for the instant `millis`
/// milliseconds after the epoch.
pub uninterp spec fn chrono_accepts_millis(millis: i64) -> bool;

/// `TimeZone::timestamp_millis_opt` of chrono, on `Utc`: whether it
/// gives exactly one date for `millis`, which for `Utc` is whenever
/// it gives one. The answer depends on `millis` alone.
#[verifier::external_body]
fn utc_has_millis(millis: i64) -> (r: bool)
    ensures
        r == chrono_accepts_millis(millis),
{
    match chrono::TimeZone::timestamp_millis_opt(&chrono::Utc, millis) {
        chrono::LocalResult::Single(_) => true,
        chrono::LocalResult::Ambiguous(_, _) => false,
        chrono::LocalResult::None => false,
    }
}

/// What the engine answered when a date was asked for its time.
#[derive(Debug, Clone, Copy, PartialEq, Eq)]
pub enum Timestamp {
    /// A float; this is its value cut to whole milliseconds.
    Float(i64),
    /// An integer.
    Int(i32),
    /// Something else, of this kind.
    Other(JsTag),
}

impl Timestamp {
    /// The milliseconds that the answer stands for, if it stands for any.
    pub open spec fn millis(self) -> Option<i64> {
        match self {
            Timestamp::Float(f) => Some(f),
            Timestamp::Int(i) => Some(i as i64),
            Timestamp::Other(_) => None,
        }
    }
}

/// The instant that a date of the engine stands for, from what the
/// date answered when asked for its time.
pub fn date_from_timestamp(timestamp: Timestamp) -> (r: Result<i64, ValueError>)
    requires
        timestamp.millis() matches Some(ms) ==> chrono_accepts_millis(ms),
    ensures
        match timestamp.millis() {
            Some(ms) => r == Ok::<i64, ValueError>(ms),
            None => r matches Err(ValueError::Internal(m)) && m@
                == "Could not convert 'Date' instance to timestamp"@,
        },
{
    match timestamp {
        Timestamp::Float(f) => Ok(f),
        Timestamp::Int(i) => Ok(i as i64),
        Timestamp::Other(_) => Err(
            ValueError::Internal(
                String::from_str("Could not convert 'Date' instance to timestamp"),
            ),
        ),
    }
}

/// The instant that a value stands for as a date.
///
/// `is_date` says whether the value is a date at all; where it is
/// not, the value is of an unexpected type. `None` says that the
/// instant is one that chrono has no date for.
pub fn to_date(is_date: bool, timestamp: Timestamp) -> (r: Option<Result<i64, ValueError>>)
    ensures
        if !is_date {
            r == Some(Err::<i64, ValueError>(ValueError::UnexpectedType))
        } else {
            match timestamp.millis() {
                Some(ms) => if chrono_accepts_millis(ms) {
                    r == Some(Ok::<i64, ValueError>(ms))
                } else {
                    r is None
                },
                None => r matches Some(Err(ValueError::Internal(m))) && m@
                    == "Could not convert 'Date' instance to timestamp"@,
            }
        },
{
    if !is_date {
        return Some(Err(ValueError::UnexpectedType));
    }
    let accepted = match timestamp {
        Timestamp::Float(f) => utc_has_millis(f),
        Timestamp::Int(i) => utc_has_millis(i as i64),
        Timestamp::Other(_) => true,
    };
    if accepted {
        Some(date_from_timestamp(timestamp))
    } else {
        None
    }
}

/// Checks what the engine made when it was asked for a date: it
/// must be an object.
pub fn create_date(made: JsTag) -> (r: Result<(), ValueError>)
    ensures
        r is Ok <==> made is Object,
        r matches Err(e) ==> e matches ValueError::Internal(m) && m@
            == "Could not construct Date object"@,
{
    if made.is_object() {
        Ok(())
    } else {
        Err(ValueError::Internal(String::from_str("Could not construct Date object")))
    }
}

} // verus!
