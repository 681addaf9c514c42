//! Datetimes given as RFC 3339 text, read as seconds since the Unix epoch.

use vstd::prelude::*;

use crate::errors::DeltaTableError;

verus! {

/// Declares chrono's parse error so that table errors can carry it.
#[verifier::external_type_specification]
#[verifier::external_body]
pub struct ExParseError(chrono::ParseError);

/// The seconds since the Unix epoch of the RFC 3339 datetime `s`, or `None`
/// when `s` is not one.
pub uninterp spec fn rfc3339_seconds(s: Seq<char>) -> Option<int>;

/// Relies on chrono's `DateTime::parse_from_rfc3339`, which accepts exactly
/// the RFC 3339 datetimes, and on `DateTime::timestamp`, which gives the
/// whole seconds since the Unix epoch of the instant parsed.
#[verifier::external_body]
fn parse_rfc3339_seconds(s: &str) -> (r: Result<i64, chrono::ParseError>)
    ensures
        r is Ok <==> rfc3339_seconds(s@) is Some,
        r matches Ok(t) ==> rfc3339_seconds(s@) == Some(t as int),
{
    match chrono::DateTime::parse_from_rfc3339(s) {
        Ok(d) => Ok(d.timestamp()),
        Err(e) => Err(e),
    }
}

/// Reads an RFC 3339 datetime as whole seconds since the Unix epoch.
pub fn parse_datetime_seconds(ds: &str) -> (r: Result<i64, DeltaTableError>)
    ensures
        match r {
            Ok(t) => rfc3339_seconds(ds@) == Some(t as int),
            Err(e) => rfc3339_seconds(ds@) is None && e is InvalidDateTimeString,
        },
{
    match parse_rfc3339_seconds(ds) {
        Ok(t) => Ok(t),
        Err(e) => Err(DeltaTableError::InvalidDateTimeString { source: e }),
    }
}

} // verus!
