//! Instants, and the text that stands for one in a response.

use crate::error::{encoded, EncodeError};
use vstd::prelude::*;

verus! {

/// An instant: milliseconds since the start of 1970, UTC.
#[derive(Clone, Copy, Debug, PartialEq, Eq, PartialOrd, Ord, Hash)]
pub struct DateTime {
    pub millis: i64,
}

/// The error of bson's `DateTime`. Nothing is known of what one holds.
#[verifier::external_type_specification]
#[verifier::external_body]
pub struct ExDateTimeError(mongodb::bson::datetime::Error);

/// The RFC 3339 text that bson writes for the instant at the given
/// milliseconds; `None` where it cannot write the instant in that format.
pub uninterp spec fn rfc3339_text(millis: i64) -> Option<Seq<char>>;

/// The text that a response shows for a timestamp of a record: that of the
/// timestamp, or that of `now` where the record has none.
pub open spec fn valid_datetime_text(ts: Option<DateTime>, now: DateTime) -> Option<Seq<char>> {
    match ts {
        Some(t) => rfc3339_text(t.millis),
        None => rfc3339_text(now.millis),
    }
}

/// Calls `DateTime::try_to_rfc3339_string` of bson on the instant at the
/// given milliseconds. Whether it succeeds and what it writes depend on the
/// milliseconds alone: the instant is written in UTC, and no locale or time
/// zone of the machine enters.
#[verifier::external_body]
fn to_rfc3339(millis: i64) -> (r: Result<String, mongodb::bson::datetime::Error>)
    ensures
        r is Ok <==> rfc3339_text(millis) is Some,
        r matches Ok(text) ==> rfc3339_text(millis) == Some(text@),
{
    mongodb::bson::DateTime::from_millis(millis).try_to_rfc3339_string()
}

impl DateTime {
    /// Calls `DateTime::now` of bson, which reads the system clock. Nothing
    /// is claimed of the instant that comes back.
    #[verifier::external_body]
    pub(crate) fn now() -> DateTime {
        DateTime { millis: mongodb::bson::DateTime::now().timestamp_millis() }
    }
}

/// The text that a response shows for a timestamp of a record. Where the
/// record has none, the text of `now` stands in its place. Fails where the
/// instant cannot be written.
pub fn into_valid_datetime(ts: Option<DateTime>, now: DateTime) -> (r: Result<String, EncodeError>)
    ensures
        encoded(r) == valid_datetime_text(ts, now),
{
    let shown = match ts {
        Some(t) => t,
        None => now,
    };
    match to_rfc3339(shown.millis) {
        Ok(text) => Ok(text),
        Err(_) => Err(EncodeError {  }),
    }
}

} // verus!
