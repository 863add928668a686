//! Timestamps of attachments.

use vstd::prelude::*;

verus! {

/// `chrono::NaiveDateTime`, carried through unread.
#[verifier::external_type_specification]
#[verifier::external_body]
pub struct ExNaiveDateTime(chrono::NaiveDateTime);

/// The whole seconds from the start of 1970 to a date and time that is read
/// as UTC, leap seconds not counted; before 1970 the number is negative.
pub uninterp spec fn utc_seconds(time: chrono::NaiveDateTime) -> int;

/// Reads the date and time as UTC with `chrono::NaiveDateTime::and_utc` and
/// counts the seconds with `chrono::DateTime::timestamp`. The number is a
/// function of the date and time alone, so it is named.
#[verifier::external_body]
fn epoch_seconds(time: &chrono::NaiveDateTime) -> (seconds: i64)
    ensures
        seconds == utc_seconds(*time),
{
    time.and_utc().timestamp()
}

/// A point in time as the service counts it: whole seconds since the start
/// of 1970, UTC.
#[derive(Debug, PartialEq, PartialOrd)]
pub struct SlackTime {
    seconds: i64,
}

impl View for SlackTime {
    type V = int;

    closed spec fn view(&self) -> int {
        self.seconds as int
    }
}

impl DeepView for SlackTime {
    type V = int;

    open spec fn deep_view(&self) -> int {
        self@
    }
}

impl SlackTime {
    /// The time of a date and time that is read as UTC.
    pub fn new(time: &chrono::NaiveDateTime) -> (made: SlackTime)
        ensures
            made@ == utc_seconds(*time),
    {
        SlackTime::from_timestamp(epoch_seconds(time))
    }

    /// The time that lies `seconds` after the start of 1970, UTC.
    pub fn from_timestamp(seconds: i64) -> (time: SlackTime)
        ensures
            time@ == seconds,
    {
        SlackTime { seconds }
    }

    /// The seconds since the start of 1970, UTC.
    pub fn timestamp(&self) -> (seconds: i64)
        ensures
            seconds == self@,
    {
        self.seconds
    }
}

impl Clone for SlackTime {
    fn clone(&self) -> (copy: SlackTime)
        ensures
            copy@ == self@,
    {
        SlackTime { seconds: self.seconds }
    }
}

} // verus!
