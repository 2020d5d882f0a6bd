//! Timestamps as the ZIP format stores them.

use vstd::prelude::*;

verus! {

/// A date and time in the range the MS-DOS format can hold, 1980 to 2107.
#[derive(Copy, Clone, PartialEq, Eq, Structural, Debug)]
pub struct DateTime {
    pub year: u16,
    pub month: u8,
    pub day: u8,
    pub hour: u8,
    pub minute: u8,
    pub second: u8,
}

/// Whether the fields name a time the format can hold.
pub open spec fn valid_parts(year: int, month: int, day: int, hour: int, minute: int, second: int) -> bool {
    &&& 1980 <= year <= 2107
    &&& 1 <= month <= 12
    &&& 1 <= day <= 31
    &&& 0 <= hour <= 23
    &&& 0 <= minute <= 59
    &&& 0 <= second <= 60
}

/// Relies on `time::OffsetDateTime::now_utc` and its `year`, `month`, `day`,
/// `hour`, `minute` and `second`, whose ranges `time` documents. What time
/// it is depends on the clock.
#[verifier::external_body]
fn now_utc_parts() -> (r: (i32, u8, u8, u8, u8, u8))
    ensures
        1 <= r.1 <= 12,
        1 <= r.2 <= 31,
        r.3 <= 23,
        r.4 <= 59,
        r.5 <= 59,
{
    let now = time::OffsetDateTime::now_utc();
    (now.year(), u8::from(now.month()), now.day(), now.hour(), now.minute(), now.second())
}

impl DateTime {
    pub open spec fn wf(&self) -> bool {
        valid_parts(
            self.year as int,
            self.month as int,
            self.day as int,
            self.hour as int,
            self.minute as int,
            self.second as int,
        )
    }

    /// 1980-01-01 00:00:00, the earliest time the format can hold.
    pub fn default_time() -> (r: DateTime)
        ensures
            r == (DateTime { year: 1980, month: 1, day: 1, hour: 0, minute: 0, second: 0 }),
    {
        DateTime { year: 1980, month: 1, day: 1, hour: 0, minute: 0, second: 0 }
    }

    /// The time with these fields, if the format can hold it.
    pub fn from_date_and_time(year: i32, month: u8, day: u8, hour: u8, minute: u8, second: u8) -> (r: Option<DateTime>)
        ensures
            valid_parts(year as int, month as int, day as int, hour as int, minute as int, second as int) <==> r is Some,
            r matches Some(d) ==> d == (DateTime { year: year as u16, month, day, hour, minute, second }),
    {
        if 1980 <= year && year <= 2107 && 1 <= month && month <= 12 && 1 <= day && day <= 31
            && hour <= 23 && minute <= 59 && second <= 60 {
            Some(DateTime { year: year as u16, month, day, hour, minute, second })
        } else {
            None
        }
    }

    /// The current UTC time, or the default time where the format cannot hold it.
    pub fn now() -> (r: DateTime)
        ensures
            r.wf(),
    {
        let (year, month, day, hour, minute, second) = now_utc_parts();
        match DateTime::from_date_and_time(year, month, day, hour, minute, second) {
            Some(d) => d,
            None => DateTime::default_time(),
        }
    }
}

impl Default for DateTime {
    fn default() -> (r: DateTime)
        ensures
            r == (DateTime { year: 1980, month: 1, day: 1, hour: 0, minute: 0, second: 0 }),
    {
        DateTime::default_time()
    }
}

} // verus!
