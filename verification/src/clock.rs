//! Dates and times.
use vstd::prelude::*;

use crate::model::NaiveDateTime;

verus! {

/// The first second of the year -262143.
pub const EARLIEST: i64 = -8_334_601_228_800;

/// The last second of the year 262142.
pub const LATEST: i64 = 8_210_266_876_799;

impl NaiveDateTime {
    /// Whether `chrono::DateTime::from_timestamp` accepts this date and time. It takes a leap second
    /// only after the last second of a minute, as a clock shows them.
    pub open spec fn representable(self) -> bool {
        &&& EARLIEST <= self.secs <= LATEST
        &&& self.nanos < 1_000_000_000 || self.nanos < 2_000_000_000 && self.secs % 60 == 59
    }

    /// The date and time that lies this many minutes later, if it can be represented. Later than
    /// a leap second, the nanoseconds are those since the start of the leap second.
    pub open spec fn after_minutes(self, minutes: int) -> Option<NaiveDateTime> {
        if self.representable() && self.secs + 60 * minutes <= LATEST {
            Some(
                NaiveDateTime {
                    secs: (self.secs + 60 * minutes) as i64,
                    nanos: (self.nanos % 1_000_000_000) as u32,
                },
            )
        } else {
            None
        }
    }

    /// Adds minutes, as far as the sum can be represented.
    pub fn plus_minutes(self, minutes: i64) -> (later: Option<NaiveDateTime>)
        requires
            0 < minutes <= 153_722_867_280_912,
        ensures
            later == self.after_minutes(minutes as int),
    {
        match add_minutes(self.secs, self.nanos, minutes) {
            Some((secs, nanos)) => Some(NaiveDateTime { secs, nanos }),
            None => None,
        }
    }
}

/// Reads a date and time with `chrono::DateTime::from_timestamp`, adds minutes to it with
/// `chrono::NaiveDateTime::checked_add_signed`, and takes it apart again. The addition knows no
/// leap seconds but the one that it may start from. Nothing comes back where the date and time is
/// not one, or where the sum is out of range. `chrono::Duration::minutes` panics on more minutes
/// than are admitted here.
#[verifier::external_body]
fn add_minutes(secs: i64, nanos: u32, minutes: i64) -> (sum: Option<(i64, u32)>)
    requires
        0 < minutes <= 153_722_867_280_912,
    ensures
        ({
            let start = NaiveDateTime { secs, nanos };
            match sum {
                Some((secs, nanos)) => start.after_minutes(minutes as int) == Some(
                    NaiveDateTime { secs, nanos },
                ),
                None => start.after_minutes(minutes as int) is None,
            }
        }),
{
    let start = chrono::DateTime::from_timestamp(secs, nanos)?.naive_utc();
    let later = start.checked_add_signed(chrono::Duration::minutes(minutes))?.and_utc();
    Some((later.timestamp(), later.timestamp_subsec_nanos()))
}

/// Minutes later, the same second of the minute is shown, sixty seconds further for each minute, and
/// a leap second counts as the second before it. There is no such time where the clock showed none
/// that can be read, or where it would lie after the last second of the year 262142.
pub proof fn minutes_are_sixty_seconds(start: NaiveDateTime, minutes: int)
    requires
        minutes > 0,
    ensures
        ({
            let leap = 1_000_000_000 <= start.nanos < 2_000_000_000 && start.secs % 60 == 59;
            let readable = {
                &&& -8_334_601_228_800 <= start.secs <= 8_210_266_876_799
                &&& start.nanos < 1_000_000_000 || leap
            };
            match start.after_minutes(minutes) {
                Some(later) => {
                    &&& readable
                    &&& later.secs - start.secs == 60 * minutes
                    &&& later.secs <= 8_210_266_876_799
                    &&& start.nanos - later.nanos == if leap {
                        1_000_000_000int
                    } else {
                        0
                    }
                },
                None => !readable || start.secs + 60 * minutes > 8_210_266_876_799,
            }
        }),
{
}

} // verus!
