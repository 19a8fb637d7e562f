//! Instants of time: the system clock, and the texts that chrono writes for
//! an instant.

use vstd::prelude::*;

verus! {

/// A point in time, counted from 1970-01-01 00:00:00 UTC without leap
/// seconds.
#[derive(Clone, Copy, Debug)]
pub struct Instant {
    /// Whole seconds since the epoch.
    pub secs: i64,
    /// Nanoseconds since the last whole second; a thousand million or more
    /// inside a leap second.
    pub nanos: u32,
}

/// The RFC 3339 text that chrono writes for an instant in UTC, such as
/// `2024-01-01T00:00:00+00:00`; `None` where chrono has no date for the
/// instant.
pub uninterp spec fn rfc3339_utc(secs: int, nanos: int) -> Option<Seq<char>>;

/// What a clock on the wall in Jakarta shows at an instant, written by
/// chrono as `%Y-%m-%d %H:%M:%S`; `None` where chrono has no date for the
/// instant. By the tz database Jakarta has been seven hours ahead of UTC
/// since 1964, and kept other offsets before.
pub uninterp spec fn jakarta_wall_clock(secs: int, nanos: int) -> Option<Seq<char>>;

impl Instant {
    /// The text of the instant for the embed's `timestamp`.
    pub open spec fn timestamp_text(self) -> Option<Seq<char>> {
        rfc3339_utc(self.secs as int, self.nanos as int)
    }

    /// The text of the instant for the embed's footer.
    pub open spec fn footer_time_text(self) -> Option<Seq<char>> {
        jakarta_wall_clock(self.secs as int, self.nanos as int)
    }

    /// Reads the system clock. std's `SystemTime::elapsed` on `UNIX_EPOCH`
    /// gives the time since 1970; chrono's `TimeDelta::from_std` and
    /// `DateTime::checked_add_signed` on `DateTime::UNIX_EPOCH` make a date
    /// of it, which `DateTime::timestamp` and
    /// `DateTime::timestamp_subsec_nanos` split. `None` where one of the three
    /// refuses: the clock stands before 1970 or beyond chrono's calendar.
    /// Nothing is claimed of the reading.
    #[verifier::external_body]
    pub(crate) fn now() -> Option<Instant> {
        match std::time::UNIX_EPOCH.elapsed() {
            Ok(elapsed) => match chrono::TimeDelta::from_std(elapsed) {
                Ok(span) => match chrono::DateTime::UNIX_EPOCH.checked_add_signed(span) {
                    Some(date) => Some(
                        Instant { secs: date.timestamp(), nanos: date.timestamp_subsec_nanos() },
                    ),
                    None => None,
                },
                Err(_) => None,
            },
            Err(_) => None,
        }
    }

    /// `DateTime::from_timestamp`, then `DateTime::to_rfc3339`: the result is
    /// what `rfc3339_utc` names.
    #[verifier::external_body]
    pub(crate) fn to_rfc3339(self) -> (text: Option<String>)
        ensures
            text.deep_view() == rfc3339_utc(self.secs as int, self.nanos as int),
    {
        match chrono::DateTime::from_timestamp(self.secs, self.nanos) {
            Some(utc) => Some(utc.to_rfc3339()),
            None => None,
        }
    }
}

} // verus!
