use vstd::prelude::*;

use crate::civil::{
    civil_from_timestamp, civil_matches, civil_seconds, civil_to_timestamp, lemma_civil_exists, lemma_civil_unique,
    spec_civil_of,
    valid_civil, CivilDateTime,
};
use crate::commands::Commands;
use crate::datetime::{timestamp_in_range, DateTime};

verus! {

/// Message of the error that the clock chip gives for fields out of its ranges.
pub const INVALID_INPUT_DATA: &'static str = "invalid input data";

/// The date and time registers of the PCF8563 real-time clock: the year counts from 2000.
#[derive(Clone, Copy, Debug, PartialEq, Eq, Structural)]
pub struct RtcDateTime {
    pub year: u8,
    pub month: u8,
    pub weekday: u8,
    pub day: u8,
    pub hours: u8,
    pub minutes: u8,
    pub seconds: u8,
}

/// The clock's year register for a calendar year: the years since 2000 (kept to 8 bits), and 0
/// for a year before 2000.
pub open spec fn rtc_year_of(year: int) -> u8 {
    if year >= 2000 {
        (year - 2000) as u8
    } else {
        0
    }
}

/// The clock registers that hold a wall-clock reading.
pub open spec fn rtc_fields(c: CivilDateTime) -> RtcDateTime {
    RtcDateTime {
        year: rtc_year_of(c.year as int),
        month: c.month,
        weekday: c.weekday,
        day: c.day,
        hours: c.hour,
        minutes: c.minute,
        seconds: c.second,
    }
}

/// The instant, read as UTC, that the clock registers hold, if they hold a valid reading.
pub open spec fn spec_rtc_instant(r: RtcDateTime) -> Option<DateTime> {
    let year = r.year + 2000;
    if valid_civil(year, r.month as int, r.day as int, r.hours as int, r.minutes as int, r.seconds as int) {
        Some(
            DateTime {
                unix_seconds: civil_seconds(
                    year,
                    r.month as int,
                    r.day as int,
                    r.hours as int,
                    r.minutes as int,
                    r.seconds as int,
                ) as i64,
                offset_seconds: 0,
            },
        )
    } else {
        None
    }
}

impl RtcDateTime {
    /// The registers to write for the wall-clock reading of `now` in its own offset.
    pub fn from_datetime(now: &DateTime) -> (r: RtcDateTime)
        requires
            now.wf(),
        ensures
            civil_matches(spec_civil_of(now.spec_local_seconds()), now.spec_local_seconds()),
            r == rtc_fields(spec_civil_of(now.spec_local_seconds())),
    {
        let local: i64 = now.unix_seconds + now.offset_seconds as i64;
        let c = civil_from_timestamp(local);
        let year: u8 = if c.year >= 2000 {
            (c.year - 2000) as u8
        } else {
            0
        };
        let r = RtcDateTime {
            year,
            month: c.month,
            weekday: c.weekday,
            day: c.day,
            hours: c.hour,
            minutes: c.minute,
            seconds: c.second,
        };
        proof {
            let t = now.spec_local_seconds();
            assert(civil_matches(c, t));
            lemma_civil_unique(c, spec_civil_of(t), t);
        }
        r
    }

    /// The instant the registers hold, read as UTC; `None` when they hold no valid date and
    /// time of day.
    pub fn to_datetime(&self) -> (r: Option<DateTime>)
        ensures
            r == spec_rtc_instant(*self),
            r matches Some(d) ==> d.wf(),
    {
        let year: i32 = self.year as i32 + 2000;
        match civil_to_timestamp(year, self.month, self.day, self.hours, self.minutes, self.seconds) {
            Some(ts) => {
                proof {
                    lemma_civil_seconds_in_range(
                        year as int,
                        self.month as int,
                        self.day as int,
                        self.hours as int,
                        self.minutes as int,
                        self.seconds as int,
                    );
                }
                Some(DateTime { unix_seconds: ts, offset_seconds: 0 })
            },
            None => None,
        }
    }
}

/// A reading of a year from 2000 to 2255 lies within the range of Unix timestamps that the
/// `time` crate supports.
proof fn lemma_civil_seconds_in_range(year: int, month: int, day: int, hour: int, minute: int, second: int)
    requires
        valid_civil(year, month, day, hour, minute, second),
        2000 <= year <= 2255,
    ensures
        timestamp_in_range(civil_seconds(year, month, day, hour, minute, second)),
{
    reveal_with_fuel(crate::civil::days_before_month, 12);
}

/// Writing the wall-clock reading of `now` to the clock and reading it back gives the same
/// wall-clock reading, as a UTC instant, for every year from 2000 to 2255.
pub proof fn lemma_rtc_round_trip(now: DateTime)
    requires
        now.wf(),
        2000 <= spec_civil_of(now.spec_local_seconds()).year <= 2255,
    ensures
        spec_rtc_instant(rtc_fields(spec_civil_of(now.spec_local_seconds()))) == Some(
            DateTime { unix_seconds: now.spec_local_seconds() as i64, offset_seconds: 0 },
        ),
{
    lemma_civil_exists(now.spec_local_seconds());
}

/// What the clock module asks its surroundings to do.
#[derive(Clone, Copy, Debug, PartialEq, Eq, Structural)]
pub enum RtcAction {
    /// Read the clock and announce `TimeNow` with what `RtcDateTime::to_datetime` gives.
    ReadTime,
    /// Write these registers to the clock.
    WriteTime(RtcDateTime),
    /// Leave the module's loop.
    Stop,
}

/// The module that owns the real-time clock.
pub struct RtcModule {}

impl RtcModule {
    /// Handles a command from the bus: `GetTimeNow` reads the clock, `SetTime` writes the
    /// wall-clock reading of the given time, `StartDeepSleep` ends the module; other commands,
    /// and a time outside the `time` crate's range, are ignored.
    pub fn command_handler(command: &Commands) -> (r: Option<RtcAction>)
        ensures
            match *command {
                Commands::GetTimeNow => r == Some(RtcAction::ReadTime),
                Commands::SetTime(t) => if t.wf() {
                    r == Some(RtcAction::WriteTime(rtc_fields(spec_civil_of(t.spec_local_seconds()))))
                } else {
                    r is None
                },
                Commands::StartDeepSleep => r == Some(RtcAction::Stop),
                _ => r is None,
            },
    {
        match command {
            Commands::GetTimeNow => Some(RtcAction::ReadTime),
            Commands::SetTime(t) => {
                if t.is_wf() {
                    Some(RtcAction::WriteTime(RtcDateTime::from_datetime(t)))
                } else {
                    None
                }
            },
            Commands::StartDeepSleep => Some(RtcAction::Stop),
            _ => None,
        }
    }
}

} // verus!
