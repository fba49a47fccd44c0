use vstd::prelude::*;

verus! {

/// Earliest Unix timestamp (in seconds) that the `time` crate can represent: -9999-01-01 00:00:00 UTC.
pub const MIN_UNIX_TIMESTAMP: i64 = -377705116800i64;

/// Latest Unix timestamp (in seconds) that the `time` crate can represent: 9999-12-31 23:59:59 UTC.
pub const MAX_UNIX_TIMESTAMP: i64 = 253402300799i64;

/// Largest absolute UTC offset, in seconds, that the `time` crate accepts (25:59:59).
pub const MAX_OFFSET_SECONDS: i32 = 93599i32;

pub const SECONDS_PER_MINUTE: i64 = 60i64;

pub const SECONDS_PER_HOUR: i64 = 3600i64;

pub const SECONDS_PER_DAY: i64 = 86400i64;

/// An instant, counted in whole seconds since the Unix epoch, together with the UTC offset
/// in which it is displayed. Two values denote the same instant when their `unix_seconds`
/// agree, whatever their offsets.
#[derive(Clone, Copy, Debug, PartialEq, Eq, Structural)]
pub struct DateTime {
    pub unix_seconds: i64,
    pub offset_seconds: i32,
}

pub open spec fn timestamp_in_range(ts: int) -> bool {
    MIN_UNIX_TIMESTAMP <= ts <= MAX_UNIX_TIMESTAMP
}

pub open spec fn offset_in_range(offset: int) -> bool {
    -MAX_OFFSET_SECONDS <= offset <= MAX_OFFSET_SECONDS
}

impl DateTime {
    /// The value is one the `time` crate can hold: the offset lies within +-25:59:59 and the
    /// wall-clock reading in that offset lies within the years -9999..=9999.
    pub open spec fn wf(self) -> bool {
        &&& timestamp_in_range(self.spec_local_seconds())
        &&& offset_in_range(self.offset_seconds as int)
    }

    /// Seconds since the epoch of the wall-clock reading in this value's offset.
    pub open spec fn spec_local_seconds(self) -> int {
        self.unix_seconds + self.offset_seconds
    }

    /// Hour of the day (0..=23) of the wall clock in this value's offset.
    pub open spec fn spec_hour(self) -> int {
        (self.spec_local_seconds() % SECONDS_PER_DAY as int) / SECONDS_PER_HOUR as int
    }

    /// Minute of the hour (0..=59) of the wall clock in this value's offset.
    pub open spec fn spec_minute(self) -> int {
        (self.spec_local_seconds() % SECONDS_PER_HOUR as int) / SECONDS_PER_MINUTE as int
    }

    /// The instant of a Unix timestamp, shown in UTC.
    pub fn from_unix_utc(unix_seconds: i64) -> (r: DateTime)
        ensures
            timestamp_in_range(unix_seconds as int) ==> r.wf(),
            r.unix_seconds == unix_seconds,
            r.offset_seconds == 0,
    {
        DateTime { unix_seconds, offset_seconds: 0 }
    }

    /// The same instant shown in another offset (`replace_offset` of the instant's local
    /// reading shifted by that offset, which keeps the instant).
    pub fn with_offset(&self, offset_seconds: i32) -> (r: DateTime)
        ensures
            timestamp_in_range(self.unix_seconds + offset_seconds) && offset_in_range(offset_seconds as int) ==> r.wf(),
            r.unix_seconds == self.unix_seconds,
            r.offset_seconds == offset_seconds,
    {
        DateTime { unix_seconds: self.unix_seconds, offset_seconds }
    }

    /// Hour of the day of the wall clock in this value's offset.
    pub fn hour(&self) -> (r: u8)
        requires
            self.wf(),
        ensures
            r == self.spec_hour(),
            r < 24,
    {
        let local: i64 = self.unix_seconds + self.offset_seconds as i64;
        let mut within_day: i64 = local % SECONDS_PER_DAY;
        if within_day < 0 {
            within_day = within_day + SECONDS_PER_DAY;
        }
        assert(within_day == self.spec_local_seconds() % SECONDS_PER_DAY as int);
        (within_day / SECONDS_PER_HOUR) as u8
    }

    /// Minute of the hour of the wall clock in this value's offset.
    pub fn minute(&self) -> (r: u8)
        requires
            self.wf(),
        ensures
            r == self.spec_minute(),
            r < 60,
    {
        let local: i64 = self.unix_seconds + self.offset_seconds as i64;
        let mut within_hour: i64 = local % SECONDS_PER_HOUR;
        if within_hour < 0 {
            within_hour = within_hour + SECONDS_PER_HOUR;
        }
        assert(within_hour == self.spec_local_seconds() % SECONDS_PER_HOUR as int);
        (within_hour / SECONDS_PER_MINUTE) as u8
    }

    /// Whether the value is one the `time` crate can hold (see `wf`).
    pub fn is_wf(&self) -> (r: bool)
        ensures
            r == self.wf(),
    {
        let local: i128 = self.unix_seconds as i128 + self.offset_seconds as i128;
        -MAX_OFFSET_SECONDS <= self.offset_seconds && self.offset_seconds <= MAX_OFFSET_SECONDS
            && MIN_UNIX_TIMESTAMP as i128 <= local && local <= MAX_UNIX_TIMESTAMP as i128
    }

    /// Whole seconds from `earlier` to `self` (negative when `self` comes first).
    pub fn seconds_since(&self, earlier: &DateTime) -> (r: i64)
        requires
            self.wf(),
            earlier.wf(),
        ensures
            r == self.unix_seconds - earlier.unix_seconds,
    {
        self.unix_seconds - earlier.unix_seconds
    }
}

/// `time::UtcOffset::from_whole_seconds` followed by `whole_seconds`: the offset is accepted
/// exactly when it lies within +-25:59:59, and then it is handed back unchanged.
#[verifier::external_body]
pub(crate) fn checked_utc_offset(seconds: i32) -> (r: Option<i32>)
    ensures
        r == (if offset_in_range(seconds as int) { Some(seconds) } else { None::<i32> }),
{
    match time::UtcOffset::from_whole_seconds(seconds) {
        Ok(offset) => Some(offset.whole_seconds()),
        Err(_) => None,
    }
}

/// `time::OffsetDateTime::from_unix_timestamp` followed by `unix_timestamp`: the timestamp is
/// accepted exactly when it lies within the years -9999..=9999, and then it is handed back
/// unchanged.
#[verifier::external_body]
pub(crate) fn checked_unix_timestamp(timestamp: i64) -> (r: Option<i64>)
    ensures
        r == (if timestamp_in_range(timestamp as int) { Some(timestamp) } else { None::<i64> }),
{
    match time::OffsetDateTime::from_unix_timestamp(timestamp) {
        Ok(datetime) => Some(datetime.unix_timestamp()),
        Err(_) => None,
    }
}

/// Builds the instant of a Unix timestamp shown in the given offset, or `None` when the
/// timestamp, the offset or the wall-clock reading in that offset lies outside the ranges that
/// the `time` crate supports.
pub fn checked_datetime(unix_seconds: i64, offset_seconds: i32) -> (r: Option<DateTime>)
    ensures
        r == (if timestamp_in_range(unix_seconds as int) && offset_in_range(offset_seconds as int)
            && timestamp_in_range(unix_seconds + offset_seconds) {
            Some(DateTime { unix_seconds, offset_seconds })
        } else {
            None::<DateTime>
        }),
        r matches Some(d) ==> d.wf(),
{
    match checked_unix_timestamp(unix_seconds) {
        Some(ts) => match checked_utc_offset(offset_seconds) {
            Some(off) => match checked_unix_timestamp(ts + off as i64) {
                Some(_) => Some(DateTime { unix_seconds: ts, offset_seconds: off }),
                None => None,
            },
            None => None,
        },
        None => None,
    }
}

} // verus!
