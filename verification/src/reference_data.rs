use vstd::prelude::*;

use crate::datetime::{offset_in_range, timestamp_in_range, DateTime};

verus! {

/// Reference time as sent by the phone: a Unix timestamp and the UTC offset of the phone.
#[derive(Clone, Copy, Debug, PartialEq, Eq, Structural)]
pub struct ReferenceTimeOffset {
    pub now: i64,
    pub offset_seconds: i32,
}

/// An instant in UTC, as it is stored and exchanged.
#[derive(Clone, Copy, Debug, PartialEq, Eq, Structural)]
pub struct ReferenceTimeUtc {
    pub unix_epoch_seconds: i64,
}

impl ReferenceTimeUtc {
    /// The Unix timestamp of an instant; the offset it was shown in is dropped.
    pub fn from_datetime(value: &DateTime) -> (r: ReferenceTimeUtc)
        ensures
            r.unix_epoch_seconds == value.unix_seconds,
    {
        ReferenceTimeUtc { unix_epoch_seconds: value.unix_seconds }
    }

    /// The stored instant shown in UTC.
    pub fn to_datetime(&self) -> (r: DateTime)
        requires
            timestamp_in_range(self.unix_epoch_seconds as int),
        ensures
            r == (DateTime { unix_seconds: self.unix_epoch_seconds, offset_seconds: 0 }),
            r.wf(),
    {
        DateTime::from_unix_utc(self.unix_epoch_seconds)
    }

    /// The stored instant shown in the offset `tz`: the timestamp is shifted by the offset and
    /// the offset is then put in place of UTC, which leaves the instant unchanged.
    pub fn to_offset_dt(&self, tz: i32) -> (r: DateTime)
        requires
            offset_in_range(tz as int),
            timestamp_in_range(self.unix_epoch_seconds + tz),
        ensures
            r == (DateTime { unix_seconds: self.unix_epoch_seconds, offset_seconds: tz }),
            r.wf(),
    {
        DateTime { unix_seconds: self.unix_epoch_seconds, offset_seconds: tz }
    }
}

} // verus!
