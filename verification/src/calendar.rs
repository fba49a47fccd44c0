use vstd::prelude::*;

use crate::datetime::{offset_in_range, timestamp_in_range, DateTime};
use crate::reference_data::ReferenceTimeUtc;

verus! {

/// Icon shown next to a calendar event; exchanged as its number (`Default` is 0, `Alarm` is 9).
#[derive(Clone, Copy, Debug, PartialEq, Eq, Structural)]
pub enum CalendarEventIcon {
    Default,
    Meeting,
    Birthday,
    Trip,
    Bus,
    Train,
    Car,
    Rain,
    CalendarAlert,
    Alarm,
}

/// Source calendar of an event; exchanged as its number (`Unknown` is 0, `Weather` is 3).
#[derive(Clone, Copy, Debug, PartialEq, Eq, Structural)]
pub enum CalendarKind {
    Unknown,
    Phone,
    Trains,
    Weather,
}

/// State of the reminder of an event; exchanged as its number.
#[derive(Clone, Copy, Debug, PartialEq, Eq, Structural)]
pub enum CalendarEventRemainderStatus {
    Disabled,
    Planned,
    Passed,
}

/// What a timely data record measures.
#[derive(Clone, Copy, Debug, PartialEq, Eq, Structural)]
pub enum TimelyDataMarker {
    Temperature,
}

pub open spec fn icon_code(icon: CalendarEventIcon) -> u8 {
    match icon {
        CalendarEventIcon::Default => 0,
        CalendarEventIcon::Meeting => 1,
        CalendarEventIcon::Birthday => 2,
        CalendarEventIcon::Trip => 3,
        CalendarEventIcon::Bus => 4,
        CalendarEventIcon::Train => 5,
        CalendarEventIcon::Car => 6,
        CalendarEventIcon::Rain => 7,
        CalendarEventIcon::CalendarAlert => 8,
        CalendarEventIcon::Alarm => 9,
    }
}

pub open spec fn kind_code(kind: CalendarKind) -> u8 {
    match kind {
        CalendarKind::Unknown => 0,
        CalendarKind::Phone => 1,
        CalendarKind::Trains => 2,
        CalendarKind::Weather => 3,
    }
}

pub open spec fn remainder_status_code(status: CalendarEventRemainderStatus) -> u8 {
    match status {
        CalendarEventRemainderStatus::Disabled => 0,
        CalendarEventRemainderStatus::Planned => 1,
        CalendarEventRemainderStatus::Passed => 2,
    }
}

impl CalendarEventIcon {
    /// The number the icon is exchanged as.
    pub fn to_u8(&self) -> (r: u8)
        ensures
            r == icon_code(*self),
    {
        match self {
            CalendarEventIcon::Default => 0,
            CalendarEventIcon::Meeting => 1,
            CalendarEventIcon::Birthday => 2,
            CalendarEventIcon::Trip => 3,
            CalendarEventIcon::Bus => 4,
            CalendarEventIcon::Train => 5,
            CalendarEventIcon::Car => 6,
            CalendarEventIcon::Rain => 7,
            CalendarEventIcon::CalendarAlert => 8,
            CalendarEventIcon::Alarm => 9,
        }
    }

    /// The icon exchanged as `code`, or `None` for a number no icon has.
    pub fn from_u8(code: u8) -> (r: Option<CalendarEventIcon>)
        ensures
            r matches Some(icon) ==> icon_code(icon) == code,
            r is None <==> code > 9,
    {
        match code {
            0 => Some(CalendarEventIcon::Default),
            1 => Some(CalendarEventIcon::Meeting),
            2 => Some(CalendarEventIcon::Birthday),
            3 => Some(CalendarEventIcon::Trip),
            4 => Some(CalendarEventIcon::Bus),
            5 => Some(CalendarEventIcon::Train),
            6 => Some(CalendarEventIcon::Car),
            7 => Some(CalendarEventIcon::Rain),
            8 => Some(CalendarEventIcon::CalendarAlert),
            9 => Some(CalendarEventIcon::Alarm),
            _ => None,
        }
    }
}

impl CalendarKind {
    /// The number the kind is exchanged as.
    pub fn to_u8(&self) -> (r: u8)
        ensures
            r == kind_code(*self),
    {
        match self {
            CalendarKind::Unknown => 0,
            CalendarKind::Phone => 1,
            CalendarKind::Trains => 2,
            CalendarKind::Weather => 3,
        }
    }

    /// The kind exchanged as `code`, or `None` for a number no kind has.
    pub fn from_u8(code: u8) -> (r: Option<CalendarKind>)
        ensures
            r matches Some(kind) ==> kind_code(kind) == code,
            r is None <==> code > 3,
    {
        match code {
            0 => Some(CalendarKind::Unknown),
            1 => Some(CalendarKind::Phone),
            2 => Some(CalendarKind::Trains),
            3 => Some(CalendarKind::Weather),
            _ => None,
        }
    }
}

impl CalendarEventRemainderStatus {
    /// The number the status is exchanged as.
    pub fn to_u8(&self) -> (r: u8)
        ensures
            r == remainder_status_code(*self),
    {
        match self {
            CalendarEventRemainderStatus::Disabled => 0,
            CalendarEventRemainderStatus::Planned => 1,
            CalendarEventRemainderStatus::Passed => 2,
        }
    }

    /// The status exchanged as `code`, or `None` for a number no status has.
    pub fn from_u8(code: u8) -> (r: Option<CalendarEventRemainderStatus>)
        ensures
            r matches Some(status) ==> remainder_status_code(status) == code,
            r is None <==> code > 2,
    {
        match code {
            0 => Some(CalendarEventRemainderStatus::Disabled),
            1 => Some(CalendarEventRemainderStatus::Planned),
            2 => Some(CalendarEventRemainderStatus::Passed),
            _ => None,
        }
    }
}

/// A calendar event on the watch, with its times shown in the watch's offset.
#[derive(Debug)]
pub struct CalendarEvent {
    pub kind: CalendarKind,
    pub id: i32,
    pub title: String,
    pub start: DateTime,
    pub end: DateTime,
    pub icon: CalendarEventIcon,
    pub color: u32,
    pub description: String,
    pub lane: u8,
}

impl Clone for CalendarEvent {
    fn clone(&self) -> (r: Self)
        ensures
            r == *self,
    {
        CalendarEvent {
            kind: self.kind,
            id: self.id,
            title: self.title.clone(),
            start: self.start,
            end: self.end,
            icon: self.icon,
            color: self.color,
            description: self.description.clone(),
            lane: self.lane,
        }
    }
}

/// The span of one event on one lane of the clock face.
#[derive(Clone, Copy, Debug)]
pub struct CalendarEventSegment {
    pub event_id: i32,
    pub lane: u8,
    pub start: Option<DateTime>,
    pub end: Option<DateTime>,
}

/// A calendar event as it is exchanged and stored, with its times in UTC.
#[derive(Debug, PartialEq)]
pub struct CalendarEventDto {
    pub kind: CalendarKind,
    pub id: i32,
    pub title: String,
    pub start: ReferenceTimeUtc,
    pub end: ReferenceTimeUtc,
    pub icon: CalendarEventIcon,
    pub color: u32,
    pub description: String,
    pub lane: u8,
}

impl Clone for CalendarEventDto {
    fn clone(&self) -> (r: Self)
        ensures
            r == *self,
    {
        CalendarEventDto {
            kind: self.kind,
            id: self.id,
            title: self.title.clone(),
            start: self.start,
            end: self.end,
            icon: self.icon,
            color: self.color,
            description: self.description.clone(),
            lane: self.lane,
        }
    }
}

/// What identifies a calendar event across updates: its calendar and its id.
#[derive(Clone, Copy, Debug, PartialEq, Eq, Structural)]
pub struct CalendarEventKey(pub CalendarKind, pub i32);

/// A calendar event wrapped so that it orders by ascending start.
#[derive(Debug)]
pub struct CalendarEventOrderedByStartAsc(pub CalendarEvent);

/// One value of hourly data (such as a temperature forecast) linked to an event. The value
/// is carried as the IEEE-754 bit pattern of the `f32` it was sent as.
#[derive(Clone, Copy, Debug, PartialEq, Eq, Structural)]
pub struct TimelyDataRecord {
    pub linked_event_id: i32,
    pub start_at_hour: u8,
    pub duration_seconds: i64,
    pub data_marker: TimelyDataMarker,
    pub value_bits: u32,
}

/// All timely data records linked to one event.
#[derive(Clone, Debug)]
pub struct EventTimelyData {
    pub linked_event_id: i32,
    pub timely_data: Vec<TimelyDataRecord>,
}

/// The key an event is identified by.
pub open spec fn event_key(e: CalendarEvent) -> CalendarEventKey {
    CalendarEventKey(e.kind, e.id)
}

/// The dto of an event: same fields, times as UTC timestamps.
pub open spec fn dto_of(e: CalendarEvent) -> CalendarEventDto {
    CalendarEventDto {
        kind: e.kind,
        id: e.id,
        title: e.title,
        start: ReferenceTimeUtc { unix_epoch_seconds: e.start.unix_seconds },
        end: ReferenceTimeUtc { unix_epoch_seconds: e.end.unix_seconds },
        icon: e.icon,
        color: e.color,
        description: e.description,
        lane: e.lane,
    }
}

/// The event of a dto shown in offset `tz`.
pub open spec fn event_of(dto: CalendarEventDto, tz: i32) -> CalendarEvent {
    CalendarEvent {
        kind: dto.kind,
        id: dto.id,
        title: dto.title,
        start: DateTime { unix_seconds: dto.start.unix_epoch_seconds, offset_seconds: tz },
        end: DateTime { unix_seconds: dto.end.unix_epoch_seconds, offset_seconds: tz },
        icon: dto.icon,
        color: dto.color,
        description: dto.description,
        lane: dto.lane,
    }
}

/// The times of a dto can be shown in offset `tz`.
pub open spec fn dto_times_fit(dto: CalendarEventDto, tz: i32) -> bool {
    &&& offset_in_range(tz as int)
    &&& timestamp_in_range(dto.start.unix_epoch_seconds + tz)
    &&& timestamp_in_range(dto.end.unix_epoch_seconds + tz)
}

impl CalendarEventDto {
    /// The dto of an event.
    pub fn from_event(value: &CalendarEvent) -> (r: CalendarEventDto)
        ensures
            r == dto_of(*value),
    {
        CalendarEventDto {
            id: value.id,
            kind: value.kind,
            title: value.title.clone(),
            start: ReferenceTimeUtc::from_datetime(&value.start),
            end: ReferenceTimeUtc::from_datetime(&value.end),
            icon: value.icon,
            color: value.color,
            description: value.description.clone(),
            lane: value.lane,
        }
    }
}

impl CalendarEvent {
    /// The event of a dto, with its times shown in offset `tz`.
    pub fn new(dto: &CalendarEventDto, tz: i32) -> (r: CalendarEvent)
        requires
            dto_times_fit(*dto, tz),
        ensures
            r == event_of(*dto, tz),
            r.start.wf(),
            r.end.wf(),
    {
        CalendarEvent {
            id: dto.id,
            kind: dto.kind,
            start: dto.start.to_offset_dt(tz),
            end: dto.end.to_offset_dt(tz),
            title: dto.title.clone(),
            icon: dto.icon,
            color: dto.color,
            description: dto.description.clone(),
            lane: dto.lane,
        }
    }

    /// The event of a dto, with its times shown in UTC.
    pub fn from_dto(dto: CalendarEventDto) -> (r: CalendarEvent)
        requires
            timestamp_in_range(dto.start.unix_epoch_seconds as int),
            timestamp_in_range(dto.end.unix_epoch_seconds as int),
        ensures
            r == event_of(dto, 0),
            r.start.wf(),
            r.end.wf(),
    {
        CalendarEvent {
            id: dto.id,
            kind: dto.kind,
            start: dto.start.to_datetime(),
            end: dto.end.to_datetime(),
            title: dto.title,
            icon: dto.icon,
            color: dto.color,
            description: dto.description,
            lane: dto.lane,
        }
    }

    /// The key the event is identified by.
    pub fn key(&self) -> (r: CalendarEventKey)
        ensures
            r == event_key(*self),
    {
        CalendarEventKey(self.kind, self.id)
    }

    /// Length of the event in seconds.
    pub fn duration(&self) -> (r: i64)
        requires
            self.start.wf(),
            self.end.wf(),
        ensures
            r == self.end.unix_seconds - self.start.unix_seconds,
    {
        self.end.seconds_since(&self.start)
    }

    /// Whether two events are the same event for equality: they have the same id.
    pub fn same_id(&self, other: &CalendarEvent) -> (r: bool)
        ensures
            r == (self.id == other.id),
    {
        self.id == other.id
    }
}

impl CalendarEventKey {
    /// Whether two keys are equal.
    pub fn equals(&self, other: &CalendarEventKey) -> (r: bool)
        ensures
            r == (*self == *other),
    {
        self.0 == other.0 && self.1 == other.1
    }
}

/// Conversions between events and dtos keep every field: a dto shown in any offset and
/// turned back into a dto is the dto it was.
pub proof fn lemma_dto_event_roundtrip(dto: CalendarEventDto, tz: i32)
    ensures
        dto_of(event_of(dto, tz)) == dto,
{
}

} // verus!
