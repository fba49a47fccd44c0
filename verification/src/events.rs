use vstd::prelude::*;

use crate::calendar::{CalendarEvent, CalendarEventKey, EventTimelyData, TimelyDataRecord};
use crate::datetime::DateTime;
use crate::domain::{ReferenceData, TouchPosition, WakeupCause};
use crate::persistence::PersistenceUnit;
use crate::reminders::Reminder;

verus! {

/// Notifications sent over the message bus.
#[derive(Clone, Debug)]
pub enum Events {
    TimeNow(DateTime),
    BleClientConnected,
    BleClientDisconnected,
    ReferenceData(ReferenceData),
    ReferenceTime(DateTime),
    Wakeup(WakeupCause),
    SharedInterrupt,
    TouchOrMove,
    Key1Press,
    Key2Press,
    TouchPos(TouchPosition),
    IncomingData(Vec<u8>),
    Temperature(i32),
    BatteryLevel(u16),
    Charging(bool),
    InSync(bool),
    ReferenceCalendarEvent(CalendarEvent),
    ReferenceCalendarEventUpdatesBatch(Vec<CalendarEvent>),
    ReferenceCalendarEventDropsBatch(Vec<CalendarEventKey>),
    ReferenceTimelyDataBatch(Vec<TimelyDataRecord>),
    CalendarEvent(CalendarEvent),
    CalendarEventsBatch(Vec<CalendarEvent>),
    TimelyDataBatch(Vec<TimelyDataRecord>),
    DropCalendarEventsBatch(Vec<CalendarEventKey>),
    Restored(PersistenceUnit),
    PersistedCalendarEvents(Vec<CalendarEventKey>),
    FirstRender,
    Reminder(Reminder),
    Term,
    AccelerometerInterrupt(u8),
    RtcAlarmInterrupt(bool),
    EventTimelyData(EventTimelyData),
}

/// The position of an event's variant in the declaration of `Events`.
pub open spec fn variant_index(e: Events) -> u8 {
    match e {
        Events::TimeNow(_) => 0,
        Events::BleClientConnected => 1,
        Events::BleClientDisconnected => 2,
        Events::ReferenceData(_) => 3,
        Events::ReferenceTime(_) => 4,
        Events::Wakeup(_) => 5,
        Events::SharedInterrupt => 6,
        Events::TouchOrMove => 7,
        Events::Key1Press => 8,
        Events::Key2Press => 9,
        Events::TouchPos(_) => 10,
        Events::IncomingData(_) => 11,
        Events::Temperature(_) => 12,
        Events::BatteryLevel(_) => 13,
        Events::Charging(_) => 14,
        Events::InSync(_) => 15,
        Events::ReferenceCalendarEvent(_) => 16,
        Events::ReferenceCalendarEventUpdatesBatch(_) => 17,
        Events::ReferenceCalendarEventDropsBatch(_) => 18,
        Events::ReferenceTimelyDataBatch(_) => 19,
        Events::CalendarEvent(_) => 20,
        Events::CalendarEventsBatch(_) => 21,
        Events::TimelyDataBatch(_) => 22,
        Events::DropCalendarEventsBatch(_) => 23,
        Events::Restored(_) => 24,
        Events::PersistedCalendarEvents(_) => 25,
        Events::FirstRender => 26,
        Events::Reminder(_) => 27,
        Events::Term => 28,
        Events::AccelerometerInterrupt(_) => 29,
        Events::RtcAlarmInterrupt(_) => 30,
        Events::EventTimelyData(_) => 31,
    }
}

impl Events {
    /// The position of the event's variant in the declaration of `Events`.
    pub fn variant(&self) -> (r: u8)
        ensures
            r == variant_index(*self),
    {
        match self {
            Events::TimeNow(_) => 0,
            Events::BleClientConnected => 1,
            Events::BleClientDisconnected => 2,
            Events::ReferenceData(_) => 3,
            Events::ReferenceTime(_) => 4,
            Events::Wakeup(_) => 5,
            Events::SharedInterrupt => 6,
            Events::TouchOrMove => 7,
            Events::Key1Press => 8,
            Events::Key2Press => 9,
            Events::TouchPos(_) => 10,
            Events::IncomingData(_) => 11,
            Events::Temperature(_) => 12,
            Events::BatteryLevel(_) => 13,
            Events::Charging(_) => 14,
            Events::InSync(_) => 15,
            Events::ReferenceCalendarEvent(_) => 16,
            Events::ReferenceCalendarEventUpdatesBatch(_) => 17,
            Events::ReferenceCalendarEventDropsBatch(_) => 18,
            Events::ReferenceTimelyDataBatch(_) => 19,
            Events::CalendarEvent(_) => 20,
            Events::CalendarEventsBatch(_) => 21,
            Events::TimelyDataBatch(_) => 22,
            Events::DropCalendarEventsBatch(_) => 23,
            Events::Restored(_) => 24,
            Events::PersistedCalendarEvents(_) => 25,
            Events::FirstRender => 26,
            Events::Reminder(_) => 27,
            Events::Term => 28,
            Events::AccelerometerInterrupt(_) => 29,
            Events::RtcAlarmInterrupt(_) => 30,
            Events::EventTimelyData(_) => 31,
        }
    }

    /// Whether two events are of the same variant, whatever they carry; this is how a
    /// waiting module recognizes the event it waits for.
    pub fn same_variant(&self, other: &Events) -> (r: bool)
        ensures
            r == (variant_index(*self) == variant_index(*other)),
    {
        self.variant() == other.variant()
    }
}

} // verus!
