use vstd::prelude::*;

use std::cmp::Ordering;

use crate::calendar::{CalendarEvent, CalendarEventOrderedByStartAsc};
use crate::event_set::comes_before;
use crate::reminders::Reminder;

verus! {

/// Events are ordered latest first: by start, later starts first, and on equal starts by id,
/// larger ids first.
pub open spec fn event_order(a: CalendarEvent, b: CalendarEvent) -> Ordering {
    if a.start.unix_seconds > b.start.unix_seconds || (a.start.unix_seconds == b.start.unix_seconds && a.id > b.id) {
        Ordering::Less
    } else if a.start.unix_seconds == b.start.unix_seconds && a.id == b.id {
        Ordering::Equal
    } else {
        Ordering::Greater
    }
}

/// Events ordered by start ascending, and on equal starts by id ascending.
pub open spec fn ascending_event_order(a: CalendarEvent, b: CalendarEvent) -> Ordering {
    if a.start.unix_seconds < b.start.unix_seconds || (a.start.unix_seconds == b.start.unix_seconds && a.id < b.id) {
        Ordering::Less
    } else if a.start.unix_seconds == b.start.unix_seconds && a.id == b.id {
        Ordering::Equal
    } else {
        Ordering::Greater
    }
}

impl CalendarEvent {
    /// The order of the renderer's event set (see `event_order`).
    pub fn compare(&self, other: &CalendarEvent) -> (r: Ordering)
        ensures
            r == event_order(*self, *other),
    {
        if self.start.unix_seconds > other.start.unix_seconds || (self.start.unix_seconds == other.start.unix_seconds
            && self.id > other.id) {
            Ordering::Less
        } else if self.start.unix_seconds == other.start.unix_seconds && self.id == other.id {
            Ordering::Equal
        } else {
            Ordering::Greater
        }
    }
}

impl CalendarEventOrderedByStartAsc {
    /// The total order: by start ascending, then by id ascending.
    pub fn compare(&self, other: &CalendarEventOrderedByStartAsc) -> (r: Ordering)
        ensures
            r == ascending_event_order(self.0, other.0),
    {
        if self.0.start.unix_seconds < other.0.start.unix_seconds || (self.0.start.unix_seconds
            == other.0.start.unix_seconds && self.0.id < other.0.id) {
            Ordering::Less
        } else if self.0.start.unix_seconds == other.0.start.unix_seconds && self.0.id == other.0.id {
            Ordering::Equal
        } else {
            Ordering::Greater
        }
    }

    /// The partial order, which compares the wrapped events in their own order (latest first).
    pub fn partial_compare(&self, other: &CalendarEventOrderedByStartAsc) -> (r: Option<Ordering>)
        ensures
            r == Some(event_order(self.0, other.0)),
    {
        Some(self.0.compare(&other.0))
    }
}

impl Reminder {
    /// Reminders are ordered by the time they fire.
    pub fn compare(&self, other: &Reminder) -> (r: Ordering)
        ensures
            r == (if self.remind_at.unix_seconds < other.remind_at.unix_seconds {
                Ordering::Less
            } else if self.remind_at.unix_seconds == other.remind_at.unix_seconds {
                Ordering::Equal
            } else {
                Ordering::Greater
            }),
    {
        if self.remind_at.unix_seconds < other.remind_at.unix_seconds {
            Ordering::Less
        } else if self.remind_at.unix_seconds == other.remind_at.unix_seconds {
            Ordering::Equal
        } else {
            Ordering::Greater
        }
    }
}

/// The event order is a strict total order: it is antisymmetric, and `Equal` exactly for the
/// same start and id; `Less` is exactly the order the renderer's event set is kept in.
pub proof fn lemma_event_order_antisymmetric(a: CalendarEvent, b: CalendarEvent)
    ensures
        (event_order(a, b) == Ordering::Less) <==> (event_order(b, a) == Ordering::Greater),
        (event_order(a, b) == Ordering::Equal) <==> (a.start.unix_seconds == b.start.unix_seconds && a.id == b.id),
        ascending_event_order(a, b) == event_order(b, a),
        (event_order(a, b) == Ordering::Less) <==> comes_before(a, b),
{
}

} // verus!
