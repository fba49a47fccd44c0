use vstd::prelude::*;

use crate::calendar::{event_key, CalendarEvent, CalendarEventKey, EventTimelyData};
use crate::commands::Commands;
use crate::datetime::DateTime;
use crate::event_set::{
    drop_keys, lemma_filter_keeps_order, lemma_filter_membership, member_after_puts, not_dropped,
    not_ended, put_event, put_events, retain_not_ended, same_slot, strictly_ordered,
};
use crate::events::Events;
use crate::fasttrack::FastTrackRtcData;

verus! {

/// What the clock layer shows besides the time.
#[derive(Clone, Copy, Debug, PartialEq, Eq, Structural)]
pub enum VisualMode {
    Normal,
    Details,
}

/// The time the clock shows, if it is known yet.
#[derive(Clone, Copy, Debug)]
pub struct TimeViewModel {
    pub time: Option<DateTime>,
}

/// Everything the watch face is drawn from.
#[derive(Debug)]
pub struct ViewModel {
    pub is_past_first_frame: bool,
    pub is_charging: Option<bool>,
    pub battery_level: Option<u16>,
    pub ble_connected: Option<bool>,
    pub temperature: Option<i32>,
    /// Ordered by later start first, then larger id first; one event per (start, id).
    pub calendar_events: Vec<CalendarEvent>,
    /// At most one entry per linked event.
    pub timely_data: Vec<EventTimelyData>,
    pub force_render_events: bool,
    pub time_vm: TimeViewModel,
    pub mode: VisualMode,
    pub alarm_counter: i16,
    pub gesture: u8,
}

/// The number of frames during which the alarm sign is shown after a reminder fires.
pub const ALARM_FRAMES: i16 = 10i16;

pub open spec fn timely_ids_unique(s: Seq<EventTimelyData>) -> bool {
    forall|i: int, j: int|
        0 <= i < j < s.len() ==> (#[trigger] s[i]).linked_event_id != (#[trigger] s[j]).linked_event_id
}

/// The mode that `Key1Press` switches to.
pub open spec fn toggled(mode: VisualMode) -> VisualMode {
    match mode {
        VisualMode::Normal => VisualMode::Details,
        VisualMode::Details => VisualMode::Normal,
    }
}

/// Whether the view model reacts to the event.
pub open spec fn changes_view(event: Events) -> bool {
    match event {
        Events::TimeNow(_) | Events::Temperature(_) | Events::BatteryLevel(_) | Events::Charging(_)
        | Events::BleClientConnected | Events::BleClientDisconnected | Events::CalendarEvent(_)
        | Events::CalendarEventsBatch(_) | Events::DropCalendarEventsBatch(_) | Events::Key1Press
        | Events::Reminder(_) | Events::AccelerometerInterrupt(_) | Events::EventTimelyData(_) => true,
        _ => false,
    }
}

/// The events an event can be applied to the view model with: times the clock can read.
pub open spec fn change_wf(event: Events) -> bool {
    event matches Events::TimeNow(t) ==> t.wf()
}

/// Whether `x` is among the view's events after `event` changed them (before events that
/// have ended are removed).
pub open spec fn member_after_change(old: Seq<CalendarEvent>, event: Events, x: CalendarEvent) -> bool {
    match event {
        Events::CalendarEvent(e) => x == e || (old.contains(x) && !same_slot(x, e)),
        Events::CalendarEventsBatch(batch) => member_after_puts(old, batch@, x),
        Events::DropCalendarEventsBatch(keys) => old.contains(x) && !keys@.contains(event_key(x)),
        _ => old.contains(x),
    }
}

/// Whether the events layer must be redrawn from scratch after `event`.
pub open spec fn force_after_change(vm: ViewModel, event: Events) -> bool {
    match event {
        Events::TimeNow(now) => vm.force_render_events || (vm.time_vm.time matches Some(t)
            && now.spec_minute() != t.spec_minute()),
        Events::CalendarEvent(_) => true,
        Events::CalendarEventsBatch(batch) => vm.force_render_events || batch@.len() > 0,
        Events::DropCalendarEventsBatch(keys) => vm.force_render_events || keys@.len() > 0,
        _ => vm.force_render_events,
    }
}

impl ViewModel {
    pub open spec fn wf(&self) -> bool {
        &&& strictly_ordered(self.calendar_events@)
        &&& timely_ids_unique(self.timely_data@)
        &&& (self.time_vm.time matches Some(t) ==> t.wf())
    }

    /// The view model of a freshly started renderer: the time the real-time clock reported,
    /// and the alarm sign on if the clock's alarm fired.
    pub fn new(rtc_data: &FastTrackRtcData) -> (r: ViewModel)
        requires
            rtc_data.now matches Some(t) ==> t.wf(),
        ensures
            r.wf(),
            r.time_vm.time == rtc_data.now,
            r.alarm_counter == (if rtc_data.alarm_status { ALARM_FRAMES } else { 0 }),
            r.battery_level is None,
            r.is_charging is None,
            r.ble_connected is None,
            r.temperature is None,
            r.calendar_events@.len() == 0,
            r.timely_data@.len() == 0,
            !r.force_render_events,
            r.mode == VisualMode::Normal,
            !r.is_past_first_frame,
            r.gesture == 0,
    {
        ViewModel {
            battery_level: None,
            is_charging: None,
            ble_connected: None,
            temperature: None,
            calendar_events: Vec::new(),
            force_render_events: false,
            mode: VisualMode::Normal,
            time_vm: TimeViewModel { time: rtc_data.now },
            is_past_first_frame: false,
            alarm_counter: if rtc_data.alarm_status { ALARM_FRAMES } else { 0 },
            gesture: 0,
            timely_data: Vec::new(),
        }
    }
}

/// Stores the timely data of one event, in place of what was stored for that event.
pub fn append_timely_data(timely: &mut Vec<EventTimelyData>, data: EventTimelyData)
    requires
        timely_ids_unique(old(timely)@),
    ensures
        timely_ids_unique(final(timely)@),
        forall|x: EventTimelyData|
            #[trigger] final(timely)@.contains(x) <==> (x == data || (old(timely)@.contains(x)
                && x.linked_event_id != data.linked_event_id)),
{
    let ghost s = timely@;
    let ghost d = data;
    let mut i: usize = 0;
    while i < timely.len()
        invariant
            0 <= i <= timely@.len(),
            timely@ == s,
            d == data,
            s == old(timely)@,
            timely_ids_unique(s),
            forall|k: int| 0 <= k < i ==> (#[trigger] s[k]).linked_event_id != d.linked_event_id,
        decreases timely@.len() - i,
    {
        if timely[i].linked_event_id == data.linked_event_id {
            timely.set(i, data);
            assert forall|x: EventTimelyData|
                #[trigger] timely@.contains(x) <==> (x == d || (s.contains(x) && x.linked_event_id
                    != d.linked_event_id)) by {
                if timely@.contains(x) {
                    let k = choose|k: int| 0 <= k < timely@.len() && timely@[k] == x;
                    if k != i {
                        assert(s[k] == x);
                    }
                }
                if x == d {
                    assert(timely@[i as int] == x);
                }
                if s.contains(x) && x.linked_event_id != d.linked_event_id {
                    let k = choose|k: int| 0 <= k < s.len() && s[k] == x;
                    assert(timely@[k] == x);
                }
            }
            assert(timely_ids_unique(timely@)) by {
                assert forall|a: int, b: int| 0 <= a < b < timely@.len() implies (
                #[trigger] timely@[a]).linked_event_id != (#[trigger] timely@[b]).linked_event_id by {
                    if a != i && b != i {
                        assert(s[a].linked_event_id != s[b].linked_event_id);
                    } else if a == i {
                        assert(s[a].linked_event_id != s[b].linked_event_id);
                    } else {
                        assert(s[a].linked_event_id != s[b].linked_event_id);
                    }
                }
            }
            return;
        }
        i = i + 1;
    }
    timely.push(data);
    assert forall|x: EventTimelyData|
        #[trigger] timely@.contains(x) <==> (x == d || (s.contains(x) && x.linked_event_id
            != d.linked_event_id)) by {
        if timely@.contains(x) {
            let k = choose|k: int| 0 <= k < timely@.len() && timely@[k] == x;
            if k < s.len() {
                assert(s[k] == x);
            }
        }
        if x == d {
            assert(timely@[s.len() as int] == x);
        }
        if s.contains(x) && x.linked_event_id != d.linked_event_id {
            let k = choose|k: int| 0 <= k < s.len() && s[k] == x;
            assert(timely@[k] == x);
        }
    }
}

/// Applies an event to the view model and then drops the events that have ended by the
/// clock's time. Returns whether the view model reacts to such an event at all.
pub fn try_apply_change(event: Events, view_model: &mut ViewModel) -> (r: bool)
    requires
        old(view_model).wf(),
        change_wf(event),
    ensures
        final(view_model).wf(),
        r == changes_view(event),
        final(view_model).time_vm.time == (if event is TimeNow {
            Some(event->TimeNow_0)
        } else {
            old(view_model).time_vm.time
        }),
        final(view_model).temperature == (if event is Temperature {
            Some(event->Temperature_0)
        } else {
            old(view_model).temperature
        }),
        final(view_model).battery_level == (if event is BatteryLevel {
            Some(event->BatteryLevel_0)
        } else {
            old(view_model).battery_level
        }),
        final(view_model).is_charging == (if event is Charging {
            Some(event->Charging_0)
        } else {
            old(view_model).is_charging
        }),
        final(view_model).ble_connected == (if event is BleClientConnected {
            Some(true)
        } else if event is BleClientDisconnected {
            Some(false)
        } else {
            old(view_model).ble_connected
        }),
        final(view_model).mode == (if event is Key1Press {
            toggled(old(view_model).mode)
        } else {
            old(view_model).mode
        }),
        final(view_model).alarm_counter == (if event is Reminder {
            ALARM_FRAMES
        } else {
            old(view_model).alarm_counter
        }),
        final(view_model).gesture == (if event is AccelerometerInterrupt {
            event->AccelerometerInterrupt_0
        } else {
            old(view_model).gesture
        }),
        final(view_model).is_past_first_frame == old(view_model).is_past_first_frame,
        final(view_model).force_render_events == force_after_change(*old(view_model), event),
        forall|x: CalendarEvent|
            #[trigger] final(view_model).calendar_events@.contains(x) <==> (member_after_change(
                old(view_model).calendar_events@,
                event,
                x,
            ) && (final(view_model).time_vm.time matches Some(now) ==> x.end.unix_seconds
                >= now.unix_seconds)),
        event is EventTimelyData ==> forall|x: EventTimelyData|
            #[trigger] final(view_model).timely_data@.contains(x) <==> (x == event->EventTimelyData_0
                || (old(view_model).timely_data@.contains(x) && x.linked_event_id
                != event->EventTimelyData_0.linked_event_id)),
        !(event is EventTimelyData) ==> final(view_model).timely_data@ == old(view_model).timely_data@,
{
    let ghost old_events = view_model.calendar_events@;
    let ghost ev = event;
    let mut state_changed = true;
    match event {
        Events::TimeNow(now) => {
            if let Some(time) = view_model.time_vm.time {
                if now.minute() != time.minute() {
                    view_model.force_render_events = true;
                }
            }
            view_model.time_vm.time = Some(now);
        },
        Events::Temperature(tmpr) => {
            view_model.temperature = Some(tmpr);
        },
        Events::BatteryLevel(level) => {
            view_model.battery_level = Some(level);
        },
        Events::Charging(is_charging) => {
            view_model.is_charging = Some(is_charging);
        },
        Events::BleClientConnected => {
            view_model.ble_connected = Some(true);
        },
        Events::BleClientDisconnected => {
            view_model.ble_connected = Some(false);
        },
        Events::CalendarEvent(calendar_event) => {
            put_event(&mut view_model.calendar_events, calendar_event);
            view_model.force_render_events = true;
        },
        Events::CalendarEventsBatch(batch) => {
            put_events(&mut view_model.calendar_events, &batch);
            if batch.len() > 0 {
                view_model.force_render_events = true;
            }
        },
        Events::DropCalendarEventsBatch(batch) => {
            drop_keys(&mut view_model.calendar_events, &batch);
            proof {
                lemma_filter_keeps_order(old_events, not_dropped(batch@));
                assert forall|x: CalendarEvent|
                    #[trigger] view_model.calendar_events@.contains(x) <==> (old_events.contains(x)
                        && !batch@.contains(event_key(x))) by {
                    lemma_filter_membership(old_events, not_dropped(batch@), x);
                }
            }
            if batch.len() > 0 {
                view_model.force_render_events = true;
            }
        },
        Events::Key1Press => {
            view_model.mode = match view_model.mode {
                VisualMode::Normal => VisualMode::Details,
                VisualMode::Details => VisualMode::Normal,
            };
        },
        Events::Reminder(_reminder) => {
            view_model.alarm_counter = ALARM_FRAMES;
        },
        Events::AccelerometerInterrupt(gesture) => {
            view_model.gesture = gesture;
        },
        Events::EventTimelyData(data) => {
            append_timely_data(&mut view_model.timely_data, data);
        },
        _ => {
            state_changed = false;
        },
    }
    assert(forall|x: CalendarEvent|
        #[trigger] view_model.calendar_events@.contains(x) <==> member_after_change(old_events, ev, x));
    if let Some(now) = view_model.time_vm.time {
        let ghost changed = view_model.calendar_events@;
        retain_not_ended(&mut view_model.calendar_events, &now);
        proof {
            lemma_filter_keeps_order(changed, not_ended(now));
            assert forall|x: CalendarEvent|
                #[trigger] view_model.calendar_events@.contains(x) <==> (changed.contains(x)
                    && x.end.unix_seconds >= now.unix_seconds) by {
                lemma_filter_membership(changed, not_ended(now), x);
            }
        }
    }
    state_changed
}

} // verus!
