use vstd::prelude::*;

use crate::calendar::{
    dto_of, dto_times_fit, event_key, event_of, CalendarEvent, CalendarEventDto, CalendarEventKey,
    CalendarKind, EventTimelyData, TimelyDataMarker, TimelyDataRecord,
};
use crate::commands::Commands;
use crate::datetime::{timestamp_in_range, DateTime, MIN_UNIX_TIMESTAMP};
use crate::event_set::{drop_keys, lemma_filter_membership, not_dropped, not_ended, retain_not_ended};
use crate::events::Events;
use crate::persistence::PersistenceUnitKind;
use crate::reference_data::ReferenceTimeUtc;
use crate::reminders::{sort_by_time, sorted_by_time, Reminder, ReminderKind};

verus! {

broadcast use vstd::seq_lib::group_seq_properties;

/// Version of the persisted calendar state written by this module.
pub const CALENDAR_STATE_VERSION: i32 = 3i32;

/// Number of restored events announced per batch.
pub const RESTORE_CHUNK_SIZE: usize = 5usize;

/// How long before an event its notification fires, in seconds.
pub const NOTIFICATION_LEAD_SECONDS: i64 = 600i64;

/// Only events shorter than this many seconds get reminders.
pub const REMINDER_MAX_DURATION_SECONDS: i64 = 86400i64;

/// The calendar as it is persisted.
#[derive(Debug)]
pub struct CalendarStateDto {
    pub version: i32,
    pub last_sync: ReferenceTimeUtc,
    pub events: Vec<CalendarEventDto>,
    pub timely_data: Vec<TimelyDataRecord>,
}

impl CalendarStateDto {
    /// A calendar state of the current version.
    pub fn new(
        events: Vec<CalendarEventDto>,
        timely_data: Vec<TimelyDataRecord>,
        last_sync: ReferenceTimeUtc,
    ) -> (r: CalendarStateDto)
        ensures
            r.version == CALENDAR_STATE_VERSION,
            r.events@ == events@,
            r.timely_data@ == timely_data@,
            r.last_sync == last_sync,
    {
        CalendarStateDto { version: CALENDAR_STATE_VERSION, events, timely_data, last_sync }
    }
}

/// The module that keeps the calendar in sync, persists it and plans reminders.
pub struct CalendarModule {}

/// What the calendar module asks its surroundings to do.
#[derive(Debug)]
pub enum CalendarAction {
    /// Send the event over the message bus.
    Send(Events),
    /// Send the command over the message bus.
    Command(Commands),
    /// Serialize the state and send it as a `Persist` command of the calendar sync kind.
    PersistState(CalendarStateDto),
    /// Deserialize this persisted state and hand it back to `apply_restored` with this offset.
    Restore { data: Vec<u8>, utc_offset: i32 },
    /// Send a `Temperature` event with this `f32` value (given by its bit pattern), rounded.
    SendTemperature { value_bits: u32 },
}

/// The calendar module's state.
#[derive(Debug)]
pub struct CalendarContext {
    /// The known events, at most one per key.
    pub update_events: Vec<CalendarEvent>,
    /// Timely data grouped by linked event, at most one group per event.
    pub timely_data: Vec<EventTimelyData>,
    pub now: Option<DateTime>,
    pub utc_offset: Option<i32>,
}

/// The times of an event can be read.
pub open spec fn event_fits(e: CalendarEvent) -> bool {
    &&& e.start.wf()
    &&& e.end.wf()
}

/// The notification time of an event, ten minutes before its start, can be read.
pub open spec fn notification_fits(e: CalendarEvent) -> bool {
    timestamp_in_range(e.start.spec_local_seconds() - NOTIFICATION_LEAD_SECONDS)
}

/// Every event of `events` that gets reminders at `now` has a readable notification time.
pub open spec fn reminders_fit(events: Seq<CalendarEvent>, now: int) -> bool {
    forall|i: int| 0 <= i < events.len() && gets_reminders(#[trigger] events[i], now) ==> notification_fits(events[i])
}

/// Every event of `events` that has not ended at `now` and gets reminders then has a readable
/// notification time: the events whose reminders persisting plans.
pub open spec fn kept_reminders_fit(events: Seq<CalendarEvent>, now: DateTime) -> bool {
    forall|i: int|
        0 <= i < events.len() && not_ended(now)(#[trigger] events[i]) && gets_reminders(
            events[i],
            now.unix_seconds as int,
        ) ==> notification_fits(events[i])
}

pub open spec fn keys_unique(s: Seq<CalendarEvent>) -> bool {
    forall|i: int, j: int| 0 <= i < j < s.len() ==> event_key(#[trigger] s[i]) != event_key(#[trigger] s[j])
}

pub open spec fn all_fit(s: Seq<CalendarEvent>) -> bool {
    forall|i: int| 0 <= i < s.len() ==> event_fits(#[trigger] s[i])
}

/// Some event of `s` has key `k`.
pub open spec fn has_key(s: Seq<CalendarEvent>, k: CalendarEventKey) -> bool {
    exists|i: int| 0 <= i < s.len() && event_key(#[trigger] s[i]) == k
}

/// Each group holds only records linked to its event, none twice, and no two groups share
/// an event.
pub open spec fn timely_wf(s: Seq<EventTimelyData>) -> bool {
    &&& forall|i: int, j: int|
        0 <= i < j < s.len() ==> (#[trigger] s[i]).linked_event_id != (#[trigger] s[j]).linked_event_id
    &&& forall|i: int| 0 <= i < s.len() ==> (#[trigger] s[i]).timely_data@.no_duplicates()
    &&& forall|i: int, j: int|
        0 <= i < s.len() && 0 <= j < s[i].timely_data@.len() ==> (#[trigger] s[i].timely_data@[j]).linked_event_id
            == s[i].linked_event_id
}

/// Some group of `s` holds record `r`.
pub open spec fn timely_has(s: Seq<EventTimelyData>, r: TimelyDataRecord) -> bool {
    exists|i: int| 0 <= i < s.len() && (#[trigger] s[i]).timely_data@.contains(r)
}

/// All records of all groups, group after group.
pub open spec fn flatten(s: Seq<EventTimelyData>) -> Seq<TimelyDataRecord>
    decreases s.len(),
{
    if s.len() == 0 {
        Seq::empty()
    } else {
        flatten(s.drop_last()) + s.last().timely_data@
    }
}

/// The event gets reminders: it has not started before `now` and lasts less than a day.
pub open spec fn gets_reminders(e: CalendarEvent, now: int) -> bool {
    e.start.unix_seconds >= now && e.end.unix_seconds - e.start.unix_seconds
        < REMINDER_MAX_DURATION_SECONDS
}

/// The notification ten minutes before an event.
pub open spec fn notification_of(e: CalendarEvent) -> Reminder {
    Reminder {
        event_id: e.id,
        kind: ReminderKind::Notification,
        remind_at: DateTime {
            unix_seconds: (e.start.unix_seconds - NOTIFICATION_LEAD_SECONDS) as i64,
            offset_seconds: e.start.offset_seconds,
        },
    }
}

/// The reminder at the start of an event.
pub open spec fn start_reminder_of(e: CalendarEvent) -> Reminder {
    Reminder { event_id: e.id, kind: ReminderKind::Event, remind_at: e.start }
}

/// The reminders of `events` at `now`: a notification and a start reminder for each event
/// that gets reminders, in the order of the events.
pub open spec fn reminders_for(events: Seq<CalendarEvent>, now: int) -> Seq<Reminder>
    decreases events.len(),
{
    if events.len() == 0 {
        Seq::empty()
    } else {
        reminders_for(events.drop_last(), now) + (if gets_reminders(events.last(), now) {
            seq![notification_of(events.last()), start_reminder_of(events.last())]
        } else {
            Seq::empty()
        })
    }
}

/// The id of the first weather event of `events`, if there is one.
pub open spec fn weather_event_id(events: Seq<CalendarEvent>) -> Option<i32>
    decreases events.len(),
{
    if events.len() == 0 {
        None
    } else if events[0].kind == CalendarKind::Weather {
        Some(events[0].id)
    } else {
        weather_event_id(events.drop_first())
    }
}

/// The temperature is taken from the first weather event: the id found is that of an event of
/// kind `Weather` with no such event before it, and none is found exactly when no event is of
/// that kind.
pub proof fn weather_event_is_first_of_its_kind(events: Seq<CalendarEvent>)
    ensures
        weather_event_id(events) is None <==> forall|i: int|
            0 <= i < events.len() ==> (#[trigger] events[i]).kind != CalendarKind::Weather,
        weather_event_id(events) matches Some(id) ==> exists|i: int|
            0 <= i < events.len() && (#[trigger] events[i]).kind == CalendarKind::Weather && events[i].id == id
                && forall|j: int| 0 <= j < i ==> (#[trigger] events[j]).kind != CalendarKind::Weather,
    decreases events.len(),
{
    if events.len() > 0 {
        let rest = events.drop_first();
        weather_event_is_first_of_its_kind(rest);
        if events[0].kind != CalendarKind::Weather {
            assert forall|i: int| 0 <= i < rest.len() implies rest[i] == events[i + 1] by {}
            if weather_event_id(events) is None {
                assert forall|i: int| 0 <= i < events.len() implies (#[trigger] events[i]).kind
                    != CalendarKind::Weather by {
                    if i > 0 {
                        assert(events[i] == rest[i - 1]);
                    }
                }
            } else {
                let k = choose|k: int|
                    0 <= k < rest.len() && (#[trigger] rest[k]).kind == CalendarKind::Weather && rest[k].id
                        == weather_event_id(events)->Some_0 && forall|j: int|
                        0 <= j < k ==> (#[trigger] rest[j]).kind != CalendarKind::Weather;
                assert(events[k + 1] == rest[k]);
                assert forall|j: int| 0 <= j < k + 1 implies (#[trigger] events[j]).kind != CalendarKind::Weather by {
                    if j > 0 {
                        assert(events[j] == rest[j - 1]);
                    }
                }
            }
        }
    }
}

/// Whether reminder `r` is one of event `e`'s: linked to its id, and firing at its start (a
/// start reminder) or ten minutes before, in the start's offset (a notification).
pub open spec fn fires_for(r: Reminder, e: CalendarEvent) -> bool {
    &&& r.event_id == e.id
    &&& match r.kind {
        ReminderKind::Event => r.remind_at == e.start,
        ReminderKind::Notification => r.remind_at.unix_seconds == e.start.unix_seconds - 600
            && r.remind_at.offset_seconds == e.start.offset_seconds,
        ReminderKind::Alert => false,
    }
}

proof fn lemma_reminders_split(events: Seq<CalendarEvent>, now: int)
    requires
        events.len() > 0,
    ensures
        reminders_for(events, now) == reminders_for(events.drop_last(), now) + (if gets_reminders(
            events.last(),
            now,
        ) {
            seq![notification_of(events.last()), start_reminder_of(events.last())]
        } else {
            Seq::<Reminder>::empty()
        }),
{
}

proof fn lemma_own_reminders(e: CalendarEvent)
    requires
        event_fits(e),
    ensures
        fires_for(notification_of(e), e),
        notification_of(e).kind == ReminderKind::Notification,
        fires_for(start_reminder_of(e), e),
        start_reminder_of(e).kind == ReminderKind::Event,
{
}

/// The event reminder `k` of `events` at `now` belongs to.
proof fn lemma_reminder_owner(events: Seq<CalendarEvent>, now: int, k: int)
    requires
        all_fit(events),
        0 <= k < reminders_for(events, now).len(),
    ensures
        exists|i: int|
            0 <= i < events.len() && gets_reminders(#[trigger] events[i], now) && fires_for(
                reminders_for(events, now)[k],
                events[i],
            ),
    decreases events.len(),
{
    let t = events.drop_last();
    let e = events.last();
    let last = events.len() - 1;
    assert forall|i: int| 0 <= i < t.len() implies event_fits(#[trigger] t[i]) by {
        assert(t[i] == events[i]);
    }
    assert(events[last] == e);
    assert(event_fits(e));
    lemma_reminders_split(events, now);
    lemma_own_reminders(e);
    let a = reminders_for(t, now);
    let r = reminders_for(events, now);
    if k < a.len() {
        lemma_reminder_owner(t, now, k);
        assert(r[k] == a[k]);
        let i = choose|i: int| 0 <= i < t.len() && gets_reminders(#[trigger] t[i], now) && fires_for(a[k], t[i]);
        assert(events[i] == t[i]);
    } else {
        assert(gets_reminders(e, now));
        if k == a.len() {
            assert(r[k] == notification_of(e));
        } else {
            assert(r[k] == start_reminder_of(e));
        }
        assert(fires_for(r[k], events[last]));
    }
}

/// Every planned reminder belongs to an event that gets reminders and fires at that event's
/// start (a start reminder) or ten minutes before it (a notification).
pub proof fn reminders_fire_at_event_times(events: Seq<CalendarEvent>, now: int)
    requires
        all_fit(events),
    ensures
        forall|x: Reminder|
            #[trigger] reminders_for(events, now).contains(x) ==> exists|i: int|
                0 <= i < events.len() && gets_reminders(#[trigger] events[i], now) && fires_for(x, events[i]),
{
    assert forall|x: Reminder| #[trigger] reminders_for(events, now).contains(x) implies exists|i: int|
        0 <= i < events.len() && gets_reminders(#[trigger] events[i], now) && fires_for(x, events[i]) by {
        let k = choose|k: int| 0 <= k < reminders_for(events, now).len() && reminders_for(events, now)[k] == x;
        lemma_reminder_owner(events, now, k);
    }
}

/// Every event that gets reminders has both: a start reminder at its start and a notification
/// ten minutes before.
pub proof fn events_get_both_reminders(events: Seq<CalendarEvent>, now: int)
    requires
        all_fit(events),
    ensures
        forall|i: int|
            0 <= i < events.len() && gets_reminders(#[trigger] events[i], now) ==> (exists|k: int|
                0 <= k < reminders_for(events, now).len() && (#[trigger] reminders_for(events, now)[k]).kind
                    == ReminderKind::Event && fires_for(reminders_for(events, now)[k], events[i])) && (exists|
                k: int,
            |
                0 <= k < reminders_for(events, now).len() && (#[trigger] reminders_for(events, now)[k]).kind
                    == ReminderKind::Notification && fires_for(reminders_for(events, now)[k], events[i])),
    decreases events.len(),
{
    if events.len() > 0 {
        let t = events.drop_last();
        let e = events.last();
        assert forall|i: int| 0 <= i < t.len() implies event_fits(#[trigger] t[i]) by {
            assert(t[i] == events[i]);
        }
        assert(event_fits(events[events.len() - 1]));
        events_get_both_reminders(t, now);
        lemma_reminders_split(events, now);
        lemma_own_reminders(e);
        let a = reminders_for(t, now);
        let r = reminders_for(events, now);
        assert forall|i: int| 0 <= i < events.len() && gets_reminders(#[trigger] events[i], now) implies (exists|
            k: int,
        | 0 <= k < r.len() && (#[trigger] r[k]).kind == ReminderKind::Event && fires_for(r[k], events[i])) && (exists|
            k: int,
        | 0 <= k < r.len() && (#[trigger] r[k]).kind == ReminderKind::Notification && fires_for(r[k], events[i])) by {
            if i < t.len() {
                assert(events[i] == t[i]);
                let k1 = choose|k: int| 0 <= k < a.len() && (#[trigger] a[k]).kind == ReminderKind::Event && fires_for(a[k], t[i]);
                let k2 = choose|k: int| 0 <= k < a.len() && (#[trigger] a[k]).kind == ReminderKind::Notification && fires_for(a[k], t[i]);
                assert(r[k1] == a[k1]);
                assert(r[k2] == a[k2]);
            } else {
                assert(events[i] == e);
                assert(r[a.len() as int] == notification_of(e));
                assert(r[a.len() + 1int] == start_reminder_of(e));
            }
        }
    }
}

/// The record counts as the temperature at hour `hour`.
pub open spec fn temperature_at(r: TimelyDataRecord, hour: int) -> bool {
    r.data_marker == TimelyDataMarker::Temperature && r.start_at_hour <= hour
}

/// Index of the current temperature record among `records` at hour `hour`: a temperature
/// record that started at or before the hour, the latest starting of them, and the last
/// in order among those that start at that hour.
pub open spec fn is_current_temperature(records: Seq<TimelyDataRecord>, hour: int, k: int) -> bool {
    &&& 0 <= k < records.len()
    &&& temperature_at(records[k], hour)
    &&& forall|j: int|
        0 <= j < records.len() && temperature_at(#[trigger] records[j], hour) ==> records[j].start_at_hour
            <= records[k].start_at_hour
    &&& forall|j: int|
        k < j < records.len() && temperature_at(#[trigger] records[j], hour) ==> records[j].start_at_hour
            < records[k].start_at_hour
}

impl CalendarContext {
    pub open spec fn wf(&self) -> bool {
        &&& keys_unique(self.update_events@)
        &&& all_fit(self.update_events@)
        &&& timely_wf(self.timely_data@)
        &&& (self.now matches Some(t) ==> t.wf())
        &&& (self.utc_offset matches Some(o) ==> crate::datetime::offset_in_range(o as int))
    }

    /// The state of a freshly started calendar module.
    pub fn new() -> (r: CalendarContext)
        ensures
            r.wf(),
            r.update_events@.len() == 0,
            r.timely_data@.len() == 0,
            r.now is None,
            r.utc_offset is None,
    {
        CalendarContext { update_events: Vec::new(), timely_data: Vec::new(), now: None, utc_offset: None }
    }
}

/// Adds an event unless an event with its key is known already; a known event is not
/// replaced by its update.
pub fn handle_event_update(context: &mut CalendarContext, event: &CalendarEvent)
    requires
        old(context).wf(),
        event_fits(*event),
    ensures
        final(context).wf(),
        final(context).update_events@ == (if has_key(old(context).update_events@, event_key(*event)) {
            old(context).update_events@
        } else {
            old(context).update_events@.push(*event)
        }),
        final(context).timely_data@ == old(context).timely_data@,
        final(context).now == old(context).now,
        final(context).utc_offset == old(context).utc_offset,
{
    let ghost s = context.update_events@;
    let key = event.key();
    let mut i: usize = 0;
    while i < context.update_events.len()
        invariant
            0 <= i <= s.len(),
            s == context.update_events@,
            *context == *old(context),
            context.wf(),
            key == event_key(*event),
            forall|k: int| 0 <= k < i ==> event_key(#[trigger] s[k]) != key,
        decreases s.len() - i,
    {
        if context.update_events[i].key().equals(&key) {
            assert(event_key(s[i as int]) == key);
            return;
        }
        i = i + 1;
    }
    assert(!has_key(s, key));
    context.update_events.push(event.clone());
    assert(keys_unique(context.update_events@)) by {
        assert forall|a: int, b: int| 0 <= a < b < context.update_events@.len() implies event_key(
            #[trigger] context.update_events@[a],
        ) != event_key(#[trigger] context.update_events@[b]) by {
            if b < s.len() {
                assert(context.update_events@[a] == s[a] && context.update_events@[b] == s[b]);
            } else {
                assert(context.update_events@[a] == s[a]);
            }
        }
    }
    assert(all_fit(context.update_events@)) by {
        assert forall|a: int| 0 <= a < context.update_events@.len() implies event_fits(
            #[trigger] context.update_events@[a],
        ) by {
            if a < s.len() {
                assert(context.update_events@[a] == s[a]);
            }
        }
    }
}

/// Keeping only some events keeps keys unique and times readable.
pub proof fn lemma_filter_keeps_fit(s: Seq<CalendarEvent>, p: spec_fn(CalendarEvent) -> bool)
    requires
        keys_unique(s),
        all_fit(s),
    ensures
        keys_unique(s.filter(p)),
        all_fit(s.filter(p)),
    decreases s.len(),
{
    reveal(Seq::filter);
    if s.len() > 0 {
        let rest = s.drop_last();
        assert(keys_unique(rest)) by {
            assert forall|i: int, j: int| 0 <= i < j < rest.len() implies event_key(
                #[trigger] rest[i],
            ) != event_key(#[trigger] rest[j]) by {
                assert(rest[i] == s[i] && rest[j] == s[j]);
            }
        }
        assert(all_fit(rest)) by {
            assert forall|i: int| 0 <= i < rest.len() implies event_fits(#[trigger] rest[i]) by {
                assert(rest[i] == s[i]);
            }
        }
        lemma_filter_keeps_fit(rest, p);
        let f = rest.filter(p);
        if p(s.last()) {
            let g = f.push(s.last());
            assert forall|i: int, j: int| 0 <= i < j < g.len() implies event_key(#[trigger] g[i])
                != event_key(#[trigger] g[j]) by {
                if j == f.len() {
                    assert(f.contains(f[i]));
                    rest.lemma_filter_contains_rev(p, f[i]);
                    let k = choose|k: int| 0 <= k < rest.len() && rest[k] == f[i];
                    assert(s[k] == f[i]);
                    assert(event_key(s[k]) != event_key(s[s.len() - 1]));
                } else {
                    assert(g[i] == f[i] && g[j] == f[j]);
                }
            }
            assert forall|i: int| 0 <= i < g.len() implies event_fits(#[trigger] g[i]) by {
                if i < f.len() {
                    assert(g[i] == f[i]);
                }
            }
        }
    }
}

/// Forgets the events whose key is in `keys`.
pub fn handle_events_drop(context: &mut CalendarContext, keys: &Vec<CalendarEventKey>)
    requires
        old(context).wf(),
    ensures
        final(context).wf(),
        final(context).update_events@ == old(context).update_events@.filter(not_dropped(keys@)),
        final(context).timely_data@ == old(context).timely_data@,
        final(context).now == old(context).now,
        final(context).utc_offset == old(context).utc_offset,
{
    let ghost s = context.update_events@;
    drop_keys(&mut context.update_events, keys);
    proof {
        lemma_filter_keeps_fit(s, not_dropped(keys@));
    }
}

/// Stores one record with the other records of its event, unless it is stored already.
pub fn store_timely_record(timely: &mut Vec<EventTimelyData>, record: TimelyDataRecord)
    requires
        timely_wf(old(timely)@),
    ensures
        timely_wf(final(timely)@),
        forall|r: TimelyDataRecord|
            #[trigger] timely_has(final(timely)@, r) <==> (timely_has(old(timely)@, r) || r == record),
{
    let ghost s = timely@;
    let mut i: usize = 0;
    while i < timely.len()
        invariant
            0 <= i <= s.len(),
            s == timely@,
            s == old(timely)@,
            timely_wf(s),
            forall|k: int| 0 <= k < i ==> (#[trigger] s[k]).linked_event_id != record.linked_event_id,
        decreases s.len() - i,
    {
        if timely[i].linked_event_id == record.linked_event_id {
            let mut group = timely.remove(i);
            let ghost g = group.timely_data@;
            assert(group == s[i as int]);
            let mut j: usize = 0;
            let mut present = false;
            while j < group.timely_data.len()
                invariant
                    0 <= j <= g.len(),
                    g == group.timely_data@,
                    present <==> exists|k: int| 0 <= k < j && (#[trigger] g[k]) == record,
                decreases g.len() - j,
            {
                if group.timely_data[j] == record {
                    present = true;
                }
                j = j + 1;
            }
            if !present {
                group.timely_data.push(record);
            }
            let ghost ng = group.timely_data@;
            assert(present ==> g.contains(record));
            assert(!present ==> !g.contains(record));
            assert(ng.no_duplicates()) by {
                if !present {
                    assert forall|a: int, b: int| 0 <= a < b < ng.len() implies ng[a] != ng[b] by {
                        if b == g.len() {
                            assert(ng[a] == g[a]);
                        } else {
                            assert(ng[a] == g[a] && ng[b] == g[b]);
                        }
                    }
                }
            }
            timely.insert(i, group);
            assert(timely@ =~= s.update(i as int, group));
            assert(timely_wf(timely@)) by {
                assert forall|a: int, b: int| 0 <= a < b < timely@.len() implies (
                #[trigger] timely@[a]).linked_event_id != (#[trigger] timely@[b]).linked_event_id by {
                    assert(s[a].linked_event_id != s[b].linked_event_id);
                }
                assert forall|a: int, b: int|
                    0 <= a < timely@.len() && 0 <= b < timely@[a].timely_data@.len() implies (
                #[trigger] timely@[a].timely_data@[b]).linked_event_id == timely@[a].linked_event_id by {
                    if a == i {
                        if b < g.len() {
                            assert(ng[b] == g[b]);
                            assert(s[a].timely_data@[b] == g[b]);
                        }
                    }
                }
            }
            assert forall|r: TimelyDataRecord|
                #[trigger] timely_has(timely@, r) <==> (timely_has(s, r) || r == record) by {
                if timely_has(timely@, r) {
                    let a = choose|a: int| 0 <= a < timely@.len() && (#[trigger] timely@[a]).timely_data@.contains(r);
                    if a != i {
                        assert(s[a] == timely@[a]);
                    } else if r != record {
                        let b = choose|b: int| 0 <= b < ng.len() && ng[b] == r;
                        if !present && b == g.len() {
                        } else {
                            assert(g[b] == r);
                            assert(s[i as int].timely_data@.contains(r));
                        }
                    }
                }
                if timely_has(s, r) {
                    let a = choose|a: int| 0 <= a < s.len() && (#[trigger] s[a]).timely_data@.contains(r);
                    if a != i {
                        assert(timely@[a] == s[a]);
                    } else {
                        let b = choose|b: int| 0 <= b < g.len() && g[b] == r;
                        assert(ng[b] == r);
                        assert(timely@[a].timely_data@.contains(r));
                    }
                }
                if r == record {
                    if present {
                        let b = choose|b: int| 0 <= b < g.len() && g[b] == r;
                        assert(ng[b] == r);
                    } else {
                        assert(ng[g.len() as int] == r);
                    }
                    assert(timely@[i as int].timely_data@.contains(r));
                }
            }
            return;
        }
        i = i + 1;
    }
    let mut records: Vec<TimelyDataRecord> = Vec::new();
    records.push(record);
    let group = EventTimelyData { linked_event_id: record.linked_event_id, timely_data: records };
    timely.push(group);
    assert(group.timely_data@ =~= seq![record]);
    assert(timely_wf(timely@)) by {
        assert forall|a: int, b: int| 0 <= a < b < timely@.len() implies (
        #[trigger] timely@[a]).linked_event_id != (#[trigger] timely@[b]).linked_event_id by {
            if b < s.len() {
                assert(s[a].linked_event_id != s[b].linked_event_id);
            }
        }
        assert forall|a: int, b: int|
            0 <= a < timely@.len() && 0 <= b < timely@[a].timely_data@.len() implies (
        #[trigger] timely@[a].timely_data@[b]).linked_event_id == timely@[a].linked_event_id by {
            if a < s.len() {
                assert(timely@[a] == s[a]);
            }
        }
        assert forall|a: int| 0 <= a < timely@.len() implies (#[trigger] timely@[a]).timely_data@.no_duplicates() by {
            if a < s.len() {
                assert(timely@[a] == s[a]);
            }
        }
    }
    assert forall|r: TimelyDataRecord|
        #[trigger] timely_has(timely@, r) <==> (timely_has(s, r) || r == record) by {
        if timely_has(timely@, r) {
            let a = choose|a: int| 0 <= a < timely@.len() && (#[trigger] timely@[a]).timely_data@.contains(r);
            if a < s.len() {
                assert(s[a] == timely@[a]);
            }
        }
        if timely_has(s, r) {
            let a = choose|a: int| 0 <= a < s.len() && (#[trigger] s[a]).timely_data@.contains(r);
            assert(timely@[a] == s[a]);
        }
        if r == record {
            assert(timely@[s.len() as int].timely_data@[0] == r);
            assert(timely@[s.len() as int].timely_data@.contains(r));
        }
    }
}

/// Stores each record with the other records of its event, unless it is stored already.
pub fn handle_timely_data(context: &mut CalendarContext, records: &Vec<TimelyDataRecord>)
    requires
        old(context).wf(),
    ensures
        final(context).wf(),
        forall|r: TimelyDataRecord|
            #[trigger] timely_has(final(context).timely_data@, r) <==> (timely_has(
                old(context).timely_data@,
                r,
            ) || records@.contains(r)),
        final(context).update_events@ == old(context).update_events@,
        final(context).now == old(context).now,
        final(context).utc_offset == old(context).utc_offset,
{
    let mut i: usize = 0;
    while i < records.len()
        invariant
            0 <= i <= records@.len(),
            context.wf(),
            context.update_events@ == old(context).update_events@,
            context.now == old(context).now,
            context.utc_offset == old(context).utc_offset,
            forall|r: TimelyDataRecord|
                #[trigger] timely_has(context.timely_data@, r) <==> (timely_has(
                    old(context).timely_data@,
                    r,
                ) || records@.take(i as int).contains(r)),
        decreases records@.len() - i,
    {
        let ghost before = context.timely_data@;
        store_timely_record(&mut context.timely_data, records[i]);
        proof {
            assert(records@.take(i as int + 1) =~= records@.take(i as int).push(records@[i as int]));
            assert forall|r: TimelyDataRecord|
                #[trigger] timely_has(context.timely_data@, r) <==> (timely_has(
                    old(context).timely_data@,
                    r,
                ) || records@.take(i as int + 1).contains(r)) by {
                assert(timely_has(before, r) <==> (timely_has(old(context).timely_data@, r)
                    || records@.take(i as int).contains(r)));
                let t = records@.take(i as int + 1);
                if t.contains(r) && r != records@[i as int] {
                    let k = choose|k: int| 0 <= k < t.len() && #[trigger] t[k] == r;
                    assert(records@.take(i as int)[k] == r);
                }
            }
        }
        i = i + 1;
    }
    assert(records@.take(records@.len() as int) =~= records@);
}

/// The id of the first weather event among `events`, if there is one.
pub fn find_weather_event_id(events: &Vec<CalendarEvent>) -> (r: Option<i32>)
    ensures
        r == weather_event_id(events@),
{
    let ghost s = events@;
    let mut i: usize = 0;
    while i < events.len()
        invariant
            0 <= i <= s.len(),
            s == events@,
            weather_event_id(s) == weather_event_id(s.subrange(i as int, s.len() as int)),
        decreases s.len() - i,
    {
        let ghost rest = s.subrange(i as int, s.len() as int);
        assert(rest[0] == s[i as int]);
        assert(rest.drop_first() =~= s.subrange(i as int + 1, s.len() as int));
        if events[i].kind == CalendarKind::Weather {
            return Some(events[i].id);
        }
        i = i + 1;
    }
    assert(s.subrange(s.len() as int, s.len() as int) =~= Seq::<CalendarEvent>::empty());
    None
}

/// The index of the current temperature record among `records` at hour `hour`, if any
/// temperature record started at or before that hour.
pub fn current_temperature_index(records: &Vec<TimelyDataRecord>, hour: u8) -> (r: Option<usize>)
    ensures
        r matches Some(k) ==> is_current_temperature(records@, hour as int, k as int),
        r is None <==> (forall|j: int| 0 <= j < records@.len() ==> !temperature_at(#[trigger] records@[j], hour as int)),
{
    let ghost s = records@;
    let mut best: Option<usize> = None;
    let mut i: usize = 0;
    while i < records.len()
        invariant
            0 <= i <= s.len(),
            s == records@,
            best matches Some(k) ==> k < i && temperature_at(s[k as int], hour as int)
                && (forall|j: int| 0 <= j < i && temperature_at(#[trigger] s[j], hour as int) ==> s[j].start_at_hour <= s[k as int].start_at_hour)
                && (forall|j: int| k < j < i && temperature_at(#[trigger] s[j], hour as int) ==> s[j].start_at_hour < s[k as int].start_at_hour),
            best is None ==> forall|j: int| 0 <= j < i ==> !temperature_at(#[trigger] s[j], hour as int),
        decreases s.len() - i,
    {
        let record = records[i];
        let is_temperature = match record.data_marker {
            TimelyDataMarker::Temperature => true,
        };
        if is_temperature && record.start_at_hour <= hour {
            match best {
                None => {
                    best = Some(i);
                },
                Some(k) => {
                    if record.start_at_hour >= records[k].start_at_hour {
                        best = Some(i);
                    }
                },
            }
        }
        i = i + 1;
    }
    best
}

/// The value (as bit pattern) of the temperature record the watch shows: the current
/// temperature record, at the hour of `now`, among the records linked to the first weather
/// event.
pub open spec fn spec_temperature_bits(context: CalendarContext, now: DateTime) -> Option<u32> {
    match weather_event_id(context.update_events@) {
        None => None,
        Some(w) => {
            let s = context.timely_data@;
            if exists|g: int, k: int|
                0 <= g < s.len() && s[g].linked_event_id == w && #[trigger] is_current_temperature(
                    s[g].timely_data@,
                    now.spec_hour(),
                    k,
                ) {
                let (g, k) = choose|g: int, k: int|
                    0 <= g < s.len() && s[g].linked_event_id == w
                        && #[trigger] is_current_temperature(s[g].timely_data@, now.spec_hour(), k);
                Some(s[g].timely_data@[k].value_bits)
            } else {
                None
            }
        },
    }
}

/// A record that tells the temperature of the weather event `w` at `hour`, among the stored
/// groups `timely` and the records `more`.
pub open spec fn weather_temperature(
    timely: Seq<EventTimelyData>,
    more: Seq<TimelyDataRecord>,
    w: Option<i32>,
    hour: int,
    r: TimelyDataRecord,
) -> bool {
    &&& timely_has(timely, r) || more.contains(r)
    &&& w == Some(r.linked_event_id)
    &&& temperature_at(r, hour)
}

/// A temperature record at `hour` among `records` makes a current one exist.
proof fn lemma_current_temperature_exists(records: Seq<TimelyDataRecord>, hour: int, j: int)
    requires
        0 <= j < records.len(),
        temperature_at(records[j], hour),
    ensures
        exists|k: int| #[trigger] is_current_temperature(records, hour, k),
    decreases records.len(),
{
    let n = records.len() as int;
    let rest = records.drop_last();
    let last = records[n - 1];
    if exists|i: int| 0 <= i < n - 1 && #[trigger] temperature_at(records[i], hour) {
        let i = choose|i: int| 0 <= i < n - 1 && #[trigger] temperature_at(records[i], hour);
        assert(rest[i] == records[i]);
        lemma_current_temperature_exists(rest, hour, i);
        let k = choose|k: int| #[trigger] is_current_temperature(rest, hour, k);
        assert(rest[k] == records[k]);
        if temperature_at(last, hour) && last.start_at_hour >= records[k].start_at_hour {
            assert forall|x: int| 0 <= x < n && temperature_at(#[trigger] records[x], hour) implies records[x].start_at_hour
                <= records[n - 1].start_at_hour by {
                if x < n - 1 {
                    assert(rest[x] == records[x]);
                }
            }
            assert(is_current_temperature(records, hour, n - 1));
        } else {
            assert forall|x: int| 0 <= x < n && temperature_at(#[trigger] records[x], hour) implies records[x].start_at_hour
                <= records[k].start_at_hour by {
                if x < n - 1 {
                    assert(rest[x] == records[x]);
                }
            }
            assert forall|x: int| k < x < n && temperature_at(#[trigger] records[x], hour) implies records[x].start_at_hour
                < records[k].start_at_hour by {
                if x < n - 1 {
                    assert(rest[x] == records[x]);
                }
            }
            assert(is_current_temperature(records, hour, k));
        }
    } else {
        assert(j == n - 1);
        assert(is_current_temperature(records, hour, n - 1));
    }
}

/// The temperature the watch shows, said without groups: there is one exactly when some stored
/// record of the first weather event tells the temperature at the hour of `now`, and it is the
/// value of such a record that started latest.
proof fn lemma_temperature_bits_stated(context: CalendarContext, now: DateTime)
    requires
        context.wf(),
    ensures
        ({
            let w = weather_event_id(context.update_events@);
            let hour = now.spec_hour();
            let t = context.timely_data@;
            &&& spec_temperature_bits(context, now) is Some <==> exists|r: TimelyDataRecord|
                #[trigger] weather_temperature(t, Seq::empty(), w, hour, r)
            &&& spec_temperature_bits(context, now) matches Some(b) ==> exists|r: TimelyDataRecord|
                #[trigger] weather_temperature(t, Seq::empty(), w, hour, r) && r.value_bits == b && forall|
                    x: TimelyDataRecord,
                | #[trigger] weather_temperature(t, Seq::empty(), w, hour, x) ==> x.start_at_hour <= r.start_at_hour
        }),
{
    let w = weather_event_id(context.update_events@);
    let hour = now.spec_hour();
    let s = context.timely_data@;
    let e = Seq::<TimelyDataRecord>::empty();
    if let Some(id) = w {
        if exists|g: int, k: int|
            0 <= g < s.len() && s[g].linked_event_id == id && #[trigger] is_current_temperature(
                s[g].timely_data@,
                hour,
                k,
            ) {
            let (g, k) = choose|g: int, k: int|
                0 <= g < s.len() && s[g].linked_event_id == id && #[trigger] is_current_temperature(
                    s[g].timely_data@,
                    hour,
                    k,
                );
            let r = s[g].timely_data@[k];
            assert(s[g].timely_data@.contains(r));
            assert(weather_temperature(s, e, w, hour, r));
            assert forall|x: TimelyDataRecord| #[trigger] weather_temperature(s, e, w, hour, x) implies x.start_at_hour
                <= r.start_at_hour by {
                let g2 = choose|a: int| 0 <= a < s.len() && (#[trigger] s[a]).timely_data@.contains(x);
                let j = choose|j: int| 0 <= j < s[g2].timely_data@.len() && s[g2].timely_data@[j] == x;
                assert(s[g2].timely_data@[j].linked_event_id == s[g2].linked_event_id);
                if g2 != g {
                    if g2 < g {
                        assert(s[g2].linked_event_id != s[g].linked_event_id);
                    } else {
                        assert(s[g].linked_event_id != s[g2].linked_event_id);
                    }
                }
                assert(temperature_at(s[g].timely_data@[j], hour));
            }
        } else {
            assert forall|x: TimelyDataRecord| !#[trigger] weather_temperature(s, e, w, hour, x) by {
                if weather_temperature(s, e, w, hour, x) {
                    let g = choose|a: int| 0 <= a < s.len() && (#[trigger] s[a]).timely_data@.contains(x);
                    let j = choose|j: int| 0 <= j < s[g].timely_data@.len() && s[g].timely_data@[j] == x;
                    assert(s[g].timely_data@[j].linked_event_id == s[g].linked_event_id);
                    lemma_current_temperature_exists(s[g].timely_data@, hour, j);
                    let k = choose|k: int| #[trigger] is_current_temperature(s[g].timely_data@, hour, k);
                    assert(is_current_temperature(s[g].timely_data@, hour, k));
                }
            }
        }
    }
}

proof fn lemma_current_temperature_unique(records: Seq<TimelyDataRecord>, hour: int, k1: int, k2: int)
    requires
        is_current_temperature(records, hour, k1),
        is_current_temperature(records, hour, k2),
    ensures
        k1 == k2,
{
    if k1 < k2 {
        assert(records[k2].start_at_hour < records[k1].start_at_hour);
        assert(records[k2].start_at_hour >= records[k1].start_at_hour);
    } else if k2 < k1 {
        assert(records[k1].start_at_hour < records[k2].start_at_hour);
        assert(records[k1].start_at_hour >= records[k2].start_at_hour);
    }
}

/// Sends the temperature of the weather event (if one can be told) and forgets all timely
/// data.
pub fn send_timely_data(context: &mut CalendarContext) -> (r: Vec<CalendarAction>)
    requires
        old(context).wf(),
        old(context).now is Some,
    ensures
        final(context).wf(),
        final(context).timely_data@.len() == 0,
        final(context).update_events@ == old(context).update_events@,
        final(context).now == old(context).now,
        final(context).utc_offset == old(context).utc_offset,
        r@.len() == (if spec_temperature_bits(*old(context), old(context).now->Some_0) is Some { 1int } else { 0int }),
        spec_temperature_bits(*old(context), old(context).now->Some_0) matches Some(bits) ==> r@[0]
            matches CalendarAction::SendTemperature { value_bits } && value_bits == bits,
{
    let now = match context.now {
        Some(t) => t,
        None => return Vec::new(),
    };
    let ghost s = context.timely_data@;
    let ghost hour_spec = now.spec_hour();
    let mut actions: Vec<CalendarAction> = Vec::new();
    let weather_id = find_weather_event_id(&context.update_events);
    if let Some(w) = weather_id {
        let hour = now.hour();
        let mut g: usize = 0;
        while g < context.timely_data.len() && context.timely_data[g].linked_event_id != w
            invariant
                0 <= g <= s.len(),
                s == context.timely_data@,
                timely_wf(s),
                forall|a: int| 0 <= a < g ==> (#[trigger] s[a]).linked_event_id != w,
            decreases s.len() - g,
        {
            g = g + 1;
        }
        if g < context.timely_data.len() {
            let found = current_temperature_index(&context.timely_data[g].timely_data, hour);
            if let Some(k) = found {
                actions.push(CalendarAction::SendTemperature { value_bits: context.timely_data[g].timely_data[k].value_bits });
                proof {
                    assert(s[g as int].linked_event_id == w);
                    assert(is_current_temperature(s[g as int].timely_data@, hour_spec, k as int));
                    let (g2, k2) = choose|g2: int, k2: int|
                        0 <= g2 < s.len() && s[g2].linked_event_id == w
                            && #[trigger] is_current_temperature(s[g2].timely_data@, hour_spec, k2);
                    if g2 != g {
                        if g2 < g {
                            assert(s[g2].linked_event_id != s[g as int].linked_event_id);
                        } else {
                            assert(s[g as int].linked_event_id != s[g2].linked_event_id);
                        }
                    }
                    lemma_current_temperature_unique(s[g as int].timely_data@, hour_spec, k as int, k2);
                }
            } else {
                proof {
                    assert forall|g2: int, k2: int|
                        0 <= g2 < s.len() && s[g2].linked_event_id == w implies !#[trigger] is_current_temperature(
                            s[g2].timely_data@,
                            hour_spec,
                            k2,
                        ) by {
                        assert(s[g as int].linked_event_id == w);
                        if g2 != g {
                            if g2 < g {
                                assert(s[g2].linked_event_id != s[g as int].linked_event_id);
                            } else {
                                assert(s[g as int].linked_event_id != s[g2].linked_event_id);
                            }
                        }
                    }
                }
            }
        } else {
            assert forall|g2: int, k2: int|
                0 <= g2 < s.len() && s[g2].linked_event_id == w implies !#[trigger] is_current_temperature(
                    s[g2].timely_data@,
                    hour_spec,
                    k2,
                ) by {}
        }
    }
    context.timely_data = Vec::new();
    actions
}

/// The reminders of `events` at `now`, in the order of the events.
#[verifier::rlimit(40)]
pub fn build_reminders(events: &Vec<CalendarEvent>, now: &DateTime) -> (r: Vec<Reminder>)
    requires
        all_fit(events@),
        reminders_fit(events@, now.unix_seconds as int),
    ensures
        r@ == reminders_for(events@, now.unix_seconds as int),
{
    let ghost s = events@;
    let mut reminders: Vec<Reminder> = Vec::new();
    let mut i: usize = 0;
    assert(s.take(0) =~= Seq::<CalendarEvent>::empty());
    while i < events.len()
        invariant
            0 <= i <= s.len(),
            s == events@,
            all_fit(s),
            reminders_fit(s, now.unix_seconds as int),
            reminders@ == reminders_for(s.take(i as int), now.unix_seconds as int),
        decreases s.len() - i,
    {
        let e = &events[i];
        assert(s.take(i as int + 1).drop_last() =~= s.take(i as int));
        assert(s.take(i as int + 1).last() == s[i as int]);
        assert(event_fits(s[i as int]));
        let duration: i128 = e.end.unix_seconds as i128 - e.start.unix_seconds as i128;
        if e.start.unix_seconds >= now.unix_seconds && duration < REMINDER_MAX_DURATION_SECONDS as i128 {
            let notification = Reminder {
                event_id: e.id,
                kind: ReminderKind::Notification,
                remind_at: DateTime {
                    unix_seconds: e.start.unix_seconds - NOTIFICATION_LEAD_SECONDS,
                    offset_seconds: e.start.offset_seconds,
                },
            };
            let at_start = Reminder { event_id: e.id, kind: ReminderKind::Event, remind_at: e.start };
            let ghost before = reminders@;
            reminders.push(notification);
            reminders.push(at_start);
            assert(reminders@ =~= before + seq![notification_of(s[i as int]), start_reminder_of(s[i as int])]);
        } else {
            assert(reminders@ =~= reminders@ + Seq::<Reminder>::empty());
        }
        i = i + 1;
    }
    assert(s.take(s.len() as int) =~= s);
    reminders
}

/// The command that hands the reminders of the known events at the current time, ordered
/// by the instant they fire at, to the alarm.
pub fn reminders_command(context: &CalendarContext) -> (r: Commands)
    requires
        context.wf(),
        context.now matches Some(now) && reminders_fit(context.update_events@, now.unix_seconds as int),
    ensures
        r matches Commands::SetReminders(v) && sorted_by_time(v@) && v@.to_multiset()
            == reminders_for(context.update_events@, context.now->Some_0.unix_seconds as int).to_multiset(),
{
    let now = match context.now {
        Some(t) => t,
        None => return Commands::SetReminders(Vec::new()),
    };
    let unsorted = build_reminders(&context.update_events, &now);
    Commands::SetReminders(sort_by_time(unsorted))
}

/// All records of all groups, group after group.
pub fn flatten_timely_data(groups: &Vec<EventTimelyData>) -> (r: Vec<TimelyDataRecord>)
    ensures
        r@ == flatten(groups@),
{
    let ghost s = groups@;
    let mut out: Vec<TimelyDataRecord> = Vec::new();
    let mut g: usize = 0;
    assert(s.take(0) =~= Seq::<EventTimelyData>::empty());
    while g < groups.len()
        invariant
            0 <= g <= s.len(),
            s == groups@,
            out@ == flatten(s.take(g as int)),
        decreases s.len() - g,
    {
        let ghost base = out@;
        let records = &groups[g].timely_data;
        let mut j: usize = 0;
        while j < records.len()
            invariant
                0 <= j <= records@.len(),
                records@ == s[g as int].timely_data@,
                out@ == base + records@.take(j as int),
            decreases records@.len() - j,
        {
            out.push(records[j]);
            assert(records@.take(j as int + 1) =~= records@.take(j as int).push(records@[j as int]));
            assert(out@ =~= base + records@.take(j as int + 1));
            j = j + 1;
        }
        assert(records@.take(records@.len() as int) =~= records@);
        assert(s.take(g as int + 1).drop_last() =~= s.take(g as int));
        assert(s.take(g as int + 1).last() == s[g as int]);
        g = g + 1;
    }
    assert(s.take(s.len() as int) =~= s);
    out
}

/// The keys of some events, in their order.
pub fn event_keys(events: &Vec<CalendarEvent>) -> (r: Vec<CalendarEventKey>)
    ensures
        r@ == events@.map_values(|e: CalendarEvent| event_key(e)),
{
    let mut keys: Vec<CalendarEventKey> = Vec::new();
    let mut i: usize = 0;
    while i < events.len()
        invariant
            0 <= i <= events@.len(),
            keys@ == events@.take(i as int).map_values(|e: CalendarEvent| event_key(e)),
        decreases events@.len() - i,
    {
        keys.push(events[i].key());
        assert(events@.take(i as int + 1) =~= events@.take(i as int).push(events@[i as int]));
        assert(keys@ =~= events@.take(i as int + 1).map_values(|e: CalendarEvent| event_key(e)));
        i = i + 1;
    }
    assert(events@.take(events@.len() as int) =~= events@);
    keys
}

/// The dtos of some events, in their order.
pub fn event_dtos(events: &Vec<CalendarEvent>) -> (r: Vec<CalendarEventDto>)
    ensures
        r@ == events@.map_values(|e: CalendarEvent| dto_of(e)),
{
    let mut dtos: Vec<CalendarEventDto> = Vec::new();
    let mut i: usize = 0;
    while i < events.len()
        invariant
            0 <= i <= events@.len(),
            dtos@ == events@.take(i as int).map_values(|e: CalendarEvent| dto_of(e)),
        decreases events@.len() - i,
    {
        dtos.push(CalendarEventDto::from_event(&events[i]));
        assert(events@.take(i as int + 1) =~= events@.take(i as int).push(events@[i as int]));
        assert(dtos@ =~= events@.take(i as int + 1).map_values(|e: CalendarEvent| dto_of(e)));
        i = i + 1;
    }
    assert(events@.take(events@.len() as int) =~= events@);
    dtos
}

/// What persisting the calendar asks for, given the events that are kept, the timely data
/// before the call and the time: the reminders, the state to persist, and the keys of the
/// persisted events.
pub open spec fn persist_actions(
    actions: Seq<CalendarAction>,
    kept: Seq<CalendarEvent>,
    timely: Seq<EventTimelyData>,
    now: DateTime,
) -> bool {
    &&& actions.len() == 3
    &&& actions[0] matches CalendarAction::Command(Commands::SetReminders(v)) && sorted_by_time(v@)
        && v@.to_multiset() == reminders_for(kept, now.unix_seconds as int).to_multiset()
    &&& actions[1] matches CalendarAction::PersistState(dto) && dto.version == CALENDAR_STATE_VERSION
        && dto.last_sync.unix_epoch_seconds == now.unix_seconds && dto.events@ == kept.map_values(
        |e: CalendarEvent| dto_of(e),
    ) && dto.timely_data@ == flatten(timely)
    &&& actions[2] matches CalendarAction::Send(Events::PersistedCalendarEvents(keys)) && keys@
        == kept.map_values(|e: CalendarEvent| event_key(e))
}

/// Persists the calendar: forgets the events that have ended, plans the reminders, and
/// hands over the state with all timely data, which is then forgotten. Without a known time
/// nothing happens.
pub fn persist_state(context: &mut CalendarContext) -> (r: Vec<CalendarAction>)
    requires
        old(context).wf(),
        old(context).now matches Some(now) ==> kept_reminders_fit(old(context).update_events@, now),
    ensures
        final(context).wf(),
        old(context).now is None ==> r@.len() == 0 && *final(context) == *old(context),
        old(context).now matches Some(now) ==> {
            &&& final(context).update_events@ == old(context).update_events@.filter(not_ended(now))
            &&& final(context).timely_data@.len() == 0
            &&& final(context).now == old(context).now
            &&& final(context).utc_offset == old(context).utc_offset
            &&& persist_actions(r@, final(context).update_events@, old(context).timely_data@, now)
        },
{
    let now = match context.now {
        Some(t) => t,
        None => return Vec::new(),
    };
    let ghost s = context.update_events@;
    retain_not_ended(&mut context.update_events, &now);
    proof {
        lemma_filter_keeps_fit(s, not_ended(now));
        let kept = context.update_events@;
        assert forall|i: int| 0 <= i < kept.len() && gets_reminders(#[trigger] kept[i], now.unix_seconds as int) implies notification_fits(kept[i]) by {
            assert(kept.contains(kept[i]));
            lemma_filter_membership(s, not_ended(now), kept[i]);
            let k = choose|k: int| 0 <= k < s.len() && s[k] == kept[i];
            assert(not_ended(now)(s[k]));
        }
    }
    let reminders = reminders_command(context);
    let keys = event_keys(&context.update_events);
    let dtos = event_dtos(&context.update_events);
    let records = flatten_timely_data(&context.timely_data);
    context.timely_data = Vec::new();
    let state = CalendarStateDto::new(dtos, records, ReferenceTimeUtc::from_datetime(&now));
    let mut actions: Vec<CalendarAction> = Vec::new();
    actions.push(CalendarAction::Command(reminders));
    actions.push(CalendarAction::PersistState(state));
    actions.push(CalendarAction::Send(Events::PersistedCalendarEvents(keys)));
    actions
}

/// The known events after each event of `batch`, in turn, was added unless its key was
/// known.
pub open spec fn after_updates(s: Seq<CalendarEvent>, batch: Seq<CalendarEvent>) -> Seq<CalendarEvent>
    decreases batch.len(),
{
    if batch.len() == 0 {
        s
    } else {
        let prev = after_updates(s, batch.drop_last());
        if has_key(prev, event_key(batch.last())) {
            prev
        } else {
            prev.push(batch.last())
        }
    }
}

/// Adds each event of `batch`, in turn, unless its key is known.
pub fn handle_event_updates(context: &mut CalendarContext, batch: &Vec<CalendarEvent>)
    requires
        old(context).wf(),
        all_fit(batch@),
    ensures
        final(context).wf(),
        final(context).update_events@ == after_updates(old(context).update_events@, batch@),
        final(context).timely_data@ == old(context).timely_data@,
        final(context).now == old(context).now,
        final(context).utc_offset == old(context).utc_offset,
{
    let ghost s = context.update_events@;
    let mut i: usize = 0;
    assert(batch@.take(0) =~= Seq::<CalendarEvent>::empty());
    while i < batch.len()
        invariant
            0 <= i <= batch@.len(),
            all_fit(batch@),
            context.wf(),
            context.update_events@ == after_updates(s, batch@.take(i as int)),
            context.timely_data@ == old(context).timely_data@,
            context.now == old(context).now,
            context.utc_offset == old(context).utc_offset,
        decreases batch@.len() - i,
    {
        assert(event_fits(batch@[i as int]));
        handle_event_update(context, &batch[i]);
        assert(batch@.take(i as int + 1).drop_last() =~= batch@.take(i as int));
        assert(batch@.take(i as int + 1).last() == batch@[i as int]);
        i = i + 1;
    }
    assert(batch@.take(batch@.len() as int) =~= batch@);
}

/// The events of a restored state shown in offset `tz`, in the state's order.
pub open spec fn restored_events(state: CalendarStateDto, tz: i32) -> Seq<CalendarEvent> {
    state.events@.map_values(|d: CalendarEventDto| event_of(d, tz))
}

/// Every event of the state can be shown in offset `tz` with readable times.
pub open spec fn restorable(state: CalendarStateDto, tz: i32) -> bool {
    forall|i: int|
        0 <= i < state.events@.len() ==> dto_times_fit(#[trigger] state.events@[i], tz) && event_fits(
            event_of(state.events@[i], tz),
        )
}

/// Whether every event of a restored state can be shown in offset `tz`.
pub fn state_restorable(state: &CalendarStateDto, tz: i32) -> (r: bool)
    ensures
        r == (crate::datetime::offset_in_range(tz as int) && restorable(*state, tz)),
{
    if tz < -crate::datetime::MAX_OFFSET_SECONDS || tz > crate::datetime::MAX_OFFSET_SECONDS {
        return false;
    }
    let mut i: usize = 0;
    while i < state.events.len()
        invariant
            0 <= i <= state.events@.len(),
            crate::datetime::offset_in_range(tz as int),
            forall|k: int| 0 <= k < i ==> dto_times_fit(#[trigger] state.events@[k], tz) && event_fits(
                event_of(state.events@[k], tz),
            ),
        decreases state.events@.len() - i,
    {
        let d = &state.events[i];
        let start = d.start.unix_epoch_seconds as i128 + tz as i128;
        let end = d.end.unix_epoch_seconds as i128 + tz as i128;
        let min = crate::datetime::MIN_UNIX_TIMESTAMP as i128;
        let max = crate::datetime::MAX_UNIX_TIMESTAMP as i128;
        if start < min || start > max || end < min || end > max {
            return false;
        }
        i = i + 1;
    }
    true
}

/// Adding events with distinct keys, in turn, to a calendar without events keeps them all, in
/// order.
pub proof fn lemma_after_updates_distinct(batch: Seq<CalendarEvent>)
    requires
        keys_unique(batch),
    ensures
        after_updates(Seq::empty(), batch) == batch,
    decreases batch.len(),
{
    if batch.len() > 0 {
        let front = batch.drop_last();
        assert forall|i: int, j: int| 0 <= i < j < front.len() implies event_key(#[trigger] front[i]) != event_key(
            #[trigger] front[j],
        ) by {
            assert(front[i] == batch[i] && front[j] == batch[j]);
        }
        lemma_after_updates_distinct(front);
        if has_key(front, event_key(batch.last())) {
            let i = choose|i: int| 0 <= i < front.len() && event_key(#[trigger] front[i]) == event_key(batch.last());
            assert(front[i] == batch[i]);
            assert(batch.last() == batch[batch.len() - 1]);
        }
        assert(front.push(batch.last()) =~= batch);
    }
}

/// Restoring a persisted calendar into a calendar without events gives back the events that
/// were persisted, in order: the state holds the dtos of the kept events (as `persist_state`
/// ensures), whose keys are distinct and whose times are shown in the offset `tz` that the
/// state is restored in.
pub proof fn lemma_persist_restore_round_trip(kept: Seq<CalendarEvent>, state: CalendarStateDto, tz: i32)
    requires
        keys_unique(kept),
        forall|i: int|
            0 <= i < kept.len() ==> (#[trigger] kept[i]).start.offset_seconds == tz && kept[i].end.offset_seconds
                == tz,
        state.events@ == kept.map_values(|e: CalendarEvent| dto_of(e)),
    ensures
        after_updates(Seq::empty(), restored_events(state, tz)) == kept,
{
    assert(restored_events(state, tz) =~= kept) by {
        assert forall|i: int| 0 <= i < kept.len() implies restored_events(state, tz)[i] == kept[i] by {
            assert(state.events@[i] == dto_of(kept[i]));
        }
    }
    lemma_after_updates_distinct(kept);
}

/// The `c`-th batch of five events of `all` (the last batch may be shorter).
pub open spec fn chunk_of(all: Seq<CalendarEvent>, c: int) -> Seq<CalendarEvent> {
    all.subrange(c * 5, if c * 5 + 5 <= all.len() { c * 5 + 5 } else { all.len() as int })
}

/// The action announces exactly these events as a batch.
pub open spec fn is_batch_of(a: CalendarAction, expected: Seq<CalendarEvent>) -> bool {
    a matches CalendarAction::Send(Events::CalendarEventsBatch(batch)) && batch@ == expected
}

/// Number of batches in which `n` restored events are announced.
pub open spec fn chunk_count(n: int) -> int {
    (n + RESTORE_CHUNK_SIZE - 1) / (RESTORE_CHUNK_SIZE as int)
}

/// Takes in the events of a restored state (shown in offset `tz`): each is added unless its
/// key is known, and they are announced in batches of five, in order. A state of a version
/// that has timely data adds its records and sends the temperature they tell. Last comes the
/// command that sets the reminders.
#[verifier::rlimit(40)]
pub fn apply_restored(context: &mut CalendarContext, state: CalendarStateDto, tz: i32) -> (r: Vec<CalendarAction>)
    requires
        old(context).wf(),
        old(context).now is Some,
        crate::datetime::offset_in_range(tz as int),
        restorable(state, tz),
        reminders_fit(
            after_updates(old(context).update_events@, restored_events(state, tz)),
            old(context).now->Some_0.unix_seconds as int,
        ),
    ensures
        final(context).wf(),
        final(context).update_events@ == after_updates(old(context).update_events@, restored_events(state, tz)),
        final(context).now == old(context).now,
        final(context).utc_offset == old(context).utc_offset,
        r@.len() >= chunk_count(state.events@.len() as int) + 1,
        forall|c: int|
            0 <= c < chunk_count(state.events@.len() as int) ==> is_batch_of(
                #[trigger] r@[c],
                chunk_of(restored_events(state, tz), c),
            ),
        state.version <= 2 ==> r@.len() == chunk_count(state.events@.len() as int) + 1
            && final(context).timely_data@ == old(context).timely_data@,
        state.version > 2 ==> final(context).timely_data@.len() == 0,
        state.version > 2 ==> ({
            let w = weather_event_id(final(context).update_events@);
            let hour = old(context).now->Some_0.spec_hour();
            let told = exists|x: TimelyDataRecord|
                #[trigger] weather_temperature(old(context).timely_data@, state.timely_data@, w, hour, x);
            &&& r@.len() == chunk_count(state.events@.len() as int) + 1 + (if told { 1int } else { 0int })
            &&& told ==> (r@[chunk_count(state.events@.len() as int)] matches CalendarAction::SendTemperature {
                value_bits,
            } && exists|x: TimelyDataRecord|
                #[trigger] weather_temperature(old(context).timely_data@, state.timely_data@, w, hour, x)
                    && x.value_bits == value_bits && forall|y: TimelyDataRecord|
                    #[trigger] weather_temperature(old(context).timely_data@, state.timely_data@, w, hour, y)
                        ==> y.start_at_hour <= x.start_at_hour)
        }),
        r@.last() matches CalendarAction::Command(Commands::SetReminders(v)) && sorted_by_time(v@)
            && v@.to_multiset() == reminders_for(final(context).update_events@, old(context).now->Some_0.unix_seconds as int).to_multiset(),
{
    let ghost all = restored_events(state, tz);
    let ghost s0 = context.update_events@;
    let n = state.events.len();
    let mut actions: Vec<CalendarAction> = Vec::new();
    let mut start: usize = 0;
    let ghost mut c: int = 0;
    assert(all.take(0) =~= Seq::<CalendarEvent>::empty());
    while start < n
        invariant
            n == state.events@.len(),
            all == restored_events(state, tz),
            restorable(state, tz),
            crate::datetime::offset_in_range(tz as int),
            start == (if c * 5 <= n { c * 5 } else { n as int }),
            0 <= c,
            c > 0 ==> (c - 1) * 5 < n,
            start <= n,
            context.wf(),
            context.now == old(context).now,
            context.utc_offset == old(context).utc_offset,
            context.timely_data@ == old(context).timely_data@,
            context.update_events@ == after_updates(s0, all.take(start as int)),
            actions@.len() == c,
            forall|k: int| 0 <= k < c ==> is_batch_of(#[trigger] actions@[k], chunk_of(all, k)),
        decreases n - start,
    {
        let end: usize = if start + RESTORE_CHUNK_SIZE <= n { start + RESTORE_CHUNK_SIZE } else { n };
        let mut batch: Vec<CalendarEvent> = Vec::new();
        let mut j: usize = start;
        while j < end
            invariant
                n == state.events@.len(),
                all == restored_events(state, tz),
                restorable(state, tz),
                crate::datetime::offset_in_range(tz as int),
                start <= j <= end <= n,
                context.wf(),
                context.now == old(context).now,
                context.utc_offset == old(context).utc_offset,
                context.timely_data@ == old(context).timely_data@,
                context.update_events@ == after_updates(s0, all.take(j as int)),
                batch@ == all.subrange(start as int, j as int),
            decreases end - j,
        {
            assert(dto_times_fit(state.events@[j as int], tz));
            let event = CalendarEvent::new(&state.events[j], tz);
            assert(event == all[j as int]);
            handle_event_update(context, &event);
            batch.push(event);
            assert(all.take(j as int + 1).drop_last() =~= all.take(j as int));
            assert(all.take(j as int + 1).last() == all[j as int]);
            assert(batch@ =~= all.subrange(start as int, j as int + 1));
            j = j + 1;
        }
        actions.push(CalendarAction::Send(Events::CalendarEventsBatch(batch)));
        proof {
            c = c + 1;
        }
        start = end;
    }
    assert(all.take(n as int) =~= all);
    assert(c == chunk_count(n as int));
    if state.version > 2 {
        let ghost t0 = context.timely_data@;
        handle_timely_data(context, &state.timely_data);
        let ghost mid = *context;
        let ghost before = actions@;
        let mut temperature = send_timely_data(context);
        let ghost told_actions = temperature@;
        actions.append(&mut temperature);
        proof {
            let now = mid.now->Some_0;
            let w = weather_event_id(mid.update_events@);
            let hour = now.spec_hour();
            let e = Seq::<TimelyDataRecord>::empty();
            lemma_temperature_bits_stated(mid, now);
            assert forall|x: TimelyDataRecord|
                #[trigger] weather_temperature(t0, state.timely_data@, w, hour, x) <==> weather_temperature(
                    mid.timely_data@,
                    e,
                    w,
                    hour,
                    x,
                ) by {
                assert(timely_has(mid.timely_data@, x) <==> (timely_has(t0, x) || state.timely_data@.contains(x)));
                assert(!e.contains(x));
            }
            assert(actions@ == before + told_actions);
            let told = exists|x: TimelyDataRecord| #[trigger] weather_temperature(t0, state.timely_data@, w, hour, x);
            if told {
                let x = choose|x: TimelyDataRecord| #[trigger] weather_temperature(t0, state.timely_data@, w, hour, x);
                assert(weather_temperature(mid.timely_data@, e, w, hour, x));
            }
            if spec_temperature_bits(mid, now) is Some {
                let r = choose|r: TimelyDataRecord|
                    #[trigger] weather_temperature(mid.timely_data@, e, w, hour, r) && r.value_bits
                        == spec_temperature_bits(mid, now)->Some_0 && forall|x: TimelyDataRecord|
                        #[trigger] weather_temperature(mid.timely_data@, e, w, hour, x) ==> x.start_at_hour
                            <= r.start_at_hour;
                assert(weather_temperature(t0, state.timely_data@, w, hour, r));
                assert(actions@[before.len() as int] == told_actions[0]);
            }
        }
    }
    let reminders = reminders_command(context);
    actions.push(CalendarAction::Command(reminders));
    actions
}

/// The events the calendar module can take from the bus: readable times, and calendar
/// events whose reminders can be planned.
pub open spec fn calendar_event_wf(event: Events) -> bool {
    match event {
        Events::TimeNow(t) => t.wf(),
        Events::ReferenceCalendarEvent(e) => event_fits(e),
        Events::ReferenceCalendarEventUpdatesBatch(batch) => all_fit(batch@),
        _ => true,
    }
}

/// The temperature announcement, if any, then what persisting asks for.
pub open spec fn sync_actions(
    actions: Seq<CalendarAction>,
    bits: Option<u32>,
    kept: Seq<CalendarEvent>,
    timely: Seq<EventTimelyData>,
    now: DateTime,
) -> bool {
    match bits {
        Some(b) => actions.len() == 4 && (actions[0] matches CalendarAction::SendTemperature { value_bits } && value_bits == b)
            && persist_actions(actions.subrange(1, 4), kept, timely, now),
        None => persist_actions(actions, kept, timely, now),
    }
}

/// Whether the times of an event can be read.
pub fn event_fits_check(e: &CalendarEvent) -> (r: bool)
    ensures
        r == event_fits(*e),
{
    e.start.is_wf() && e.end.is_wf()
}

/// Whether the notification time of an event can be read.
pub fn notification_fits_check(e: &CalendarEvent) -> (r: bool)
    ensures
        r == notification_fits(*e),
{
    let lead: i128 = e.start.unix_seconds as i128 + e.start.offset_seconds as i128 - NOTIFICATION_LEAD_SECONDS as i128;
    crate::datetime::MIN_UNIX_TIMESTAMP as i128 <= lead && lead <= crate::datetime::MAX_UNIX_TIMESTAMP as i128
}

/// Whether every event of `events` that gets reminders at `now` (and, with `kept_only`, has
/// not ended then) has a readable notification time.
pub fn reminders_ready(events: &Vec<CalendarEvent>, now: &DateTime, kept_only: bool) -> (r: bool)
    ensures
        r == (if kept_only {
            kept_reminders_fit(events@, *now)
        } else {
            reminders_fit(events@, now.unix_seconds as int)
        }),
{
    let mut i: usize = 0;
    while i < events.len()
        invariant
            0 <= i <= events@.len(),
            forall|k: int|
                0 <= k < i && (!kept_only || not_ended(*now)(#[trigger] events@[k])) && gets_reminders(
                    events@[k],
                    now.unix_seconds as int,
                ) ==> notification_fits(events@[k]),
        decreases events@.len() - i,
    {
        let e = &events[i];
        let duration: i128 = e.end.unix_seconds as i128 - e.start.unix_seconds as i128;
        let counts = (!kept_only || e.end.unix_seconds >= now.unix_seconds) && e.start.unix_seconds
            >= now.unix_seconds && duration < REMINDER_MAX_DURATION_SECONDS as i128;
        if counts && !notification_fits_check(e) {
            assert(!notification_fits(events@[i as int]));
            return false;
        }
        i = i + 1;
    }
    true
}

/// Whether the reminders can be planned once the events of a restored state (shown in offset
/// `tz`) are taken in.
pub fn restored_reminders_ready(context: &CalendarContext, state: &CalendarStateDto, tz: i32) -> (r: bool)
    requires
        context.wf(),
        context.now is Some,
        crate::datetime::offset_in_range(tz as int),
        restorable(*state, tz),
    ensures
        r == reminders_fit(
            after_updates(context.update_events@, restored_events(*state, tz)),
            context.now->Some_0.unix_seconds as int,
        ),
{
    let ghost all = restored_events(*state, tz);
    let ghost s0 = context.update_events@;
    let mut events: Vec<CalendarEvent> = Vec::new();
    let mut i: usize = 0;
    while i < context.update_events.len()
        invariant
            0 <= i <= s0.len(),
            s0 == context.update_events@,
            events@ == s0.take(i as int),
        decreases s0.len() - i,
    {
        events.push(context.update_events[i].clone());
        assert(events@ =~= s0.take(i as int + 1));
        i = i + 1;
    }
    assert(s0.take(s0.len() as int) =~= s0);
    let mut copy = CalendarContext { update_events: events, timely_data: Vec::new(), now: context.now, utc_offset: context.utc_offset };
    let n = state.events.len();
    let mut j: usize = 0;
    assert(all.take(0) =~= Seq::<CalendarEvent>::empty());
    while j < n
        invariant
            n == state.events@.len(),
            all == restored_events(*state, tz),
            restorable(*state, tz),
            crate::datetime::offset_in_range(tz as int),
            0 <= j <= n,
            copy.wf(),
            copy.update_events@ == after_updates(s0, all.take(j as int)),
        decreases n - j,
    {
        assert(dto_times_fit(state.events@[j as int], tz));
        let event = CalendarEvent::new(&state.events[j], tz);
        assert(event == all[j as int]);
        handle_event_update(&mut copy, &event);
        assert(all.take(j as int + 1).drop_last() =~= all.take(j as int));
        assert(all.take(j as int + 1).last() == all[j as int]);
        j = j + 1;
    }
    assert(all.take(n as int) =~= all);
    let now = match context.now {
        Some(t) => t,
        None => return false,
    };
    reminders_ready(&copy.update_events, &now, false)
}

impl CalendarModule {
    /// Whether `event_handler` can take `event` in the given state: the event's times can be
    /// read, and the calendar is not told it is in sync while it holds events but no time.
    pub fn accepts(context: &CalendarContext, event: &Events) -> (r: bool)
        ensures
            r == (calendar_event_wf(*event) && (*event matches Events::InSync(true) ==> context.update_events@.len()
                == 0 || (context.now matches Some(now) && kept_reminders_fit(context.update_events@, now)))),
    {
        match event {
            Events::TimeNow(t) => t.is_wf(),
            Events::ReferenceCalendarEvent(e) => event_fits_check(e),
            Events::ReferenceCalendarEventUpdatesBatch(batch) => {
                assert(calendar_event_wf(*event) == all_fit(batch@));
                let mut i: usize = 0;
                while i < batch.len()
                    invariant
                        0 <= i <= batch@.len(),
                        calendar_event_wf(*event) == all_fit(batch@),
                        forall|k: int| 0 <= k < i ==> event_fits(#[trigger] batch@[k]),
                    decreases batch@.len() - i,
                {
                    if !event_fits_check(&batch[i]) {
                        assert(!event_fits(batch@[i as int]));
                        assert(!all_fit(batch@));
                        return false;
                    }
                    i = i + 1;
                }
                true
            },
            Events::InSync(in_sync) => !*in_sync || context.update_events.len() == 0 || match context.now {
                Some(now) => reminders_ready(&context.update_events, &now, true),
                None => false,
            },
            _ => true,
        }
    }
}

impl CalendarModule {
    /// Handles an event from the bus: keeps the time, takes in updates and drops of events
    /// (passing them on to the renderer), stores timely data, persists the calendar once it
    /// is in sync, and asks for a restore of persisted data it can take in.
    pub fn event_handler(context: &mut CalendarContext, event: Events) -> (r: Vec<CalendarAction>)
        requires
            old(context).wf(),
            calendar_event_wf(event),
            event matches Events::InSync(true) ==> old(context).update_events@.len() == 0
                || (old(context).now matches Some(now) && kept_reminders_fit(old(context).update_events@, now)),
        ensures
            final(context).wf(),
            match event {
                Events::TimeNow(t) => final(context).now == Some(t) && r@.len() == 0
                    && final(context).update_events@ == old(context).update_events@
                    && final(context).timely_data@ == old(context).timely_data@
                    && final(context).utc_offset == old(context).utc_offset,
                Events::ReferenceCalendarEvent(e) => final(context).update_events@ == after_updates(
                    old(context).update_events@,
                    seq![e],
                ) && r@.len() == 1 && (r@[0] matches CalendarAction::Send(Events::CalendarEvent(x))
                    && x == e) && final(context).timely_data@ == old(context).timely_data@
                    && final(context).now == old(context).now && final(context).utc_offset == old(context).utc_offset,
                Events::ReferenceCalendarEventUpdatesBatch(batch) => final(context).update_events@
                    == after_updates(old(context).update_events@, batch@) && r@.len() == 1 && (
                r@[0] matches CalendarAction::Send(Events::CalendarEventsBatch(x)) && x@ == batch@)
                    && final(context).timely_data@ == old(context).timely_data@
                    && final(context).now == old(context).now && final(context).utc_offset == old(context).utc_offset,
                Events::ReferenceCalendarEventDropsBatch(keys) => final(context).update_events@
                    == old(context).update_events@.filter(not_dropped(keys@)) && r@.len() == 1 && (
                r@[0] matches CalendarAction::Send(Events::DropCalendarEventsBatch(x)) && x@
                    == keys@) && final(context).timely_data@ == old(context).timely_data@
                    && final(context).now == old(context).now && final(context).utc_offset == old(context).utc_offset,
                Events::ReferenceTimelyDataBatch(records) => r@.len() == 0
                    && final(context).update_events@ == old(context).update_events@
                    && final(context).now == old(context).now && final(context).utc_offset == old(context).utc_offset
                    && forall|x: TimelyDataRecord|
                    #[trigger] timely_has(final(context).timely_data@, x) <==> (timely_has(
                        old(context).timely_data@,
                        x,
                    ) || records@.contains(x)),
                Events::InSync(true) => if old(context).update_events@.len() == 0 {
                    r@.len() == 0 && *final(context) == *old(context)
                } else {
                    &&& final(context).update_events@ == old(context).update_events@.filter(
                        not_ended(old(context).now->Some_0),
                    )
                    &&& final(context).timely_data@.len() == 0
                    &&& final(context).now == old(context).now
                    &&& final(context).utc_offset == old(context).utc_offset
                    &&& sync_actions(
                        r@,
                        spec_temperature_bits(*old(context), old(context).now->Some_0),
                        final(context).update_events@,
                        Seq::<EventTimelyData>::empty(),
                        old(context).now->Some_0,
                    )
                },
                Events::Restored(unit) => *final(context) == *old(context) && if unit.kind
                    == PersistenceUnitKind::CalendarSyncInfo && unit.data is Ok
                    && old(context).utc_offset is Some {
                    r@.len() == 1 && (r@[0] matches CalendarAction::Restore { data, utc_offset }
                        && data@ == unit.data->Ok_0@ && utc_offset == old(context).utc_offset->Some_0)
                } else {
                    r@.len() == 0
                },
                _ => r@.len() == 0 && *final(context) == *old(context),
            },
    {
        let mut actions: Vec<CalendarAction> = Vec::new();
        match event {
            Events::TimeNow(time_now) => {
                context.now = Some(time_now);
            },
            Events::ReferenceCalendarEvent(reference_calendar_event) => {
                let ghost s0 = context.update_events@;
                handle_event_update(context, &reference_calendar_event);
                proof {
                    let b = seq![reference_calendar_event];
                    assert(b.drop_last() =~= Seq::<CalendarEvent>::empty());
                    assert(b.last() == reference_calendar_event);
                    assert(after_updates(s0, b.drop_last()) == s0);
                }
                actions.push(CalendarAction::Send(Events::CalendarEvent(reference_calendar_event)));
            },
            Events::ReferenceCalendarEventUpdatesBatch(batch) => {
                handle_event_updates(context, &batch);
                actions.push(CalendarAction::Send(Events::CalendarEventsBatch(batch)));
            },
            Events::ReferenceCalendarEventDropsBatch(batch) => {
                handle_events_drop(context, &batch);
                actions.push(CalendarAction::Send(Events::DropCalendarEventsBatch(batch)));
            },
            Events::ReferenceTimelyDataBatch(batch) => {
                handle_timely_data(context, &batch);
            },
            Events::InSync(in_sync) => {
                if in_sync && context.update_events.len() > 0 {
                    let mut temperature = send_timely_data(context);
                    let mut persisted = persist_state(context);
                    let ghost t = temperature@;
                    let ghost p = persisted@;
                    actions.append(&mut temperature);
                    actions.append(&mut persisted);
                    assert(actions@ == t + p);
                    assert(t.len() == 1 ==> actions@.subrange(1, 4) =~= p);
                    assert(t.len() == 0 ==> actions@ =~= p);
                }
            },
            Events::Restored(unit) => {
                if unit.kind == PersistenceUnitKind::CalendarSyncInfo {
                    if let Some(utc_offset) = context.utc_offset {
                        match unit.data {
                            Ok(data) => {
                                actions.push(CalendarAction::Restore { data, utc_offset });
                            },
                            Err(_) => {},
                        }
                    }
                }
            },
            _ => {},
        }
        actions
    }

    /// Handles a command from the bus: a calendar sync marks the calendar as out of sync; a
    /// new time zone is kept, the known time is moved to it (keeping its wall-clock reading),
    /// and the persisted calendar is asked for.
    pub fn command_handler(context: &mut CalendarContext, command: &Commands) -> (r: Vec<CalendarAction>)
        requires
            old(context).wf(),
            command matches Commands::SetTimezone(o) ==> crate::datetime::offset_in_range(o as int),
        ensures
            final(context).wf(),
            final(context).update_events@ == old(context).update_events@,
            final(context).timely_data@ == old(context).timely_data@,
            match *command {
                Commands::SyncCalendar => r@.len() == 1 && (r@[0] matches CalendarAction::Send(
                    Events::InSync(b),
                ) && !b) && final(context).now == old(context).now && final(context).utc_offset
                    == old(context).utc_offset,
                Commands::SetTimezone(offset) => {
                    &&& final(context).utc_offset == Some(offset)
                    &&& final(context).now == match old(context).now {
                        Some(t) => Some(
                            DateTime {
                                unix_seconds: (t.unix_seconds + t.offset_seconds - offset) as i64,
                                offset_seconds: offset,
                            },
                        ),
                        None => None,
                    }
                    &&& r@.len() == 1
                    &&& r@[0] matches CalendarAction::Command(Commands::Restore(kind)) && kind
                        == PersistenceUnitKind::CalendarSyncInfo
                },
                _ => r@.len() == 0 && final(context).now == old(context).now
                    && final(context).utc_offset == old(context).utc_offset,
            },
    {
        let mut actions: Vec<CalendarAction> = Vec::new();
        match command {
            Commands::SyncCalendar => {
                actions.push(CalendarAction::Send(Events::InSync(false)));
            },
            Commands::SetTimezone(offset) => {
                context.utc_offset = Some(*offset);
                if let Some(now) = context.now {
                    let local: i64 = now.unix_seconds + now.offset_seconds as i64;
                    context.now = Some(DateTime { unix_seconds: local - *offset as i64, offset_seconds: *offset });
                }
                actions.push(CalendarAction::Command(Commands::Restore(PersistenceUnitKind::CalendarSyncInfo)));
            },
            _ => {},
        }
        actions
    }
}

} // verus!
