use vstd::prelude::*;

use crate::calendar::{CalendarEvent, CalendarEventIcon};
use crate::datetime::DateTime;
use crate::relative::{RelativeCoordinate, RelativeSize};
use crate::render_plan::HALF_DAY_SECONDS;

verus! {

broadcast use vstd::seq_lib::group_seq_properties;

/// The groups of events the events layer draws.
#[derive(Clone, Copy, Debug, PartialEq, Eq, Structural)]
pub enum EventCategory {
    /// Running now: started, not yet ended.
    Current,
    /// Running now, ending within half a day and shorter than half a day: drawn as arcs.
    CurrentFinite,
    /// Running now and lasting half a day or more: drawn as tags around the centre.
    CurrentAmbient,
    /// Not started yet, starting within half a day and shorter than half a day.
    UpcomingToday,
}

pub open spec fn is_current(e: CalendarEvent, now: int) -> bool {
    e.start.unix_seconds <= now && e.end.unix_seconds > now
}

/// Whether event `e` belongs to `category` at the instant `now`.
pub open spec fn in_category(category: EventCategory, now: int, e: CalendarEvent) -> bool {
    match category {
        EventCategory::Current => is_current(e, now),
        EventCategory::CurrentFinite => is_current(e, now) && e.end.unix_seconds - now
            < HALF_DAY_SECONDS && e.end.unix_seconds - e.start.unix_seconds < HALF_DAY_SECONDS,
        EventCategory::CurrentAmbient => is_current(e, now) && e.end.unix_seconds
            - e.start.unix_seconds >= HALF_DAY_SECONDS,
        EventCategory::UpcomingToday => e.start.unix_seconds > now && e.end.unix_seconds
            - e.start.unix_seconds < HALF_DAY_SECONDS && e.start.unix_seconds - now
            < HALF_DAY_SECONDS,
    }
}

pub open spec fn category_filter(category: EventCategory, now: int) -> spec_fn(CalendarEvent) -> bool {
    |e: CalendarEvent| in_category(category, now, e)
}

/// What the categories mean on the 12-hour dial at `now`: a current event has started and not
/// ended; a finite one also ends within half a day, an ambient one lasts half a day or more,
/// and none is both; an upcoming event of today is exactly one that starts after now and less
/// than half a day from now and lasts less than half a day, so no event of tomorrow is drawn.
pub proof fn event_categories_on_the_dial(now: int, e: CalendarEvent)
    ensures
        in_category(EventCategory::Current, now, e) <==> (e.start.unix_seconds <= now
            < e.end.unix_seconds),
        in_category(EventCategory::CurrentFinite, now, e) ==> in_category(EventCategory::Current, now, e)
            && e.end.unix_seconds - now < HALF_DAY_SECONDS,
        in_category(EventCategory::CurrentAmbient, now, e) ==> in_category(EventCategory::Current, now, e)
            && e.end.unix_seconds - e.start.unix_seconds >= HALF_DAY_SECONDS,
        !(in_category(EventCategory::CurrentFinite, now, e) && in_category(EventCategory::CurrentAmbient, now, e)),
        in_category(EventCategory::UpcomingToday, now, e) <==> (now < e.start.unix_seconds < now
            + HALF_DAY_SECONDS && e.end.unix_seconds - e.start.unix_seconds < HALF_DAY_SECONDS),
        !(in_category(EventCategory::UpcomingToday, now, e) && in_category(EventCategory::Current, now, e)),
{
}

/// Whether event `event` belongs to `category` at `now`.
pub fn event_in_category(category: EventCategory, now: &DateTime, event: &CalendarEvent) -> (r: bool)
    ensures
        r == in_category(category, now.unix_seconds as int, *event),
{
    let n: i128 = now.unix_seconds as i128;
    let start: i128 = event.start.unix_seconds as i128;
    let end: i128 = event.end.unix_seconds as i128;
    let half: i128 = HALF_DAY_SECONDS as i128;
    let current = start <= n && end > n;
    match category {
        EventCategory::Current => current,
        EventCategory::CurrentFinite => current && end - n < half && end - start < half,
        EventCategory::CurrentAmbient => current && end - start >= half,
        EventCategory::UpcomingToday => start > n && end - start < half && start - n < half,
    }
}

/// The events of `events` in `category` at `now`, in their order.
pub fn select_events(events: &Vec<CalendarEvent>, now: &DateTime, category: EventCategory) -> (r: Vec<
    CalendarEvent,
>)
    ensures
        r@ == events@.filter(category_filter(category, now.unix_seconds as int)),
{
    let ghost s = events@;
    let ghost p = category_filter(category, now.unix_seconds as int);
    let mut selected: Vec<CalendarEvent> = Vec::new();
    let mut i: usize = 0;
    while i < events.len()
        invariant
            0 <= i <= s.len(),
            s == events@,
            p == category_filter(category, now.unix_seconds as int),
            selected@ == s.take(i as int).filter(p),
        decreases s.len() - i,
    {
        assert(s.take(i as int + 1) =~= s.take(i as int).push(s[i as int]));
        proof {
            s.take(i as int).lemma_filter_push(s[i as int], p);
        }
        if event_in_category(category, now, &events[i]) {
            selected.push(events[i].clone());
        }
        i = i + 1;
    }
    assert(s.take(s.len() as int) =~= s);
    selected
}

/// Where the lines of one event go in the details view, as vertical offsets in pixels from
/// the centre of the screen: the title, and the description below it unless it is empty.
#[derive(Clone, Copy, Debug, PartialEq, Eq, Structural)]
pub struct DetailsRow {
    pub title_offset_y: i32,
    pub description_offset_y: Option<i32>,
}

/// The number of events among the first `k` of `events` that have a description.
pub open spec fn described_before(events: Seq<CalendarEvent>, k: int) -> int
    decreases k,
{
    if k <= 0 {
        0
    } else {
        described_before(events, k - 1) + (if events[k - 1].description@.len() > 0 {
            1int
        } else {
            0int
        })
    }
}

proof fn lemma_described_before_bounds(events: Seq<CalendarEvent>, k: int)
    requires
        0 <= k,
    ensures
        0 <= described_before(events, k) <= k,
    decreases k,
{
    if k > 0 {
        lemma_described_before_bounds(events, k - 1);
    }
}

/// Lays out the details view: each event takes a title line, and a description line below
/// it unless its description is empty; lines are 12 pixels apart and titles of events with
/// a description two lines apart.
pub fn details_layout(events: &Vec<CalendarEvent>) -> (r: Vec<DetailsRow>)
    requires
        events@.len() <= 1000000,
    ensures
        r@.len() == events@.len(),
        forall|k: int|
            0 <= k < events@.len() ==> (#[trigger] r@[k]).title_offset_y == 24 * described_before(
                events@,
                k,
            ) && r@[k].description_offset_y == (if events@[k].description@.len() > 0 {
                Some((24 * described_before(events@, k) - 8) as i32)
            } else {
                None::<i32>
            }),
{
    let mut rows: Vec<DetailsRow> = Vec::new();
    let mut described: i32 = 0;
    let mut i: usize = 0;
    while i < events.len()
        invariant
            0 <= i <= events@.len(),
            events@.len() <= 1000000,
            rows@.len() == i,
            described == described_before(events@, i as int),
            0 <= described <= i,
            forall|k: int|
                0 <= k < i ==> (#[trigger] rows@[k]).title_offset_y == 24 * described_before(
                    events@,
                    k,
                ) && rows@[k].description_offset_y == (if events@[k].description@.len() > 0 {
                    Some((24 * described_before(events@, k) - 8) as i32)
                } else {
                    None::<i32>
                }),
        decreases events@.len() - i,
    {
        let has_description = !events[i].description.as_str().is_empty();
        let title_y: i32 = described * 24;
        if has_description {
            rows.push(DetailsRow { title_offset_y: title_y, description_offset_y: Some(title_y - 8) });
            described = described + 1;
        } else {
            rows.push(DetailsRow { title_offset_y: title_y, description_offset_y: None });
        }
        i = i + 1;
    }
    rows
}

/// Diameter of the outermost event lane, relative to the screen.
pub const OUTER_LANE_DIAMETER: u32 = 945u32;

/// Distance between neighbouring lanes, relative to the screen.
pub const LANE_SPACING: u32 = 117u32;

/// Thickness of an event arc, relative to the screen.
pub const LANE_LINE_THICKNESS: u32 = 16u32;

/// Diameter of the circle along which the events of a lane are drawn; lane 0 is the
/// outermost, each further lane lies one spacing inside.
pub fn event_arc_diameter(lane: u8) -> (r: RelativeSize)
    requires
        lane <= 8,
    ensures
        r@ == OUTER_LANE_DIAMETER - LANE_SPACING * lane,
{
    let outer = RelativeSize::from_u32(OUTER_LANE_DIAMETER);
    let spacing = RelativeSize::from_u32(LANE_SPACING);
    outer.sub(spacing.mul_u16(lane as u16))
}

/// Where an event's arc ends on the clock face: its end, or half a day from now when it
/// ends later than that.
pub fn visual_end(event: &CalendarEvent, now: &DateTime) -> (r: DateTime)
    requires
        now.unix_seconds + HALF_DAY_SECONDS <= i64::MAX,
    ensures
        r == (if event.end.unix_seconds > now.unix_seconds + HALF_DAY_SECONDS {
            DateTime { unix_seconds: (now.unix_seconds + HALF_DAY_SECONDS) as i64, offset_seconds: now.offset_seconds }
        } else {
            event.end
        }),
{
    let limit = now.unix_seconds + HALF_DAY_SECONDS;
    if event.end.unix_seconds > limit {
        DateTime { unix_seconds: limit, offset_seconds: now.offset_seconds }
    } else {
        event.end
    }
}

/// The minutes from now, rounded toward zero, at which an event's arc starts and ends: an
/// event that has already started starts now.
pub fn arc_minutes(now: &DateTime, start: &DateTime, end: &DateTime) -> (r: (i64, i64))
    requires
        now.wf(),
        start.wf(),
        end.wf(),
    ensures
        r.0 == (if start.unix_seconds > now.unix_seconds {
            (start.unix_seconds - now.unix_seconds) / 60
        } else {
            0
        }),
        r.1 == (if end.unix_seconds >= now.unix_seconds {
            (end.unix_seconds - now.unix_seconds) / 60
        } else {
            -((now.unix_seconds - end.unix_seconds) / 60)
        }),
{
    let start_rel: i64 = if start.unix_seconds > now.unix_seconds {
        start.unix_seconds - now.unix_seconds
    } else {
        0
    };
    let end_rel: i64 = end.unix_seconds - now.unix_seconds;
    (start_rel / 60, end_rel / 60)
}

/// Sizes of the tag drawn for an event, relative to the screen.
#[derive(Clone, Copy, Debug)]
pub struct EventTagStyle<TColor> {
    pub icon: CalendarEventIcon,
    pub event_tag_size: RelativeSize,
    pub color: TColor,
    pub length: RelativeSize,
    pub thickness: RelativeSize,
}

impl<TColor> EventTagStyle<TColor> {
    /// The tag of an event on a lane.
    pub fn default(icon: CalendarEventIcon, color: TColor) -> (r: Self)
        ensures
            r.icon == icon,
            r.color == color,
            r.event_tag_size@ == 67,
            r.length@ == 105,
            r.thickness@ == 4,
    {
        EventTagStyle {
            color,
            event_tag_size: RelativeSize::from_u16(67),
            icon,
            length: RelativeSize::from_u16(105),
            thickness: RelativeSize::from_u16(4),
        }
    }

    /// The tag of an event that lasts half a day or more.
    pub fn large(icon: CalendarEventIcon, color: TColor) -> (r: Self)
        ensures
            r.icon == icon,
            r.color == color,
            r.event_tag_size@ == 105,
            r.length@ == 252,
            r.thickness@ == 4,
    {
        EventTagStyle {
            color,
            event_tag_size: RelativeSize::from_u16(105),
            icon,
            length: RelativeSize::from_u16(252),
            thickness: RelativeSize::from_u16(4),
        }
    }
}

/// The centre of the screen.
pub fn center_point() -> (r: RelativeCoordinate)
    ensures
        r@ == (500u16, 500u16),
{
    RelativeCoordinate::from_pair((500, 500))
}

/// Where the temperature, and the announcement of the next event, are drawn.
pub fn temperature_point() -> (r: RelativeCoordinate)
    ensures
        r@ == (500u16, 584u16),
{
    center_point().add(RelativeCoordinate::from_pair((0, 84)))
}

/// Where the alarm sign is drawn.
pub fn alarm_point() -> (r: RelativeCoordinate)
    ensures
        r@ == (500u16, 605u16),
{
    center_point().add(RelativeCoordinate::from_pair((0, 105)))
}

/// Where the battery sign is drawn.
pub fn battery_point() -> (r: RelativeCoordinate)
    ensures
        r@ == (504u16, 756u16),
{
    RelativeCoordinate::from_pair((504, 756))
}

/// Where the connection sign is drawn.
pub fn ble_point() -> (r: RelativeCoordinate)
    ensures
        r@ == (248u16, 542u16),
{
    center_point().sub(RelativeCoordinate::from_pair((252, 0))).add(RelativeCoordinate::from_pair((0, 42)))
}

/// Where the weekday is drawn: right-aligned at half the width of the time text (in
/// relative units) right of the centre.
pub fn day_point(time_text_width: u32) -> (r: RelativeCoordinate)
    ensures
        r@ == (((time_text_width / 2) + 500) as u16, 588u16),
{
    let half_width = RelativeSize::from_u32(time_text_width).div_u32(2);
    assert(half_width@ + 500 <= u32::MAX);
    RelativeCoordinate::new(half_width.add(RelativeSize::from_u16(500)), RelativeSize::from_u16(588))
}

} // verus!
