use vstd::prelude::*;

use crate::calendar::{CalendarEvent, CalendarEventIcon};
use crate::commands::Commands;
use crate::datetime::DateTime;
use crate::events::Events;
use crate::relative::{RelativeCoordinate, RelativeSize};
use crate::renderer::{ViewModel, VisualMode};

verus! {

broadcast use vstd::seq_lib::group_seq_properties;

/// Half a day in seconds: the span of the clock face.
pub const HALF_DAY_SECONDS: i64 = 43200i64;

/// How far ahead an upcoming event is announced, in seconds.
pub const ALERT_SCOPE_SECONDS: i64 = 1800i64;

/// Events that start within this many seconds are not announced any more.
pub const ALERT_IGNORE_SECONDS: i64 = 5i64;

/// Below this many seconds to the next event its announcement is drawn in red.
pub const ALERT_URGENT_SECONDS: i64 = 300i64;

/// The layers the display is composed of; each is a bit of a layer mask.
#[derive(Clone, Copy, Debug, PartialEq, Eq, Structural)]
pub enum LayerType {
    Static,
    Clock,
    Events,
}

/// Whether a frame is drawn from scratch or over what the layer already holds.
#[derive(Clone, Copy, Debug, PartialEq, Eq, Structural)]
pub enum RenderMode {
    Invalidate,
    Ammend,
}

pub open spec fn layer_bit(layer: LayerType) -> u8 {
    match layer {
        LayerType::Static => 1,
        LayerType::Clock => 2,
        LayerType::Events => 4,
    }
}

impl LayerType {
    /// The bit of the layer in a layer mask.
    pub fn bit(&self) -> (r: u8)
        ensures
            r == layer_bit(*self),
    {
        match self {
            LayerType::Static => 1,
            LayerType::Clock => 2,
            LayerType::Events => 4,
        }
    }

    /// The position of the layer's bit (the base-2 logarithm of the bit).
    pub fn index(&self) -> (r: usize)
        ensures
            r < 3,
            layer_bit(*self) == (if r == 0 { 1u8 } else if r == 1 { 2u8 } else { 4u8 }),
    {
        match self {
            LayerType::Static => 0,
            LayerType::Clock => 1,
            LayerType::Events => 2,
        }
    }
}

/// The mask of all three layers.
pub const ALL_LAYERS: u8 = 7u8;

/// Whether the render loop wants an event of this variant.
pub open spec fn renderable(event: Events) -> bool {
    match event {
        Events::TimeNow(_) | Events::Temperature(_) | Events::BatteryLevel(_) | Events::Charging(_)
        | Events::BleClientConnected | Events::BleClientDisconnected | Events::CalendarEvent(_)
        | Events::CalendarEventsBatch(_) | Events::DropCalendarEventsBatch(_) | Events::Reminder(_)
        | Events::AccelerometerInterrupt(_) | Events::RtcAlarmInterrupt(_) | Events::Key1Press
        | Events::EventTimelyData(_) => true,
        _ => false,
    }
}

/// Whether the render loop wants the event.
pub fn is_renderable(event: &Events) -> (r: bool)
    ensures
        r == renderable(*event),
{
    match event {
        Events::TimeNow(_) | Events::Temperature(_) | Events::BatteryLevel(_) | Events::Charging(_)
        | Events::BleClientConnected | Events::BleClientDisconnected | Events::CalendarEvent(_)
        | Events::CalendarEventsBatch(_) | Events::DropCalendarEventsBatch(_) | Events::Reminder(_)
        | Events::AccelerometerInterrupt(_) | Events::RtcAlarmInterrupt(_) | Events::Key1Press
        | Events::EventTimelyData(_) => true,
        _ => false,
    }
}

/// The state of the renderer's side of the message bus.
#[derive(Clone, Copy, Debug)]
pub struct RendererContext {
    pub pause: bool,
}

impl RendererContext {
    pub fn new() -> (r: RendererContext)
        ensures
            !r.pause,
    {
        RendererContext { pause: false }
    }

    /// Whether an event from the bus goes on to the render loop: clock ticks are held back
    /// while rendering is paused, and only events the loop wants go on.
    pub fn forwards_event(&self, event: &Events) -> (r: bool)
        ensures
            r == (!(self.pause && *event is TimeNow) && renderable(*event)),
    {
        if self.pause && matches!(event, Events::TimeNow(_)) {
            return false;
        }
        is_renderable(event)
    }

    /// Handles a command from the bus; returns whether the render loop must be told to end.
    pub fn handle_command(&mut self, command: &Commands) -> (r: bool)
        ensures
            final(self).pause == (if *command is PauseRendering {
                true
            } else if *command is ResumeRendering {
                false
            } else {
                old(self).pause
            }),
            r == (*command is StartDeepSleep),
    {
        match command {
            Commands::PauseRendering => {
                self.pause = true;
                false
            },
            Commands::ResumeRendering => {
                self.pause = false;
                false
            },
            Commands::StartDeepSleep => true,
            _ => false,
        }
    }
}

/// The render loop's memory between frames.
#[derive(Clone, Copy, Debug)]
pub struct RenderLoopState {
    pub static_rendered: bool,
}

impl RenderLoopState {
    pub fn new() -> (r: RenderLoopState)
        ensures
            !r.static_rendered,
    {
        RenderLoopState { static_rendered: false }
    }

    /// The layers to draw for the next frame: the clock always, the static background only
    /// the first time, the events when they must be redrawn from scratch.
    pub fn next_frame_layers(&mut self, force_render_events: bool) -> (r: u8)
        ensures
            r == frame_layers(old(self).static_rendered, force_render_events),
            final(self).static_rendered,
    {
        let mut mask: u8 = 2;
        if !self.static_rendered {
            mask = mask + 1;
            self.static_rendered = true;
        }
        if force_render_events {
            mask = mask + 4;
        }
        mask
    }
}

/// Whether a layer is in a mask.
pub fn mask_contains(mask: u8, layer: LayerType) -> (r: bool)
    ensures
        r == (mask & layer_bit(layer) != 0),
{
    mask & layer.bit() != 0
}

/// Marks the first frame as drawn; returns whether this was the first frame, which the
/// loop announces with `FirstRender`.
pub fn mark_frame_drawn(vm: &mut ViewModel) -> (r: bool)
    ensures
        r == !old(vm).is_past_first_frame,
        final(vm).is_past_first_frame,
        final(vm).calendar_events == old(vm).calendar_events,
        final(vm).timely_data == old(vm).timely_data,
        final(vm).time_vm == old(vm).time_vm,
        final(vm).force_render_events == old(vm).force_render_events,
        final(vm).alarm_counter == old(vm).alarm_counter,
{
    if !vm.is_past_first_frame {
        vm.is_past_first_frame = true;
        true
    } else {
        false
    }
}

/// The layers drawn in a frame: the clock always, the static background until it has been drawn
/// once, the events when they must be redrawn from scratch.
pub open spec fn frame_layers(static_rendered: bool, force_render_events: bool) -> u8 {
    if static_rendered {
        if force_render_events {
            6u8
        } else {
            2u8
        }
    } else {
        if force_render_events {
            7u8
        } else {
            3u8
        }
    }
}

/// What the render loop asks of the display and the bus, in order.
#[derive(Clone, Copy, Debug, PartialEq, Eq, Structural)]
pub enum FrameAction {
    /// Draw the layers of this mask.
    Draw(u8),
    /// Merge the layers of this mask and show the result.
    Commit(u8),
    /// Announce on the bus that the first frame is shown.
    AnnounceFirstRender,
}

/// The work of a frame drawn while no event waits: draw, show all layers, and announce the
/// first frame.
pub open spec fn frame_actions(static_rendered: bool, force_render_events: bool, past_first_frame: bool) -> Seq<
    FrameAction,
> {
    seq![FrameAction::Draw(frame_layers(static_rendered, force_render_events)), FrameAction::Commit(ALL_LAYERS)]
        + (if past_first_frame {
        Seq::<FrameAction>::empty()
    } else {
        seq![FrameAction::AnnounceFirstRender]
    })
}

/// The last frame of the loop: the static background alone, drawn and shown.
pub open spec fn closing_actions() -> Seq<FrameAction> {
    seq![FrameAction::Draw(1u8), FrameAction::Commit(1u8)]
}

/// Plans the frame drawn while no event waits and marks it drawn.
pub fn plan_frame(loop_state: &mut RenderLoopState, vm: &mut ViewModel) -> (r: Vec<FrameAction>)
    ensures
        r@ == frame_actions(
            old(loop_state).static_rendered,
            old(vm).force_render_events,
            old(vm).is_past_first_frame,
        ),
        final(loop_state).static_rendered,
        final(vm).is_past_first_frame,
        final(vm).calendar_events == old(vm).calendar_events,
        final(vm).timely_data == old(vm).timely_data,
        final(vm).time_vm == old(vm).time_vm,
        final(vm).force_render_events == old(vm).force_render_events,
        final(vm).alarm_counter == old(vm).alarm_counter,
{
    let layers = loop_state.next_frame_layers(vm.force_render_events);
    let mut actions: Vec<FrameAction> = Vec::new();
    actions.push(FrameAction::Draw(layers));
    actions.push(FrameAction::Commit(ALL_LAYERS));
    if mark_frame_drawn(vm) {
        actions.push(FrameAction::AnnounceFirstRender);
    }
    actions
}

/// Plans the last frame, drawn when the loop ends.
pub fn plan_closing_frame() -> (r: Vec<FrameAction>)
    ensures
        r@ == closing_actions(),
{
    let mut actions: Vec<FrameAction> = Vec::new();
    actions.push(FrameAction::Draw(1u8));
    actions.push(FrameAction::Commit(1u8));
    actions
}

/// One turn of the render loop: a frame drawn while no event waits, with the event layer's
/// forced-redraw flag of that moment, or an event applied to the view model.
#[derive(Clone, Copy, Debug)]
pub enum LoopTurn {
    Frame(bool),
    Apply,
}

/// One turn on the loop's memory (whether the background was drawn, whether the first frame
/// was shown): the memory after it and the frame work it asks for. Applying an event leaves
/// both flags as they are.
pub open spec fn loop_turn(memory: (bool, bool), turn: LoopTurn) -> ((bool, bool), Seq<FrameAction>) {
    match turn {
        LoopTurn::Frame(force) => ((true, true), frame_actions(memory.0, force, memory.1)),
        LoopTurn::Apply => (memory, Seq::<FrameAction>::empty()),
    }
}

/// The memory reached and the frame work asked for over `turns`.
pub open spec fn loop_run(memory: (bool, bool), turns: Seq<LoopTurn>) -> ((bool, bool), Seq<FrameAction>)
    decreases turns.len(),
{
    if turns.len() == 0 {
        (memory, Seq::<FrameAction>::empty())
    } else {
        let before = loop_run(memory, turns.drop_last());
        let turn = loop_turn(before.0, turns.last());
        (turn.0, before.1 + turn.1)
    }
}

/// How many announcements of the first frame stand among `actions`.
pub open spec fn first_render_announcements(actions: Seq<FrameAction>) -> nat
    decreases actions.len(),
{
    if actions.len() == 0 {
        0
    } else {
        first_render_announcements(actions.drop_last()) + (if actions.last() is AnnounceFirstRender {
            1nat
        } else {
            0nat
        })
    }
}

/// Whether some turn draws a frame.
pub open spec fn draws_a_frame(turns: Seq<LoopTurn>) -> bool {
    exists|i: int| 0 <= i < turns.len() && #[trigger] turns[i] is Frame
}

/// Whether every drawing among `actions` is followed at once by showing the result.
pub open spec fn draws_committed(actions: Seq<FrameAction>) -> bool {
    forall|i: int|
        0 <= i < actions.len() && #[trigger] actions[i] is Draw ==> i + 1 < actions.len() && actions[i
            + 1] is Commit
}

proof fn first_render_announcements_concat(a: Seq<FrameAction>, b: Seq<FrameAction>)
    ensures
        first_render_announcements(a + b) == first_render_announcements(a) + first_render_announcements(b),
    decreases b.len(),
{
    if b.len() == 0 {
        assert(a + b =~= a);
    } else {
        assert((a + b).drop_last() =~= a + b.drop_last());
        assert((a + b).last() == b.last());
        first_render_announcements_concat(a, b.drop_last());
    }
}

proof fn draws_committed_concat(a: Seq<FrameAction>, b: Seq<FrameAction>)
    requires
        draws_committed(a),
        draws_committed(b),
    ensures
        draws_committed(a + b),
{
    assert forall|i: int| 0 <= i < (a + b).len() && #[trigger] (a + b)[i] is Draw implies i + 1 < (a
        + b).len() && (a + b)[i + 1] is Commit by {
        if i < a.len() {
            assert(a[i] is Draw);
        } else {
            assert(b[i - a.len()] is Draw);
        }
    }
}

proof fn frame_actions_shape(static_rendered: bool, force: bool, past: bool)
    ensures
        draws_committed(frame_actions(static_rendered, force, past)),
        first_render_announcements(frame_actions(static_rendered, force, past)) == (if past {
            0nat
        } else {
            1nat
        }),
        draws_committed(closing_actions()),
        first_render_announcements(closing_actions()) == 0,
{
    let f = frame_actions(static_rendered, force, past);
    let c = closing_actions();
    reveal_with_fuel(first_render_announcements, 4);
    if past {
        assert(f =~= seq![FrameAction::Draw(frame_layers(static_rendered, force)), FrameAction::Commit(ALL_LAYERS)]);
    } else {
        assert(f =~= seq![
            FrameAction::Draw(frame_layers(static_rendered, force)),
            FrameAction::Commit(ALL_LAYERS),
            FrameAction::AnnounceFirstRender,
        ]);
    }
    assert(f.drop_last().drop_last().drop_last().len() == 0 || past);
    assert(c.drop_last().drop_last() =~= Seq::<FrameAction>::empty());
}

/// The first frame is announced once at most over the whole loop, its closing frame included:
/// exactly once when some frame is drawn and none was shown before, never otherwise.
pub proof fn first_render_announced_once(memory: (bool, bool), turns: Seq<LoopTurn>)
    ensures
        loop_run(memory, turns).0.1 == (memory.1 || draws_a_frame(turns)),
        first_render_announcements(loop_run(memory, turns).1 + closing_actions()) == (if !memory.1
            && draws_a_frame(turns) {
            1nat
        } else {
            0nat
        }),
    decreases turns.len(),
{
    frame_actions_shape(false, false, false);
    if turns.len() == 0 {
        first_render_announcements_concat(loop_run(memory, turns).1, closing_actions());
    } else {
        let rest = turns.drop_last();
        let before = loop_run(memory, rest);
        let turn = loop_turn(before.0, turns.last());
        first_render_announced_once(memory, rest);
        first_render_announcements_concat(before.1, closing_actions());
        first_render_announcements_concat(before.1, turn.1);
        first_render_announcements_concat(before.1 + turn.1, closing_actions());
        assert(draws_a_frame(turns) == (draws_a_frame(rest) || turns.last() is Frame)) by {
            if draws_a_frame(rest) {
                let i = choose|i: int| 0 <= i < rest.len() && #[trigger] rest[i] is Frame;
                assert(turns[i] == rest[i]);
            }
            if draws_a_frame(turns) && !(turns.last() is Frame) {
                let i = choose|i: int| 0 <= i < turns.len() && #[trigger] turns[i] is Frame;
                assert(rest[i] == turns[i]);
            }
            if turns.last() is Frame {
                assert(turns[turns.len() - 1] is Frame);
            }
        }
        match turns.last() {
            LoopTurn::Frame(force) => {
                frame_actions_shape(before.0.0, force, before.0.1);
            },
            LoopTurn::Apply => {
                assert(before.1 + turn.1 =~= before.1);
            },
        }
    }
}

/// Every drawing of the loop, its closing frame included, is followed at once by showing the
/// result, and the loop ends by drawing and showing the static background alone.
pub proof fn every_draw_committed(memory: (bool, bool), turns: Seq<LoopTurn>)
    ensures
        draws_committed(loop_run(memory, turns).1 + closing_actions()),
        (loop_run(memory, turns).1 + closing_actions()).last() == FrameAction::Commit(1u8),
    decreases turns.len(),
{
    frame_actions_shape(false, false, false);
    if turns.len() > 0 {
        let rest = turns.drop_last();
        let before = loop_run(memory, rest);
        let turn = loop_turn(before.0, turns.last());
        every_draw_committed(memory, rest);
        assert(draws_committed(before.1)) by {
            assert forall|i: int| 0 <= i < before.1.len() && #[trigger] before.1[i] is Draw implies i + 1
                < before.1.len() && before.1[i + 1] is Commit by {
                assert((before.1 + closing_actions())[i] == before.1[i]);
                if i + 1 == before.1.len() {
                    assert((before.1 + closing_actions())[i + 1] == closing_actions()[0]);
                }
            }
        }
        match turns.last() {
            LoopTurn::Frame(force) => {
                frame_actions_shape(before.0.0, force, before.0.1);
            },
            LoopTurn::Apply => {
                assert(draws_committed(turn.1));
            },
        }
        draws_committed_concat(before.1, turn.1);
        draws_committed_concat(before.1 + turn.1, closing_actions());
    } else {
        assert(loop_run(memory, turns).1 + closing_actions() =~= closing_actions());
    }
}

/// Records that the events layer was drawn: once the time is known, the events are drawn in
/// full, so a forced redraw is no longer due.
pub fn finish_events_layer(vm: &mut ViewModel)
    ensures
        final(vm).force_render_events == (old(vm).force_render_events && old(vm).time_vm.time is None),
        final(vm).is_past_first_frame == old(vm).is_past_first_frame,
        final(vm).calendar_events == old(vm).calendar_events,
        final(vm).timely_data == old(vm).timely_data,
        final(vm).time_vm == old(vm).time_vm,
        final(vm).alarm_counter == old(vm).alarm_counter,
        final(vm).mode == old(vm).mode,
{
    if vm.time_vm.time.is_some() {
        vm.force_render_events = false;
    }
}

/// One step of the search for the next event to announce: events that end further away
/// than the best time found so far are passed over; an event that starts in more than five
/// seconds, less than half an hour and sooner than the best time found so far becomes the
/// best. The pair is the best time so far and whether any event was found.
pub open spec fn alert_step(acc: (int, bool), e: CalendarEvent, now: int) -> (int, bool) {
    if e.end.unix_seconds - now > acc.0 {
        acc
    } else {
        let till_start = e.start.unix_seconds - now;
        if till_start > ALERT_IGNORE_SECONDS && till_start < ALERT_SCOPE_SECONDS && acc.0
            > till_start && e.start.unix_seconds > now {
            (till_start, true)
        } else {
            acc
        }
    }
}

/// The search for the next event to announce over `events`, in their order.
pub open spec fn alert_search(events: Seq<CalendarEvent>, now: int) -> (int, bool)
    decreases events.len(),
{
    if events.len() == 0 {
        (HALF_DAY_SECONDS as int, false)
    } else {
        alert_step(alert_search(events.drop_last(), now), events.last(), now)
    }
}

/// Seconds to the event to announce, if any.
pub open spec fn spec_duration_to_next(vm: ViewModel) -> Option<int> {
    match vm.time_vm.time {
        None => None,
        Some(now) => {
            let found = alert_search(vm.calendar_events@, now.unix_seconds as int);
            if found.1 {
                Some(found.0)
            } else {
                None
            }
        },
    }
}

/// An event that can be announced at `now`: it starts more than `ALERT_IGNORE_SECONDS` and
/// less than `ALERT_SCOPE_SECONDS` after `now`.
pub open spec fn announceable(e: CalendarEvent, now: int) -> bool {
    ALERT_IGNORE_SECONDS < e.start.unix_seconds - now < ALERT_SCOPE_SECONDS
}

proof fn lemma_alert_search_soonest(s: Seq<CalendarEvent>, now: int)
    ensures
        alert_search(s, now).1 ==> exists|i: int|
            0 <= i < s.len() && announceable(#[trigger] s[i], now) && s[i].start.unix_seconds - now
                == alert_search(s, now).0,
        !alert_search(s, now).1 ==> alert_search(s, now).0 == HALF_DAY_SECONDS,
        forall|i: int|
            0 <= i < s.len() && announceable(#[trigger] s[i], now) && s[i].end.unix_seconds - now
                <= alert_search(s, now).0 ==> alert_search(s, now).0 <= s[i].start.unix_seconds - now,
    decreases s.len(),
{
    if s.len() > 0 {
        let t = s.drop_last();
        let e = s.last();
        lemma_alert_search_soonest(t, now);
        let before = alert_search(t, now);
        let after = alert_search(s, now);
        assert(after == alert_step(before, e, now));
        assert(after.0 <= before.0);
        assert forall|i: int|
            0 <= i < s.len() && announceable(#[trigger] s[i], now) && s[i].end.unix_seconds - now
                <= after.0 implies after.0 <= s[i].start.unix_seconds - now by {
            if i < t.len() {
                assert(s[i] == t[i]);
            } else {
                assert(s[i] == e);
            }
        }
        if after.1 {
            if after == before {
                let i = choose|i: int|
                    0 <= i < t.len() && announceable(#[trigger] t[i], now) && t[i].start.unix_seconds - now
                        == before.0;
                assert(s[i] == t[i]);
            } else {
                assert(s[s.len() - 1] == e);
            }
        }
    }
}

/// The announced event is the soonest: where an announcement is made, its seconds are the time
/// to the start of some announceable event of the view, and no announceable event that ends
/// within that time starts sooner. Where none is made, every announceable event ends more than
/// half a day from now.
pub proof fn next_event_announcement_is_soonest(vm: ViewModel)
    ensures
        spec_duration_to_next(vm) matches Some(d) ==> (vm.time_vm.time matches Some(now) && {
            let s = vm.calendar_events@;
            let n = now.unix_seconds as int;
            &&& exists|i: int| 0 <= i < s.len() && announceable(#[trigger] s[i], n) && s[i].start.unix_seconds - n == d
            &&& forall|i: int|
                0 <= i < s.len() && announceable(#[trigger] s[i], n) && s[i].end.unix_seconds - n <= d ==> d
                    <= s[i].start.unix_seconds - n
        }),
        spec_duration_to_next(vm) is None ==> (vm.time_vm.time matches Some(now) ==> forall|i: int|
            0 <= i < vm.calendar_events@.len() && announceable(
                #[trigger] vm.calendar_events@[i],
                now.unix_seconds as int,
            ) ==> vm.calendar_events@[i].end.unix_seconds - now.unix_seconds > HALF_DAY_SECONDS),
{
    if let Some(now) = vm.time_vm.time {
        lemma_alert_search_soonest(vm.calendar_events@, now.unix_seconds as int);
    }
}

/// Seconds from the clock's time to the start of the upcoming event to announce, if any.
pub fn try_get_duration_to_next(vm: &ViewModel) -> (r: Option<i64>)
    ensures
        r matches Some(d) ==> spec_duration_to_next(*vm) == Some(d as int),
        r is None ==> spec_duration_to_next(*vm) is None,
        r matches Some(d) ==> ALERT_IGNORE_SECONDS < d < ALERT_SCOPE_SECONDS,
{
    let now = match vm.time_vm.time {
        None => return None,
        Some(t) => t,
    };
    let ghost s = vm.calendar_events@;
    let ghost n = now.unix_seconds as int;
    let mut half_a_day: i64 = HALF_DAY_SECONDS;
    let mut found = false;
    let mut i: usize = 0;
    while i < vm.calendar_events.len()
        invariant
            0 <= i <= s.len(),
            s == vm.calendar_events@,
            n == now.unix_seconds,
            alert_search(s.take(i as int), n) == (half_a_day as int, found),
            found ==> ALERT_IGNORE_SECONDS < half_a_day < ALERT_SCOPE_SECONDS,
            !found ==> half_a_day == HALF_DAY_SECONDS,
        decreases s.len() - i,
    {
        let event = &vm.calendar_events[i];
        assert(s.take(i as int + 1).drop_last() =~= s.take(i as int));
        let to_end: i128 = event.end.unix_seconds as i128 - now.unix_seconds as i128;
        if to_end <= half_a_day as i128 {
            let till_start: i128 = event.start.unix_seconds as i128 - now.unix_seconds as i128;
            if till_start > ALERT_IGNORE_SECONDS as i128 && till_start < ALERT_SCOPE_SECONDS as i128
                && (half_a_day as i128) > till_start && event.start.unix_seconds > now.unix_seconds {
                half_a_day = till_start as i64;
                found = true;
            }
        }
        i = i + 1;
    }
    assert(s.take(s.len() as int) =~= s);
    if found {
        Some(half_a_day)
    } else {
        None
    }
}

/// What the clock layer shows below the time in normal mode, or the event details.
#[derive(Clone, Copy, Debug, PartialEq, Eq, Structural)]
pub enum ClockContent {
    /// The alarm sign of a fired reminder.
    Alarm,
    /// Seconds to the start of the next event.
    NextEventAlert(i64),
    /// The temperature, if one is known.
    Temperature(Option<i32>),
    /// Titles and descriptions of the current events.
    EventDetails,
}

/// Decides what the clock layer shows in this frame; showing the alarm sign uses up one of
/// its frames. In normal mode the battery, connection and time are drawn as well.
pub fn plan_clock_content(vm: &mut ViewModel) -> (r: ClockContent)
    ensures
        old(vm).mode == VisualMode::Details ==> r == ClockContent::EventDetails && final(
            vm).alarm_counter == old(vm).alarm_counter,
        old(vm).mode == VisualMode::Normal && old(vm).alarm_counter > 0 ==> r == ClockContent::Alarm
            && final(vm).alarm_counter == old(vm).alarm_counter - 1,
        old(vm).mode == VisualMode::Normal && old(vm).alarm_counter <= 0 ==> final(vm).alarm_counter
            == old(vm).alarm_counter && r == (match spec_duration_to_next(*old(vm)) {
            Some(d) => ClockContent::NextEventAlert(d as i64),
            None => ClockContent::Temperature(old(vm).temperature),
        }),
        final(vm).calendar_events == old(vm).calendar_events,
        final(vm).timely_data == old(vm).timely_data,
        final(vm).time_vm == old(vm).time_vm,
        final(vm).mode == old(vm).mode,
        final(vm).force_render_events == old(vm).force_render_events,
        final(vm).is_past_first_frame == old(vm).is_past_first_frame,
        final(vm).temperature == old(vm).temperature,
{
    match vm.mode {
        VisualMode::Details => ClockContent::EventDetails,
        VisualMode::Normal => {
            if vm.alarm_counter > 0 {
                vm.alarm_counter = vm.alarm_counter - 1;
                ClockContent::Alarm
            } else {
                match try_get_duration_to_next(vm) {
                    Some(d) => ClockContent::NextEventAlert(d),
                    None => ClockContent::Temperature(vm.temperature),
                }
            }
        },
    }
}

/// Whole minutes in a number of seconds, rounded toward zero.
pub fn whole_minutes(seconds: i64) -> (r: i64)
    ensures
        r == (if seconds >= 0 { seconds / 60 } else { -((-seconds) / 60) }),
{
    seconds / 60
}

/// Whether the announcement of the next event is drawn in red.
pub fn alert_is_urgent(seconds_to_next: i64) -> (r: bool)
    ensures
        r == (seconds_to_next < ALERT_URGENT_SECONDS),
{
    seconds_to_next < ALERT_URGENT_SECONDS
}

/// The battery sign of the clock face.
#[derive(Clone, Copy, Debug, PartialEq, Eq, Structural)]
pub enum BatteryIcon {
    Charging,
    Level100,
    Level90,
    Level80,
    Level70,
    Level60,
    Level50,
    Level40,
    Level30,
    Level20,
    Level10,
}

/// The battery sign of a charge level in percent.
pub open spec fn spec_battery_level_icon(level: u16) -> BatteryIcon {
    if 96 <= level <= 100 {
        BatteryIcon::Level100
    } else if 91 <= level <= 95 {
        BatteryIcon::Level90
    } else if 81 <= level <= 90 {
        BatteryIcon::Level80
    } else if 71 <= level <= 80 {
        BatteryIcon::Level70
    } else if 61 <= level <= 70 {
        BatteryIcon::Level60
    } else if 51 <= level <= 60 {
        BatteryIcon::Level50
    } else if 41 <= level <= 50 {
        BatteryIcon::Level40
    } else if 31 <= level <= 40 {
        BatteryIcon::Level30
    } else if 21 <= level <= 30 {
        BatteryIcon::Level20
    } else {
        BatteryIcon::Level10
    }
}

/// The battery sign of a charge level in percent; levels above 100 and at most 20 show the
/// lowest sign.
pub fn battery_level_icon(battery_level: u16) -> (r: BatteryIcon)
    ensures
        r == spec_battery_level_icon(battery_level),
{
    match battery_level {
        96..=100 => BatteryIcon::Level100,
        91..=95 => BatteryIcon::Level90,
        81..=90 => BatteryIcon::Level80,
        71..=80 => BatteryIcon::Level70,
        61..=70 => BatteryIcon::Level60,
        51..=60 => BatteryIcon::Level50,
        41..=50 => BatteryIcon::Level40,
        31..=40 => BatteryIcon::Level30,
        21..=30 => BatteryIcon::Level20,
        _ => BatteryIcon::Level10,
    }
}

/// The battery sign to draw, if any: the charging sign while charging, else the sign of the
/// known charge level.
pub fn battery_icon(vm: &ViewModel) -> (r: Option<BatteryIcon>)
    ensures
        r == (if vm.is_charging == Some(true) {
            Some(BatteryIcon::Charging)
        } else {
            match vm.battery_level {
                Some(level) => Some(spec_battery_level_icon(level)),
                None => None,
            }
        }),
{
    if let Some(is_charging) = vm.is_charging {
        if is_charging {
            return Some(BatteryIcon::Charging);
        }
    }
    match vm.battery_level {
        Some(level) => Some(battery_level_icon(level)),
        None => None,
    }
}

/// Whether the connection sign is drawn: only while a phone is known to be connected.
pub fn shows_ble_connected(vm: &ViewModel) -> (r: bool)
    ensures
        r == (vm.ble_connected == Some(true)),
{
    match vm.ble_connected {
        Some(connected) => connected,
        None => false,
    }
}

/// The glyph drawn for an event's icon.
#[derive(Clone, Copy, Debug, PartialEq, Eq, Structural)]
pub enum EventGlyph {
    Meeting,
    Birthday,
    Trip,
    Bus,
    Train,
    Car,
    Rain,
    CalendarAlert,
    Alarm,
    Calendar,
}

/// The glyph of an event icon; the default icon is drawn as a calendar.
pub fn event_glyph(icon: CalendarEventIcon) -> (r: EventGlyph)
    ensures
        r == (match icon {
            CalendarEventIcon::Meeting => EventGlyph::Meeting,
            CalendarEventIcon::Birthday => EventGlyph::Birthday,
            CalendarEventIcon::Trip => EventGlyph::Trip,
            CalendarEventIcon::Bus => EventGlyph::Bus,
            CalendarEventIcon::Train => EventGlyph::Train,
            CalendarEventIcon::Car => EventGlyph::Car,
            CalendarEventIcon::Rain => EventGlyph::Rain,
            CalendarEventIcon::CalendarAlert => EventGlyph::CalendarAlert,
            CalendarEventIcon::Alarm => EventGlyph::Alarm,
            CalendarEventIcon::Default => EventGlyph::Calendar,
        }),
{
    match icon {
        CalendarEventIcon::Meeting => EventGlyph::Meeting,
        CalendarEventIcon::Birthday => EventGlyph::Birthday,
        CalendarEventIcon::Trip => EventGlyph::Trip,
        CalendarEventIcon::Bus => EventGlyph::Bus,
        CalendarEventIcon::Train => EventGlyph::Train,
        CalendarEventIcon::Car => EventGlyph::Car,
        CalendarEventIcon::Rain => EventGlyph::Rain,
        CalendarEventIcon::CalendarAlert => EventGlyph::CalendarAlert,
        CalendarEventIcon::Alarm => EventGlyph::Alarm,
        _ => EventGlyph::Calendar,
    }
}

} // verus!
