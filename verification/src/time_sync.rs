use vstd::prelude::*;

use crate::commands::Commands;
use crate::datetime::{offset_in_range, timestamp_in_range, DateTime, SECONDS_PER_DAY};
use crate::events::Events;

verus! {

/// Where the synchronisation of the real-time clock with the phone stands.
#[derive(Clone, Copy, Debug, PartialEq, Eq, Structural)]
pub enum RtcSyncState {
    Init,
    InSync,
    AwaitingTimeNow,
    AwaitingReferenceTime,
    Aborted,
}

/// What is stored about the last synchronisation of the real-time clock.
#[derive(Clone, Copy, Debug, PartialEq, Eq, Structural)]
pub struct RtcSyncInfo {
    pub last_sync: i64,
    pub offset: i32,
    pub in_sync: bool,
}

/// Storage namespace of the synchronisation record.
pub const NVS_NAMESPACE: &'static str = "rtc_sync";

/// Storage key of the synchronisation record.
pub const NVS_FIELD: &'static str = "rtc_sync_info";

/// A synchronisation is good for this many days.
pub const SYNC_INTERVAL_DAYS: i8 = 1i8;

/// What the time synchronisation module asks its surroundings to do.
#[derive(Clone, Debug)]
pub enum TimeSyncAction {
    Command(Commands),
    /// Store the record under `NVS_FIELD`.
    StoreSyncInfo(RtcSyncInfo),
    /// Pause (or resume) the once-a-second clock tick.
    PauseTicks(bool),
    Stop,
}

/// One input of the time synchronisation loop: a command or an event from the bus.
#[derive(Clone, Debug)]
pub enum TimeSyncInput {
    Command(Commands),
    Event(Events),
}

/// What the time synchronisation module does on one input: its next state and the actions it
/// asks for, in order.
pub open spec fn time_sync_step(state: RtcSyncState, input: TimeSyncInput) -> (
    RtcSyncState,
    Seq<TimeSyncAction>,
) {
    match input {
        TimeSyncInput::Command(Commands::SyncRtc) => (RtcSyncState::AwaitingTimeNow, seq![]),
        TimeSyncInput::Command(Commands::StartDeepSleep) => (
            state,
            seq![TimeSyncAction::PauseTicks(true), TimeSyncAction::Stop],
        ),
        TimeSyncInput::Command(Commands::PauseRendering) => (
            state,
            seq![TimeSyncAction::PauseTicks(true)],
        ),
        TimeSyncInput::Command(Commands::ResumeRendering) => (
            state,
            seq![TimeSyncAction::PauseTicks(false)],
        ),
        TimeSyncInput::Event(Events::TimeNow(_)) => if state == RtcSyncState::AwaitingTimeNow {
            (
                RtcSyncState::AwaitingReferenceTime,
                seq![TimeSyncAction::Command(Commands::GetReferenceTime)],
            )
        } else {
            (state, seq![])
        },
        TimeSyncInput::Event(Events::ReferenceTime(now)) => (
            RtcSyncState::InSync,
            seq![
                TimeSyncAction::Command(Commands::SetTime(now)),
                TimeSyncAction::StoreSyncInfo(
                    RtcSyncInfo {
                        in_sync: true,
                        last_sync: now.unix_seconds,
                        offset: now.offset_seconds,
                    },
                ),
            ],
        ),
        _ => (state, seq![]),
    }
}

/// The state reached and the actions asked for, in order, when the module starts in `state` and
/// handles `inputs` one after the other.
pub open spec fn time_sync_run(state: RtcSyncState, inputs: Seq<TimeSyncInput>) -> (
    RtcSyncState,
    Seq<TimeSyncAction>,
)
    decreases inputs.len(),
{
    if inputs.len() == 0 {
        (state, seq![])
    } else {
        let before = time_sync_run(state, inputs.drop_last());
        let step = time_sync_step(before.0, inputs.last());
        (step.0, before.1 + step.1)
    }
}

/// How many requests for the reference time stand among `actions`.
pub open spec fn reference_requests(actions: Seq<TimeSyncAction>) -> nat
    decreases actions.len(),
{
    if actions.len() == 0 {
        0
    } else {
        reference_requests(actions.drop_last()) + (if actions.last() matches TimeSyncAction::Command(
            Commands::GetReferenceTime,
        ) {
            1nat
        } else {
            0nat
        })
    }
}

/// How many commands to synchronise the clock stand among `inputs`.
pub open spec fn sync_commands(inputs: Seq<TimeSyncInput>) -> nat
    decreases inputs.len(),
{
    if inputs.len() == 0 {
        0
    } else {
        sync_commands(inputs.drop_last()) + (if inputs.last() matches TimeSyncInput::Command(
            Commands::SyncRtc,
        ) {
            1nat
        } else {
            0nat
        })
    }
}

/// Whether the clock ticks are paused after `actions`, starting from `paused`: the last pause
/// or resume among them decides.
pub open spec fn ticks_paused_after(paused: bool, actions: Seq<TimeSyncAction>) -> bool
    decreases actions.len(),
{
    if actions.len() == 0 {
        paused
    } else {
        match actions.last() {
            TimeSyncAction::PauseTicks(p) => p,
            _ => ticks_paused_after(paused, actions.drop_last()),
        }
    }
}

/// Whether the last of the commands that pause, resume or end rendering among `inputs` asks for
/// a pause (`paused` where there is none).
pub open spec fn pause_commanded(paused: bool, inputs: Seq<TimeSyncInput>) -> bool
    decreases inputs.len(),
{
    if inputs.len() == 0 {
        paused
    } else {
        match inputs.last() {
            TimeSyncInput::Command(Commands::PauseRendering) => true,
            TimeSyncInput::Command(Commands::StartDeepSleep) => true,
            TimeSyncInput::Command(Commands::ResumeRendering) => false,
            _ => pause_commanded(paused, inputs.drop_last()),
        }
    }
}

proof fn reference_requests_concat(a: Seq<TimeSyncAction>, b: Seq<TimeSyncAction>)
    ensures
        reference_requests(a + b) == reference_requests(a) + reference_requests(b),
    decreases b.len(),
{
    if b.len() == 0 {
        assert(a + b =~= a);
    } else {
        assert((a + b).drop_last() =~= a + b.drop_last());
        assert((a + b).last() == b.last());
        reference_requests_concat(a, b.drop_last());
    }
}

proof fn ticks_paused_after_concat(paused: bool, a: Seq<TimeSyncAction>, b: Seq<TimeSyncAction>)
    ensures
        ticks_paused_after(paused, a + b) == ticks_paused_after(ticks_paused_after(paused, a), b),
    decreases b.len(),
{
    if b.len() == 0 {
        assert(a + b =~= a);
    } else {
        assert((a + b).drop_last() =~= a + b.drop_last());
        assert((a + b).last() == b.last());
        ticks_paused_after_concat(paused, a, b.drop_last());
    }
}

/// The reference time is asked for only after a command to synchronise the clock: over any run,
/// the requests for it, together with one still owed while the time of the clock is awaited,
/// never outnumber the synchronisation commands (counting one owed at the start).
pub proof fn reference_requests_follow_sync_commands(state: RtcSyncState, inputs: Seq<TimeSyncInput>)
    ensures
        reference_requests(time_sync_run(state, inputs).1) + (if time_sync_run(state, inputs).0
            == RtcSyncState::AwaitingTimeNow {
            1nat
        } else {
            0nat
        }) <= sync_commands(inputs) + (if state == RtcSyncState::AwaitingTimeNow {
            1nat
        } else {
            0nat
        }),
    decreases inputs.len(),
{
    if inputs.len() > 0 {
        let before = time_sync_run(state, inputs.drop_last());
        let step = time_sync_step(before.0, inputs.last());
        reference_requests_follow_sync_commands(state, inputs.drop_last());
        reference_requests_concat(before.1, step.1);
        reveal_with_fuel(reference_requests, 3);
    }
}

/// After a command to synchronise the clock, inputs that are neither the clock's time nor the
/// reference time leave the module waiting for the clock's time.
proof fn sync_command_awaits_time(state: RtcSyncState, between: Seq<TimeSyncInput>)
    requires
        forall|i: int|
            0 <= i < between.len() ==> !(#[trigger] between[i] matches TimeSyncInput::Event(
                Events::TimeNow(_),
            )) && !(between[i] matches TimeSyncInput::Event(Events::ReferenceTime(_))),
    ensures
        time_sync_run(state, seq![TimeSyncInput::Command(Commands::SyncRtc)] + between).0
            == RtcSyncState::AwaitingTimeNow,
    decreases between.len(),
{
    let inputs = seq![TimeSyncInput::Command(Commands::SyncRtc)] + between;
    if between.len() == 0 {
        assert(inputs.drop_last() =~= Seq::<TimeSyncInput>::empty());
    } else {
        assert(inputs.drop_last() =~= seq![TimeSyncInput::Command(Commands::SyncRtc)]
            + between.drop_last());
        assert(inputs.last() == between[between.len() - 1]);
        sync_command_awaits_time(state, between.drop_last());
    }
}

/// A command to synchronise the clock, followed by the clock's time with neither the clock's
/// time nor the reference time in between, yields exactly one request for the reference time:
/// nothing stored or past suppresses it.
pub proof fn sync_command_then_time_asks_reference(
    state: RtcSyncState,
    between: Seq<TimeSyncInput>,
    now: DateTime,
)
    requires
        forall|i: int|
            0 <= i < between.len() ==> !(#[trigger] between[i] matches TimeSyncInput::Event(
                Events::TimeNow(_),
            )) && !(between[i] matches TimeSyncInput::Event(Events::ReferenceTime(_))),
    ensures
        ({
            let before = seq![TimeSyncInput::Command(Commands::SyncRtc)] + between;
            let after = before.push(TimeSyncInput::Event(Events::TimeNow(now)));
            &&& time_sync_run(state, after).0 == RtcSyncState::AwaitingReferenceTime
            &&& time_sync_run(state, after).1 == time_sync_run(state, before).1.push(
                TimeSyncAction::Command(Commands::GetReferenceTime),
            )
        }),
{
    let before = seq![TimeSyncInput::Command(Commands::SyncRtc)] + between;
    let after = before.push(TimeSyncInput::Event(Events::TimeNow(now)));
    sync_command_awaits_time(state, between);
    assert(after.drop_last() =~= before);
    assert(time_sync_run(state, before).1 + seq![TimeSyncAction::Command(Commands::GetReferenceTime)]
        =~= time_sync_run(state, before).1.push(TimeSyncAction::Command(Commands::GetReferenceTime)));
}

/// The clock ticks are paused exactly as the last command that pauses, resumes or ends
/// rendering asks, whatever else the module handles; a command to start deep sleep pauses them
/// and ends the loop.
pub proof fn ticks_follow_pause_commands(state: RtcSyncState, inputs: Seq<TimeSyncInput>, paused: bool)
    ensures
        ticks_paused_after(paused, time_sync_run(state, inputs).1) == pause_commanded(paused, inputs),
        inputs.len() > 0 && (inputs.last() matches TimeSyncInput::Command(Commands::StartDeepSleep))
            ==> time_sync_run(state, inputs).1.last() is Stop && ticks_paused_after(
            paused,
            time_sync_run(state, inputs).1,
        ),
    decreases inputs.len(),
{
    if inputs.len() > 0 {
        let before = time_sync_run(state, inputs.drop_last());
        let step = time_sync_step(before.0, inputs.last());
        ticks_follow_pause_commands(state, inputs.drop_last(), paused);
        ticks_paused_after_concat(paused, before.1, step.1);
        reveal_with_fuel(ticks_paused_after, 3);
    }
}

/// The module that keeps the real-time clock in sync with the phone.
pub struct TimeSync {}

impl TimeSync {
    /// Whether a stored synchronisation is still good at `now`: it was a successful one and
    /// at most a day has passed since the stored wall-clock reading, read in the stored
    /// offset.
    pub fn sync_info_is_fresh(info: &RtcSyncInfo, now: &DateTime) -> (r: bool)
        requires
            timestamp_in_range(info.last_sync as int),
            offset_in_range(info.offset as int),
            now.wf(),
        ensures
            r == (info.in_sync && now.unix_seconds - (info.last_sync - info.offset) <= SYNC_INTERVAL_DAYS
                * SECONDS_PER_DAY),
    {
        let last_sync_instant: i64 = info.last_sync - info.offset as i64;
        let diff: i64 = now.unix_seconds - last_sync_instant;
        info.in_sync && diff <= SYNC_INTERVAL_DAYS as i64 * SECONDS_PER_DAY
    }

    /// Handles a command from the bus.
    pub fn command_handler(state: &mut RtcSyncState, command: &Commands) -> (r: Vec<TimeSyncAction>)
        ensures
            *final(state) == time_sync_step(*old(state), TimeSyncInput::Command(*command)).0,
            r@ == time_sync_step(*old(state), TimeSyncInput::Command(*command)).1,
    {
        let mut actions: Vec<TimeSyncAction> = Vec::new();
        match command {
            Commands::SyncRtc => {
                *state = RtcSyncState::AwaitingTimeNow;
            },
            Commands::StartDeepSleep => {
                actions.push(TimeSyncAction::PauseTicks(true));
                actions.push(TimeSyncAction::Stop);
            },
            Commands::PauseRendering => {
                actions.push(TimeSyncAction::PauseTicks(true));
            },
            Commands::ResumeRendering => {
                actions.push(TimeSyncAction::PauseTicks(false));
            },
            _ => {},
        }
        actions
    }

    /// Handles an event from the bus: the clock's time, when it is awaited, is answered with a
    /// request for the reference time; the reference time is written to the clock and the
    /// synchronisation recorded.
    pub fn event_handler(state: &mut RtcSyncState, event: &Events) -> (r: Vec<TimeSyncAction>)
        ensures
            *final(state) == time_sync_step(*old(state), TimeSyncInput::Event(*event)).0,
            r@ == time_sync_step(*old(state), TimeSyncInput::Event(*event)).1,
    {
        let mut actions: Vec<TimeSyncAction> = Vec::new();
        match event {
            Events::TimeNow(_now) => {
                if *state == RtcSyncState::AwaitingTimeNow {
                    actions.push(TimeSyncAction::Command(Commands::GetReferenceTime));
                    *state = RtcSyncState::AwaitingReferenceTime;
                }
            },
            Events::ReferenceTime(now) => {
                actions.push(TimeSyncAction::Command(Commands::SetTime(*now)));
                let sync_info = RtcSyncInfo { in_sync: true, last_sync: now.unix_seconds, offset: now.offset_seconds };
                actions.push(TimeSyncAction::StoreSyncInfo(sync_info));
                *state = RtcSyncState::InSync;
            },
            _ => {},
        }
        actions
    }

    /// What a tick of the clock timer sends: a request for the time, unless ticks are paused.
    pub fn timer_tick(paused: bool) -> (r: Option<Commands>)
        ensures
            r is Some <==> !paused,
            r matches Some(c) ==> c is GetTimeNow,
    {
        if paused {
            None
        } else {
            Some(Commands::GetTimeNow)
        }
    }
}

} // verus!
