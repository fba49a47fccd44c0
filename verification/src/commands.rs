use vstd::prelude::*;

use crate::datetime::DateTime;
use crate::persistence::{PersistenceUnit, PersistenceUnitKind};
use crate::reminders::Reminder;

verus! {

/// Requests sent over the message bus.
#[derive(Clone, Debug)]
pub enum Commands {
    RequestReferenceData,
    RequestBluetoothConnection,
    SyncRtc,
    SyncCalendar,
    GetTimeNow,
    GetReferenceTime,
    SetTime(DateTime),
    StartDeepSleep,
    PauseRendering,
    ResumeRendering,
    GetTemperature,
    Persist(PersistenceUnit),
    Restore(PersistenceUnitKind),
    SetTimezone(i32),
    AbortSleep,
    ShutdownBle,
    SetReminders(Vec<Reminder>),
    DebugAccel,
    HandleAlarm,
}

impl Commands {
    /// Whether a handle loop of the message bus ends after this command: the one that starts
    /// deep sleep.
    pub fn ends_handle_loop(&self) -> (r: bool)
        ensures
            r == (*self is StartDeepSleep),
    {
        match self {
            Commands::StartDeepSleep => true,
            _ => false,
        }
    }
}

/// The commands sent once all modules are running: synchronise the clock, then the calendar,
/// then ask for the temperature.
pub fn startup_commands() -> (r: Vec<Commands>)
    ensures
        r@.len() == 3,
        r@[0] is SyncRtc,
        r@[1] is SyncCalendar,
        r@[2] is GetTemperature,
{
    let mut commands: Vec<Commands> = Vec::new();
    commands.push(Commands::SyncRtc);
    commands.push(Commands::SyncCalendar);
    commands.push(Commands::GetTemperature);
    commands
}

} // verus!
