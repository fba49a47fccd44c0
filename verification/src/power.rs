use vstd::prelude::*;

use crate::commands::Commands;
use crate::domain::WakeupCause;
use crate::events::Events;

verus! {

/// How much of the watch is powered.
#[derive(Clone, Copy, Debug, PartialEq, Eq, Structural)]
pub enum PowerMode {
    On,
    ScreenOff,
    LightSleep,
    DeepSleep,
}

/// Idle seconds before the screen goes off.
pub const TILL_SCREEN_OFF_SEC: u64 = 4u64;

/// Seconds in light sleep before the watch goes to deep sleep.
pub const TILL_DEEP_SLEEP_SEC: u64 = 30u64;

/// Seconds with the screen off before light sleep.
pub const TILL_LIGHT_SLEEP_SEC: u64 = 5u64;

/// Wake-up source numbers of the ESP-IDF sleep API (`esp_sleep_source_t`).
pub const ESP_SLEEP_WAKEUP_UNDEFINED: u32 = 0u32;

pub const ESP_SLEEP_WAKEUP_EXT0: u32 = 2u32;

pub const ESP_SLEEP_WAKEUP_EXT1: u32 = 3u32;

pub const ESP_SLEEP_WAKEUP_TIMER: u32 = 4u32;

/// The wake-up cause of an ESP-IDF wake-up source number; sources other than the external
/// pins, the timer and none are reported as the ULP co-processor.
pub fn wakeup_cause_of(code: u32) -> (r: WakeupCause)
    ensures
        r == (if code == ESP_SLEEP_WAKEUP_EXT0 {
            WakeupCause::Ext0
        } else if code == ESP_SLEEP_WAKEUP_EXT1 {
            WakeupCause::Ext1
        } else if code == ESP_SLEEP_WAKEUP_UNDEFINED {
            WakeupCause::Undef
        } else if code == ESP_SLEEP_WAKEUP_TIMER {
            WakeupCause::Timer
        } else {
            WakeupCause::Ulp
        }),
{
    if code == ESP_SLEEP_WAKEUP_EXT0 {
        WakeupCause::Ext0
    } else if code == ESP_SLEEP_WAKEUP_EXT1 {
        WakeupCause::Ext1
    } else if code == ESP_SLEEP_WAKEUP_UNDEFINED {
        WakeupCause::Undef
    } else if code == ESP_SLEEP_WAKEUP_TIMER {
        WakeupCause::Timer
    } else {
        WakeupCause::Ulp
    }
}

/// Microseconds of light sleep after which the timer wakes the watch.
pub fn light_sleep_timer_us() -> (r: u64)
    ensures
        r == TILL_DEEP_SLEEP_SEC * 1000000,
{
    TILL_DEEP_SLEEP_SEC * 1000000
}

/// What the power module asks its surroundings to do.
#[derive(Clone, Debug)]
pub enum PowerAction {
    BacklightOff,
    BacklightOn,
    /// Restart the idle countdown.
    ResetIdle,
    Command(Commands),
    Event(Events),
    Stop,
}

/// The module that turns the screen off when idle and puts the watch to sleep.
pub struct PowerModule {}

impl PowerModule {
    /// Handles a command from the bus: pausing rendering turns the backlight off, resuming
    /// turns it on and restarts the idle countdown, deep sleep stops the module.
    pub fn command_handler(command: &Commands) -> (r: Vec<PowerAction>)
        ensures
            *command is PauseRendering ==> r@.len() == 1 && r@[0] is BacklightOff,
            *command is ResumeRendering ==> r@.len() == 2 && r@[0] is BacklightOn && r@[1] is ResetIdle,
            *command is StartDeepSleep ==> r@.len() == 1 && r@[0] is Stop,
            !(*command is PauseRendering || *command is ResumeRendering || *command is StartDeepSleep)
                ==> r@.len() == 0,
    {
        let mut actions: Vec<PowerAction> = Vec::new();
        match command {
            Commands::PauseRendering => {
                actions.push(PowerAction::BacklightOff);
            },
            Commands::ResumeRendering => {
                actions.push(PowerAction::BacklightOn);
                actions.push(PowerAction::ResetIdle);
            },
            Commands::StartDeepSleep => {
                actions.push(PowerAction::Stop);
            },
            _ => {},
        }
        actions
    }

    /// Handles an event from the bus: a wake-up or a touch resumes rendering.
    pub fn event_handler(event: &Events) -> (r: Vec<PowerAction>)
        ensures
            (*event is Wakeup || *event is TouchOrMove) ==> r@.len() == 1 && (r@[0] matches PowerAction::Command(
                c,
            ) && c is ResumeRendering),
            !(*event is Wakeup || *event is TouchOrMove) ==> r@.len() == 0,
    {
        let mut actions: Vec<PowerAction> = Vec::new();
        match event {
            Events::Wakeup(_) | Events::TouchOrMove => {
                actions.push(PowerAction::Command(Commands::ResumeRendering));
            },
            _ => {},
        }
        actions
    }

    /// What follows a light sleep of the idle sequence: woken by the timer, the watch goes to
    /// deep sleep and the sequence ends; woken otherwise, the wake-up is announced and the
    /// sequence goes on.
    pub fn after_light_sleep(cause: WakeupCause) -> (r: (PowerAction, bool))
        ensures
            cause == WakeupCause::Timer ==> (r.0 matches PowerAction::Command(c) && c is StartDeepSleep) && r.1,
            cause != WakeupCause::Timer ==> (r.0 matches PowerAction::Event(Events::Wakeup(w)) && w == cause)
                && !r.1,
    {
        if cause == WakeupCause::Timer {
            (PowerAction::Command(Commands::StartDeepSleep), true)
        } else {
            (PowerAction::Event(Events::Wakeup(cause)), false)
        }
    }
}

} // verus!
