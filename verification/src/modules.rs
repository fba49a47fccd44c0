use vstd::prelude::*;

use crate::commands::Commands;
use crate::events::Events;

verus! {

/// The context of a bus handler that keeps no state.
pub struct ContextStub {}

/// What a module that owns a peripheral asks its loop to do.
#[derive(Clone, Copy, Debug, PartialEq, Eq, Structural)]
pub enum ModuleAction {
    /// Start polling the peripheral.
    StartReading,
    /// Leave the loop.
    Stop,
}

/// The module that owns the touch controller.
pub struct TouchModule {}

impl TouchModule {
    /// Handles a command: the module stops when deep sleep starts and ignores the rest.
    pub fn command_handler(command: &Commands) -> (r: Option<ModuleAction>)
        ensures
            r == (if *command is StartDeepSleep {
                Some(ModuleAction::Stop)
            } else {
                None::<ModuleAction>
            }),
    {
        if command.ends_handle_loop() {
            Some(ModuleAction::Stop)
        } else {
            None
        }
    }
}

/// GPIO that the touch controller pulls low on a touch.
pub const TOUCH_IRQ_PIN: i32 = 32i32;

/// Milliseconds between two looks at the interrupt line.
pub const TOUCH_IRQ_POLL_MS: u64 = 5u64;

/// The module that watches the touch interrupt line and announces `TouchOrMove`.
pub struct UserInput {}

impl UserInput {
    /// Handles a command: the module stops when deep sleep starts and ignores the rest.
    pub fn command_handler(command: &Commands) -> (r: Option<ModuleAction>)
        ensures
            r == (if *command is StartDeepSleep {
                Some(ModuleAction::Stop)
            } else {
                None::<ModuleAction>
            }),
    {
        if command.ends_handle_loop() {
            Some(ModuleAction::Stop)
        } else {
            None
        }
    }

    /// The event announced on a falling edge of the interrupt line.
    pub fn on_falling_edge() -> (r: Events)
        ensures
            r is TouchOrMove,
    {
        Events::TouchOrMove
    }
}

/// Milliseconds between two reads of the accelerometer's interrupt status.
pub const ACCEL_STATUS_POLL_MS: u64 = 1u64;

/// The module that owns the accelerometer.
pub struct AccelerometerModule {}

impl AccelerometerModule {
    /// Handles a command: the module stops when deep sleep starts and ignores the rest.
    pub fn command_handler(command: &Commands) -> (r: Option<ModuleAction>)
        ensures
            r == (if *command is StartDeepSleep {
                Some(ModuleAction::Stop)
            } else {
                None::<ModuleAction>
            }),
    {
        if command.ends_handle_loop() {
            Some(ModuleAction::Stop)
        } else {
            None
        }
    }

    /// Handles an event: a touch or a move starts reading the interrupt status.
    pub fn event_handler(event: &Events) -> (r: Option<ModuleAction>)
        ensures
            r == (if *event is TouchOrMove {
                Some(ModuleAction::StartReading)
            } else {
                None::<ModuleAction>
            }),
    {
        match event {
            Events::TouchOrMove => Some(ModuleAction::StartReading),
            _ => None,
        }
    }

    /// Whether the interrupt status read last asks for another read: it is read until it
    /// reads zero.
    pub fn keeps_polling(status: u8) -> (r: bool)
        ensures
            r == (status != 0),
    {
        status != 0
    }
}

} // verus!
