use vstd::prelude::*;

use crate::bluetooth::BluetoothConfig;

verus! {

/// GPIO numbers and settings of the board.
pub struct HalConfig {
    pub backlight: i32,
    pub touch_interrupt_pin: i32,
    pub touch_reset_pin: i32,
    pub ble_config: BluetoothConfig,
}

/// GPIO numbers that the power module drives.
pub struct PinConfig {
    pub backlight: i32,
}

/// GPIO numbers of the touch controller's lines.
#[derive(Clone, Copy, Debug, PartialEq, Eq, Structural)]
pub struct TouchpadConfig {
    pub reset_pin: i32,
    pub interrupt_pin: i32,
}

impl HalConfig {
    /// The touch controller's lines as the board configures them.
    pub fn touch_config(&self) -> (r: TouchpadConfig)
        ensures
            r.interrupt_pin == self.touch_interrupt_pin,
            r.reset_pin == self.touch_reset_pin,
    {
        TouchpadConfig { interrupt_pin: self.touch_interrupt_pin, reset_pin: self.touch_reset_pin }
    }
}

} // verus!
