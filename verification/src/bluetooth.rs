use vstd::prelude::*;

use crate::commands::Commands;

verus! {

/// Name under which the watch advertises itself.
pub const ADVERTISING_NAME: &'static str = "ESP32-SmartWatchTest-123456";

/// UUID of the watch's GATT service.
pub const SERVICE_UUID: &'static str = "5e98f6d5-0837-4147-856f-61873c82da9b";

/// UUID of the read-only characteristic.
pub const STATIC_CHARACTERISTIC_UUID: &'static str = "d4e0e0d0-1a2b-11e9-ab14-d663bd873d93";

/// UUID of the characteristic that notifies once a second.
pub const NOTIFYING_CHARACTERISTIC_UUID: &'static str = "594429ca-5370-4416-a172-d576986defb3";

/// UUID of the writable characteristic.
pub const WRITABLE_CHARACTERISTIC_UUID: &'static str = "3c9a3f00-8ed3-4bdf-8a39-a01bebede295";

/// UUID of the service that the advertisement names.
pub const ADVERTISED_SERVICE_UUID: &'static str = "8b3c29a1-7817-44c5-b001-856a40aba114";

/// Number of once-a-second notifications sent after a connection is set up.
pub const NOTIFICATION_TICKS: u32 = 60u32;

/// Settings of the Bluetooth peripheral (none yet).
#[derive(Clone, Copy, Debug)]
pub struct BluetoothConfig {}

/// Where the Bluetooth peripheral stands.
#[derive(Clone, Copy, Debug, PartialEq, Eq, Structural)]
pub enum BluetoothState {
    Uninitialized,
    Idle,
    Connecting,
    Syncing,
    Completed,
}

#[derive(Clone, Debug)]
pub struct BluetoothConnectRequest {}

pub enum BluetoothConnectResponse {
    Accepted,
    Rejected,
}

#[derive(Clone, Debug)]
pub struct BluetoothConnectEvent {}

#[derive(Clone, Debug)]
pub struct BluetoothConnectEvent2 {}

/// The state that the Bluetooth peripheral keeps besides its command channel.
pub struct BluetoothControl {
    pub state: BluetoothState,
}

impl BluetoothControl {
    /// A peripheral that has not been set up yet.
    pub fn create(config: BluetoothConfig) -> (r: BluetoothControl)
        ensures
            r.state == BluetoothState::Uninitialized,
    {
        BluetoothControl { state: BluetoothState::Uninitialized }
    }

    /// Whether a command asks to set up the GATT server and start advertising.
    pub fn starts_setup(command: &Commands) -> (r: bool)
        ensures
            r == (*command is RequestBluetoothConnection),
    {
        match command {
            Commands::RequestBluetoothConnection => true,
            _ => false,
        }
    }
}

} // verus!
