use vstd::prelude::*;

use crate::calendar::CalendarEventDto;
use crate::reference_data::ReferenceTimeOffset;

verus! {

/// GPS coordinates; each is carried as the IEEE-754 bit pattern of the `f32` it was sent as.
#[derive(Clone, Copy, Debug, PartialEq, Eq, Structural)]
pub struct GpsCoordinates {
    pub lat_bits: u32,
    pub lon_bits: u32,
}

/// Everything the phone sends in one reference data message.
#[derive(Clone, Debug)]
pub struct ReferenceData {
    pub version: i32,
    pub reference_time: ReferenceTimeOffset,
    pub coordinates: GpsCoordinates,
    pub events: Vec<CalendarEventDto>,
}

/// Why the watch woke up.
#[derive(Clone, Copy, Debug, PartialEq, Eq, Structural)]
pub enum WakeupCause {
    Undef,
    All,
    Ext0,
    Ext1,
    Timer,
    Touch,
    Ulp,
}

/// A point touched on the screen, in pixels.
#[derive(Clone, Copy, Debug, PartialEq, Eq, Structural)]
pub struct TouchPosition {
    pub x: i32,
    pub y: i32,
}

} // verus!
