use vstd::prelude::*;

use crate::commands::Commands;
use crate::datetime::{checked_datetime, offset_in_range, timestamp_in_range, DateTime};
use crate::events::Events;
use crate::packets::{
    msgpack_frame_decoding, msgpack_reference_time_decoding, packet_type_of, ReferenceDataPacket,
    ReferenceDataPacketType,
};
use crate::reference_data::ReferenceTimeOffset;

verus! {

/// The instant of a reference time shown in the phone's offset, if the `time` crate can
/// hold it.
pub open spec fn spec_reference_datetime(now: i64, offset_seconds: i32) -> Option<DateTime> {
    if timestamp_in_range(now as int) && offset_in_range(offset_seconds as int) && timestamp_in_range(
        now + offset_seconds,
    ) {
        Some(DateTime { unix_seconds: now, offset_seconds })
    } else {
        None
    }
}

/// The reference time carried by incoming bytes: a time packet whose payload reads as a
/// reference time the clock can hold.
pub open spec fn spec_incoming_reference_time(data: Seq<u8>) -> Option<DateTime> {
    match msgpack_frame_decoding(data) {
        Some(frame) => if packet_type_of(frame.1) == Some(ReferenceDataPacketType::Time) {
            match msgpack_reference_time_decoding(frame.3) {
                Some(t) => spec_reference_datetime(t.0, t.1),
                None => None,
            }
        } else {
            None
        },
        None => None,
    }
}

/// The module that turns the phone's reference time into the watch's time.
pub struct ReferenceTime {}

impl ReferenceTime {
    /// The instant of a reference time shown in the phone's offset (which keeps the instant
    /// of the timestamp), or `None` when the clock cannot hold it.
    pub fn to_datetime(reference: &ReferenceTimeOffset) -> (r: Option<DateTime>)
        ensures
            r == spec_reference_datetime(reference.now, reference.offset_seconds),
            r matches Some(d) ==> d.wf(),
    {
        checked_datetime(reference.now, reference.offset_seconds)
    }

    /// The reference time carried by incoming bytes, if they are a time packet the clock can
    /// hold.
    pub fn time_from_incoming(data: &[u8]) -> (r: Option<DateTime>)
        ensures
            r == spec_incoming_reference_time(data@),
            r matches Some(d) ==> d.wf(),
    {
        match ReferenceDataPacket::deserialize(data) {
            Some(packet) => match packet.reference_time() {
                Some(reference) => Self::to_datetime(&reference),
                None => None,
            },
            None => None,
        }
    }

    /// Handles an event from the bus: incoming bytes that carry a reference time are answered
    /// with a `ReferenceTime` event.
    pub fn event_handler(event: &Events) -> (r: Option<Events>)
        ensures
            r == (match *event {
                Events::IncomingData(data) => match spec_incoming_reference_time(data@) {
                    Some(d) => Some(Events::ReferenceTime(d)),
                    None => None,
                },
                _ => None,
            }),
    {
        match event {
            Events::IncomingData(data) => match Self::time_from_incoming(data.as_slice()) {
                Some(d) => Some(Events::ReferenceTime(d)),
                None => None,
            },
            _ => None,
        }
    }

    /// Handles a command from the bus: a request for the reference time is passed on as a
    /// request for reference data. The second value tells whether the module stops.
    pub fn command_handler(command: &Commands) -> (r: (Option<Commands>, bool))
        ensures
            r.0 is Some <==> *command is GetReferenceTime,
            r.0 matches Some(c) ==> c is RequestReferenceData,
            r.1 == (*command is StartDeepSleep),
    {
        match command {
            Commands::GetReferenceTime => (Some(Commands::RequestReferenceData), false),
            Commands::StartDeepSleep => (None, true),
            _ => (None, false),
        }
    }
}

} // verus!
