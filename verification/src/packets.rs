use vstd::prelude::*;

use crate::calendar::{CalendarEventDto, CalendarKind, TimelyDataMarker};
use crate::domain::GpsCoordinates;
use crate::reference_data::ReferenceTimeOffset;

verus! {

/// Version of the packet frame written by this library.
pub const PACKET_VERSION: i32 = 2i32;

/// What the payload of a reference data packet holds; exchanged as a number (`Time` is 1).
#[derive(Clone, Copy, Debug, PartialEq, Eq, Structural)]
pub enum ReferenceDataPacketType {
    Time,
    Location,
    CalendarEvent,
    CalendarEventsMeta,
    CalendarEventsSyncResponse,
    DropCalendarEvent,
    TimelyData,
}

pub open spec fn packet_type_code(t: ReferenceDataPacketType) -> u16 {
    match t {
        ReferenceDataPacketType::Time => 1,
        ReferenceDataPacketType::Location => 2,
        ReferenceDataPacketType::CalendarEvent => 3,
        ReferenceDataPacketType::CalendarEventsMeta => 4,
        ReferenceDataPacketType::CalendarEventsSyncResponse => 5,
        ReferenceDataPacketType::DropCalendarEvent => 6,
        ReferenceDataPacketType::TimelyData => 7,
    }
}

/// The packet type exchanged as `code`, if any.
pub open spec fn packet_type_of(code: u16) -> Option<ReferenceDataPacketType> {
    if code == 1 {
        Some(ReferenceDataPacketType::Time)
    } else if code == 2 {
        Some(ReferenceDataPacketType::Location)
    } else if code == 3 {
        Some(ReferenceDataPacketType::CalendarEvent)
    } else if code == 4 {
        Some(ReferenceDataPacketType::CalendarEventsMeta)
    } else if code == 5 {
        Some(ReferenceDataPacketType::CalendarEventsSyncResponse)
    } else if code == 6 {
        Some(ReferenceDataPacketType::DropCalendarEvent)
    } else if code == 7 {
        Some(ReferenceDataPacketType::TimelyData)
    } else {
        None
    }
}

impl ReferenceDataPacketType {
    /// The number the packet type is exchanged as.
    pub fn to_u16(&self) -> (r: u16)
        ensures
            r == packet_type_code(*self),
    {
        match self {
            ReferenceDataPacketType::Time => 1,
            ReferenceDataPacketType::Location => 2,
            ReferenceDataPacketType::CalendarEvent => 3,
            ReferenceDataPacketType::CalendarEventsMeta => 4,
            ReferenceDataPacketType::CalendarEventsSyncResponse => 5,
            ReferenceDataPacketType::DropCalendarEvent => 6,
            ReferenceDataPacketType::TimelyData => 7,
        }
    }

    /// The packet type exchanged as `code`, or `None` for a number no packet type has.
    pub fn from_u16(code: u16) -> (r: Option<ReferenceDataPacketType>)
        ensures
            r == packet_type_of(code),
    {
        match code {
            1 => Some(ReferenceDataPacketType::Time),
            2 => Some(ReferenceDataPacketType::Location),
            3 => Some(ReferenceDataPacketType::CalendarEvent),
            4 => Some(ReferenceDataPacketType::CalendarEventsMeta),
            5 => Some(ReferenceDataPacketType::CalendarEventsSyncResponse),
            6 => Some(ReferenceDataPacketType::DropCalendarEvent),
            7 => Some(ReferenceDataPacketType::TimelyData),
            _ => None,
        }
    }
}

/// Each packet type is read back from the number it is exchanged as, and only numbers 1 to 7
/// name a packet type.
pub proof fn lemma_packet_type_code_roundtrip(t: ReferenceDataPacketType, code: u16)
    ensures
        packet_type_of(packet_type_code(t)) == Some(t),
        packet_type_of(code) matches Some(u) ==> packet_type_code(u) == code,
        packet_type_of(code) is Some <==> 1 <= code <= 7,
{
}

/// The packet types of the phone protocol, in the order of their numbers, from 1.
pub open spec fn protocol_packet_types() -> Seq<ReferenceDataPacketType> {
    seq![
        ReferenceDataPacketType::Time,
        ReferenceDataPacketType::Location,
        ReferenceDataPacketType::CalendarEvent,
        ReferenceDataPacketType::CalendarEventsMeta,
        ReferenceDataPacketType::CalendarEventsSyncResponse,
        ReferenceDataPacketType::DropCalendarEvent,
        ReferenceDataPacketType::TimelyData,
    ]
}

/// Packet types are exchanged as the protocol numbers them: the type at place `i` of the
/// protocol's list goes out as `i + 1` and is read back from it, and no other number names a
/// type.
pub proof fn packet_types_follow_the_protocol(code: u16)
    ensures
        forall|i: int| 0 <= i < 7 ==> #[trigger] packet_type_code(protocol_packet_types()[i]) == i + 1,
        packet_type_of(code) == (if 1 <= code <= 7 {
            Some(protocol_packet_types()[code - 1])
        } else {
            None
        }),
{
}

/// The MessagePack bytes that `rmp_serde::to_vec` writes for a packet frame: an array of the
/// version, the type number, the payload size and the payload as binary data.
pub uninterp spec fn msgpack_frame(version: i32, packet_type: u16, payload_size: i32, payload: Seq<u8>) -> Seq<u8>;

/// What `rmp_serde::from_slice` reads from bytes as a packet frame (an array of an `i32`, a
/// `u16`, an `i32` and binary data), or `None` where it fails.
pub uninterp spec fn msgpack_frame_decoding(bytes: Seq<u8>) -> Option<(i32, u16, i32, Seq<u8>)>;

/// What `rmp_serde::from_slice` reads from bytes as a reference time packet (an array that
/// holds an array of an `i64` and an `i32`), or `None` where it fails.
pub uninterp spec fn msgpack_reference_time_decoding(bytes: Seq<u8>) -> Option<(i64, i32)>;

/// `rmp_serde::to_vec` on the frame `(version, packet_type, payload_size, payload)`, the
/// payload written as binary data (`serde_with::Bytes`). Writing to a vector cannot fail
/// for a payload whose length fits the 32-bit length field of MessagePack binary data, and
/// `rmp_serde::from_slice` reads the same frame back from what was written.
#[verifier::external_body]
fn encode_frame(version: i32, packet_type: u16, payload_size: i32, payload: &Vec<u8>) -> (r: Vec<u8>)
    requires
        payload@.len() <= u32::MAX,
    ensures
        r@ == msgpack_frame(version, packet_type, payload_size, payload@),
        msgpack_frame_decoding(r@) == Some((version, packet_type, payload_size, payload@)),
{
    let bytes = serde_with::ser::SerializeAsWrap::<Vec<u8>, serde_with::Bytes>::new(payload);
    rmp_serde::to_vec(&(version, packet_type, payload_size, bytes)).unwrap()
}

/// `rmp_serde::from_slice` of a frame `(i32, u16, i32, binary data)`; `None` where it fails.
#[verifier::external_body]
fn decode_frame(bytes: &[u8]) -> (r: Option<(i32, u16, i32, Vec<u8>)>)
    ensures
        r matches Some(t) ==> msgpack_frame_decoding(bytes@) == Some((t.0, t.1, t.2, t.3@)),
        r is None ==> msgpack_frame_decoding(bytes@) is None,
{
    match rmp_serde::from_slice::<(i32, u16, i32, serde_with::de::DeserializeAsWrap<Vec<u8>, serde_with::Bytes>)>(bytes) {
        Ok((version, packet_type, size, payload)) => Some((version, packet_type, size, payload.into_inner())),
        Err(_) => None,
    }
}

/// `rmp_serde::from_slice` of a reference time packet `((i64, i32),)`; `None` where it fails.
#[verifier::external_body]
fn decode_reference_time(bytes: &[u8]) -> (r: Option<(i64, i32)>)
    ensures
        r == msgpack_reference_time_decoding(bytes@),
{
    match rmp_serde::from_slice::<((i64, i32),)>(bytes) {
        Ok(((now, offset_seconds),)) => Some((now, offset_seconds)),
        Err(_) => None,
    }
}

/// The frame that MessagePack bytes hold: the version, the packet type, the payload size and
/// the payload; `None` when the bytes hold no frame or a number that names no packet type.
pub open spec fn spec_frame_of(bytes: Seq<u8>) -> Option<(i32, ReferenceDataPacketType, i32, Seq<u8>)> {
    match msgpack_frame_decoding(bytes) {
        Some(f) => match packet_type_of(f.1) {
            Some(t) => Some((f.0, t, f.2, f.3)),
            None => None,
        },
        None => None,
    }
}

/// Reading a frame back from the bytes that were written for it gives the same frame: the
/// bytes that `serialize` returns decode to its frame (its `ensures`), and every frame
/// decoded that way is read as the packet it came from.
pub proof fn lemma_frame_round_trip(
    version: i32,
    packet_type: ReferenceDataPacketType,
    payload_size: i32,
    payload: Seq<u8>,
    bytes: Seq<u8>,
)
    requires
        msgpack_frame_decoding(bytes) == Some((version, packet_type_code(packet_type), payload_size, payload)),
    ensures
        spec_frame_of(bytes) == Some((version, packet_type, payload_size, payload)),
{
    lemma_packet_type_code_roundtrip(packet_type, packet_type_code(packet_type));
}

/// The frame every message between phone and watch travels in.
#[derive(Debug)]
pub struct ReferenceDataPacket {
    pub version: i32,
    pub packet_type: ReferenceDataPacketType,
    pub packet_payload_size: i32,
    pub packet_payload: Vec<u8>,
}

impl ReferenceDataPacket {
    /// Wraps an already serialized payload into a frame of the current version.
    pub fn wrap(packet_type: ReferenceDataPacketType, payload: Vec<u8>) -> (r: ReferenceDataPacket)
        requires
            payload@.len() <= i32::MAX,
        ensures
            r.version == PACKET_VERSION,
            r.packet_type == packet_type,
            r.packet_payload_size == payload@.len(),
            r.packet_payload@ == payload@,
    {
        let size = payload.len() as i32;
        ReferenceDataPacket { version: PACKET_VERSION, packet_type, packet_payload_size: size, packet_payload: payload }
    }

    /// The MessagePack bytes of the frame.
    pub fn serialize(self) -> (r: Vec<u8>)
        requires
            self.packet_payload@.len() <= u32::MAX,
        ensures
            r@ == msgpack_frame(
                self.version,
                packet_type_code(self.packet_type),
                self.packet_payload_size,
                self.packet_payload@,
            ),
            msgpack_frame_decoding(r@) == Some(
                (self.version, packet_type_code(self.packet_type), self.packet_payload_size, self.packet_payload@),
            ),
    {
        encode_frame(self.version, self.packet_type.to_u16(), self.packet_payload_size, &self.packet_payload)
    }

    /// Reads a frame from MessagePack bytes; `None` when the bytes are no frame or name no
    /// packet type.
    pub fn deserialize(bytes: &[u8]) -> (r: Option<ReferenceDataPacket>)
        ensures
            match spec_frame_of(bytes@) {
                Some(f) => r matches Some(p) && (p.version, p.packet_type, p.packet_payload_size, p.packet_payload@)
                    == f,
                None => r is None,
            },
    {
        match decode_frame(bytes) {
            Some((version, code, size, payload)) => match ReferenceDataPacketType::from_u16(code) {
                Some(packet_type) => Some(
                    ReferenceDataPacket { version, packet_type, packet_payload_size: size, packet_payload: payload },
                ),
                None => None,
            },
            None => None,
        }
    }

    /// The reference time a frame carries: `None` unless it is a time packet whose payload
    /// reads as one.
    pub fn reference_time(&self) -> (r: Option<ReferenceTimeOffset>)
        ensures
            r == (if self.packet_type == ReferenceDataPacketType::Time {
                match msgpack_reference_time_decoding(self.packet_payload@) {
                    Some(t) => Some(ReferenceTimeOffset { now: t.0, offset_seconds: t.1 }),
                    None => None,
                }
            } else {
                None
            }),
    {
        match self.packet_type {
            ReferenceDataPacketType::Time => match decode_reference_time(self.packet_payload.as_slice()) {
                Some((now, offset_seconds)) => Some(ReferenceTimeOffset { now, offset_seconds }),
                None => None,
            },
            _ => None,
        }
    }
}

/// The payload of a time packet.
#[derive(Clone, Copy, Debug, PartialEq, Eq, Structural)]
pub struct ReferenceTimePacket {
    pub time: ReferenceTimeOffset,
}

/// The payload of a location packet.
#[derive(Clone, Copy, Debug, PartialEq, Eq, Structural)]
pub struct ReferenceLocationPacket {
    pub coordinates: GpsCoordinates,
}

/// The payload of a calendar event packet.
#[derive(Clone, Debug)]
pub struct ReferenceCalendarEventPacket {
    pub calendar_event: CalendarEventDto,
}

/// The payload of a timely data packet; the value is the bit pattern of the `f32` sent.
#[derive(Clone, Copy, Debug, PartialEq, Eq, Structural)]
pub struct ReferenceTimelyDataPacket {
    pub linked_event_id: i32,
    pub start_at_hour: u8,
    pub duration_hours: u8,
    pub value_bits: u32,
    pub data_marker: TimelyDataMarker,
}

/// How many packets of each kind a calendar sync brings.
#[derive(Clone, Copy, Debug, PartialEq, Eq, Structural)]
pub struct CalendarEventsMetaPacket {
    pub update_events_count: u16,
    pub drop_events_count: u16,
    pub timely_data_count: u16,
}

/// The watch's acknowledgement of one synced event.
#[derive(Clone, Copy, Debug, PartialEq, Eq, Structural)]
pub struct CalendarEventSyncResponsePacket {
    pub kind: CalendarKind,
    pub event_id: i32,
}

/// The phone's request to drop one event.
#[derive(Clone, Copy, Debug, PartialEq, Eq, Structural)]
pub struct DropCalendarEventPacket {
    pub kind: CalendarKind,
    pub event_id: i32,
}

} // verus!
