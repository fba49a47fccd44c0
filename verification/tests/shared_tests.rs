use blinky::accelerometer::decode_temperature;
use blinky::add;
use blinky::calendar::{
    CalendarEvent, CalendarEventIcon, CalendarKind, TimelyDataMarker, TimelyDataRecord,
};
use blinky::calendar_module::{CalendarAction, CalendarContext, CalendarModule};
use blinky::datetime::DateTime;
use blinky::events::Events;
use blinky::packets::{ReferenceDataPacket, ReferenceDataPacketType};
use blinky::persistence::{PersistenceUnit, PersistenceUnitKind};
use blinky::reference_data::ReferenceTimeOffset;
use blinky::reference_time::ReferenceTime;

fn now_unix() -> i64 {
    time::OffsetDateTime::now_utc().unix_timestamp()
}

#[test]
fn it_works() {
    let result = add(2, 2);
    assert_eq!(result, 4);
}

#[test]
fn should_decode_23_degrees() {
    let data: u8 = 0x00;

    let result = decode_temperature(data);

    assert_eq!(result, 23);
}

#[test]
fn should_decode_150_degrees() {
    let data: u8 = 0x7f;

    let result = decode_temperature(data);

    assert_eq!(result, 150);
}

#[test]
fn should_decode_minus_104_degrees() {
    let data: u8 = 0x81;

    let result = decode_temperature(data);

    assert_eq!(result, -104);
}

#[test]
fn should_deserialize_reference_time_packet() {
    let expected = ReferenceTimeOffset { now: now_unix(), offset_seconds: 60 * 60 * 2 };

    // A `ReferenceTimePacket { time }` is written as an array holding the array `[now, offset]`.
    let buf = rmp_serde::to_vec(&((expected.now, expected.offset_seconds),)).unwrap();

    let reference_data_packet = ReferenceDataPacket {
        packet_type: ReferenceDataPacketType::Time,
        version: 2,
        packet_payload_size: buf.len() as i32,
        packet_payload: buf,
    };

    let full_buf = reference_data_packet.serialize();

    let reference_data = ReferenceDataPacket::deserialize(&full_buf).unwrap();

    let reference_time = reference_data.reference_time().unwrap();

    assert_eq!(expected, reference_time);
}

#[allow(non_snake_case)]
#[test]
fn should_serialize_CalendarEventSyncResponsePacket() {
    let kind = CalendarKind::Phone;
    let event_id: i32 = 1;

    let buf_inner = rmp_serde::to_vec(&(kind.to_u8(), event_id)).unwrap();
    let buf_inner_str = format!("{:02X?}", buf_inner);

    let reference_packet =
        ReferenceDataPacket::wrap(ReferenceDataPacketType::CalendarEventsSyncResponse, buf_inner);

    let buf = reference_packet.serialize();
    let buf_str = format!("{:02X?}", buf);

    assert_eq!(buf_inner_str, "[92, 01, 01]");

    assert_eq!(buf_str, "[94, 02, 05, 03, C4, 03, 92, 01, 01]")
}

#[test]
fn contract_serialization_tests_should_() {
    let buf = [
        0x94, 0x02, 0x03, 0x16, 0xC4, 0x16, 0x91, 0x97, 0x01, 0x01, 0xA3, 0x51, 0x51, 0x51, 0x91,
        0xCE, 0x66, 0x33, 0x1F, 0xFF, 0x91, 0xCE, 0x66, 0x33, 0x1F, 0xFF, 0x02, 0x0B,
    ];

    let reference_data = ReferenceDataPacket::deserialize(&buf).unwrap();

    assert_eq!(reference_data.packet_type, ReferenceDataPacketType::CalendarEvent);
}

#[test]
fn calendar_module_tests_should_() {
    // 2000-01-01 03:00:00 UTC
    let now = DateTime { unix_seconds: 946_695_600, offset_seconds: 0 };

    let mut context = CalendarContext::new();

    let actions = CalendarModule::event_handler(&mut context, Events::TimeNow(now));
    assert!(actions.is_empty());

    let timely_record = TimelyDataRecord {
        duration_seconds: 60,
        linked_event_id: 1,
        start_at_hour: 2,
        data_marker: TimelyDataMarker::Temperature,
        value_bits: 0.0f32.to_bits(),
    };
    let actions =
        CalendarModule::event_handler(&mut context, Events::ReferenceTimelyDataBatch(vec![timely_record]));
    assert!(actions.is_empty());

    let weather = CalendarEvent {
        kind: CalendarKind::Weather,
        id: 1,
        title: "Temperature".to_string(),
        start: now,
        end: DateTime { unix_seconds: now.unix_seconds + 86_400, offset_seconds: 0 },
        icon: CalendarEventIcon::Default,
        color: 0,
        description: "".to_string(),
        lane: 0,
    };
    let actions = CalendarModule::event_handler(
        &mut context,
        Events::ReferenceCalendarEventUpdatesBatch(vec![weather]),
    );
    assert_eq!(actions.len(), 1);

    let actions = CalendarModule::event_handler(&mut context, Events::InSync(true));

    // The first thing announced is the temperature, which the bus carries as `Temperature(0)`.
    match &actions[0] {
        CalendarAction::SendTemperature { value_bits } => {
            assert_eq!(f32::from_bits(*value_bits).round() as i32, 0);
        }
        other => panic!("unexpected action {:?}", other),
    }
}

#[allow(non_snake_case)]
#[test]
fn should_emit_ReferenceTime_event_to_the_message_bus() {
    let time = ReferenceTimeOffset { now: now_unix(), offset_seconds: 60 * 60 * 2 };

    let payload = rmp_serde::to_vec(&((time.now, time.offset_seconds),)).unwrap();
    let packet = ReferenceDataPacket::wrap(ReferenceDataPacketType::Time, payload);
    let buf = packet.serialize();

    let result = ReferenceTime::event_handler(&Events::IncomingData(buf));

    let Some(Events::ReferenceTime(result_ref_time)) = result else {
        panic!("failed to get first item");
    };

    assert_eq!(result_ref_time.unix_seconds, time.now);
    assert_eq!(result_ref_time.offset_seconds, time.offset_seconds);
}

#[test]
fn should_serialize_and_deserialize_persistence_unit() {
    let event = (1i32, "qqq".to_string(), now_unix(), now_unix(), 0u8, 0u32, 1u8, "".to_string(), 0u8);

    let bytes = rmp_serde::to_vec(&event).unwrap();

    let persistence_unit = PersistenceUnit::new(PersistenceUnitKind::CalendarSyncInfo, bytes);

    assert_eq!(persistence_unit.kind, PersistenceUnitKind::CalendarSyncInfo);

    let stored = persistence_unit.data.unwrap();
    let result: (i32, String, i64, i64, u8, u32, u8, String, u8) = rmp_serde::from_slice(&stored).unwrap();

    assert_eq!(result, event);
}
