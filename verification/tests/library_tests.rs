use std::cmp::Ordering;

use blinky::calendar::{
    CalendarEvent, CalendarEventDto, CalendarEventIcon, CalendarEventKey, CalendarEventOrderedByStartAsc,
    CalendarKind,
};
use blinky::calendar_module::{apply_restored, CalendarAction, CalendarContext, CalendarModule};
use blinky::commands::Commands;
use blinky::cst816s::{
    touch_event_from_registers, Action, BusOps, DelayUs, Error, I2cBus, PinOps, Reg, ResetPin, TouchGesture, Waits,
    CST816S, DEFAULT_I2C_ADDRESS,
};
use blinky::datetime::{checked_datetime, DateTime, MAX_UNIX_TIMESTAMP};
use blinky::event_set::{drop_keys, put_event};
use blinky::events::Events;
use blinky::gc9a01::{init_steps, InitStep, DISPON, SWRESET};
use blinky::layers::merge_layers;
use blinky::modules::{AccelerometerModule, ModuleAction, TouchModule, UserInput};
use blinky::packets::{ReferenceDataPacket, ReferenceDataPacketType};
use blinky::persister::{PersisterAction, PersisterModule};
use blinky::persistence::PersistenceUnit;
use std::collections::HashMap;
use blinky::persistence::PersistenceUnitKind;
use blinky::power::wakeup_cause_of;
use blinky::domain::WakeupCause;
use blinky::reference_data::ReferenceTimeUtc;
use blinky::reference_time::ReferenceTime;
use blinky::reminders::{sort_by_time, Reminder, ReminderKind};
use blinky::render_plan::{battery_level_icon, BatteryIcon};
use blinky::relative::RelativeSize;
use blinky::rtc::{RtcAction, RtcDateTime, RtcModule};
use blinky::calendar::{TimelyDataMarker, TimelyDataRecord};
use blinky::calendar_module::{restored_reminders_ready, CalendarStateDto};
use blinky::datetime::MIN_UNIX_TIMESTAMP;
use blinky::fasttrack::FastTrackRtcData;
use blinky::render_plan::{plan_closing_frame, plan_frame, FrameAction, RenderLoopState};
use blinky::renderer::ViewModel;
use blinky::time_sync::{RtcSyncState, TimeSync, TimeSyncAction};

fn utc(unix_seconds: i64) -> DateTime {
    DateTime { unix_seconds, offset_seconds: 0 }
}

fn event(kind: CalendarKind, id: i32, start: i64, end: i64) -> CalendarEvent {
    CalendarEvent {
        kind,
        id,
        title: format!("event {}", id),
        start: utc(start),
        end: utc(end),
        icon: CalendarEventIcon::Meeting,
        color: 7,
        description: "".to_string(),
        lane: 1,
    }
}

// 2024-02-29 13:45:30 UTC, a Thursday.
const LEAP_DAY: i64 = 1_709_214_330;

#[test]
fn packet_round_trip_gives_back_the_frame() {
    let payload = vec![1u8, 2, 3, 250];
    let packet = ReferenceDataPacket::wrap(ReferenceDataPacketType::TimelyData, payload.clone());
    assert_eq!(packet.version, 2);
    assert_eq!(packet.packet_payload_size, 4);
    let bytes = packet.serialize();
    let back = ReferenceDataPacket::deserialize(&bytes).unwrap();
    assert_eq!(back.version, 2);
    assert_eq!(back.packet_type, ReferenceDataPacketType::TimelyData);
    assert_eq!(back.packet_payload_size, 4);
    assert_eq!(back.packet_payload, payload);
}

#[test]
fn packet_with_unknown_type_is_refused() {
    // version 2, type 9, size 0, empty binary
    let bytes = [0x94, 0x02, 0x09, 0x00, 0xC4, 0x00];
    assert!(ReferenceDataPacket::deserialize(&bytes).is_none());
    assert!(ReferenceDataPacket::deserialize(&[0x01, 0x02]).is_none());
}

#[test]
fn packet_type_codes_round_trip() {
    for code in 0u16..10 {
        match ReferenceDataPacketType::from_u16(code) {
            Some(t) => assert_eq!(t.to_u16(), code),
            None => assert!(code == 0 || code > 7),
        }
    }
    assert_eq!(ReferenceDataPacketType::Time.to_u16(), 1);
}

#[test]
fn reference_time_is_shown_in_the_phones_offset() {
    let payload = rmp_serde::to_vec(&((LEAP_DAY, -3600i32),)).unwrap();
    let bytes = ReferenceDataPacket::wrap(ReferenceDataPacketType::Time, payload).serialize();
    let time = ReferenceTime::time_from_incoming(&bytes).unwrap();
    assert_eq!(time.unix_seconds, LEAP_DAY);
    assert_eq!(time.offset_seconds, -3600);
    assert_eq!(time.hour(), 12);
    assert_eq!(time.minute(), 45);
    // A packet of another type carries no reference time.
    let other = ReferenceDataPacket::wrap(ReferenceDataPacketType::Location, vec![0x90]).serialize();
    assert!(ReferenceTime::time_from_incoming(&other).is_none());
}

#[test]
fn checked_datetime_refuses_what_the_time_crate_cannot_hold() {
    assert!(checked_datetime(LEAP_DAY, 7200).is_some());
    assert!(checked_datetime(LEAP_DAY, 93_600).is_none());
    assert!(checked_datetime(MAX_UNIX_TIMESTAMP, 0).is_some());
    assert!(checked_datetime(MAX_UNIX_TIMESTAMP + 1, 0).is_none());
    assert!(checked_datetime(MAX_UNIX_TIMESTAMP, 1).is_none());
}

#[test]
fn dto_and_event_round_trip() {
    let dto = CalendarEventDto {
        kind: CalendarKind::Trains,
        id: 42,
        title: "train".to_string(),
        start: ReferenceTimeUtc { unix_epoch_seconds: LEAP_DAY },
        end: ReferenceTimeUtc { unix_epoch_seconds: LEAP_DAY + 600 },
        icon: CalendarEventIcon::Train,
        color: 3,
        description: "to work".to_string(),
        lane: 2,
    };
    let event = CalendarEvent::new(&dto, 3600);
    assert_eq!(event.start, DateTime { unix_seconds: LEAP_DAY, offset_seconds: 3600 });
    let back = CalendarEventDto::from_event(&event);
    assert_eq!(back, dto);
}

#[test]
fn persisted_calendar_is_restored() {
    let now = utc(LEAP_DAY);
    let mut context = CalendarContext::new();
    CalendarModule::event_handler(&mut context, Events::TimeNow(now));
    let events = vec![
        event(CalendarKind::Phone, 1, LEAP_DAY + 3600, LEAP_DAY + 7200),
        event(CalendarKind::Phone, 2, LEAP_DAY + 60, LEAP_DAY + 120),
        // already over: forgotten when the calendar is persisted
        event(CalendarKind::Phone, 3, LEAP_DAY - 7200, LEAP_DAY - 3600),
    ];
    CalendarModule::event_handler(&mut context, Events::ReferenceCalendarEventUpdatesBatch(events));
    let actions = CalendarModule::event_handler(&mut context, Events::InSync(true));
    assert_eq!(actions.len(), 3);
    let state = match actions.into_iter().nth(1).unwrap() {
        CalendarAction::PersistState(state) => state,
        other => panic!("unexpected action {:?}", other),
    };
    assert_eq!(state.version, 3);
    assert_eq!(state.events.len(), 2);

    let mut restored = CalendarContext::new();
    restored.now = Some(now);
    let actions = apply_restored(&mut restored, state, 0);
    // one batch, then the reminders
    assert_eq!(actions.len(), 2);
    assert_eq!(restored.update_events.len(), 2);
    assert_eq!(restored.update_events[0].id, 1);
    assert_eq!(restored.update_events[1].id, 2);
    assert_eq!(restored.update_events[1].start, utc(LEAP_DAY + 60));
    match &actions[1] {
        CalendarAction::Command(Commands::SetReminders(reminders)) => {
            assert_eq!(reminders.len(), 4);
            assert!(reminders.windows(2).all(|w| w[0].remind_at.unix_seconds <= w[1].remind_at.unix_seconds));
        }
        other => panic!("unexpected action {:?}", other),
    }
}

#[test]
fn known_event_is_not_replaced_by_its_update() {
    let mut context = CalendarContext::new();
    let first = event(CalendarKind::Phone, 5, LEAP_DAY, LEAP_DAY + 60);
    let mut update = event(CalendarKind::Phone, 5, LEAP_DAY + 100, LEAP_DAY + 160);
    update.title = "changed".to_string();
    CalendarModule::event_handler(&mut context, Events::ReferenceCalendarEvent(first));
    CalendarModule::event_handler(&mut context, Events::ReferenceCalendarEvent(update));
    assert_eq!(context.update_events.len(), 1);
    assert_eq!(context.update_events[0].title, "event 5");
}

#[test]
fn event_set_keeps_latest_first_and_replaces_same_slot() {
    let mut set: Vec<CalendarEvent> = Vec::new();
    put_event(&mut set, event(CalendarKind::Phone, 1, 100, 200));
    put_event(&mut set, event(CalendarKind::Phone, 2, 300, 400));
    put_event(&mut set, event(CalendarKind::Phone, 3, 100, 150));
    let mut same = event(CalendarKind::Phone, 1, 100, 999);
    same.title = "new".to_string();
    put_event(&mut set, same);
    let ids: Vec<i32> = set.iter().map(|e| e.id).collect();
    assert_eq!(ids, vec![2, 3, 1]);
    assert_eq!(set[2].title, "new");
    drop_keys(&mut set, &vec![CalendarEventKey(CalendarKind::Phone, 3)]);
    let ids: Vec<i32> = set.iter().map(|e| e.id).collect();
    assert_eq!(ids, vec![2, 1]);
}

#[test]
fn event_orders() {
    let a = event(CalendarKind::Phone, 1, 100, 200);
    let b = event(CalendarKind::Phone, 2, 100, 200);
    let c = event(CalendarKind::Phone, 1, 50, 200);
    assert_eq!(a.compare(&b), Ordering::Greater);
    assert_eq!(b.compare(&a), Ordering::Less);
    assert_eq!(a.compare(&c), Ordering::Less);
    assert_eq!(a.compare(&a), Ordering::Equal);
    let wa = CalendarEventOrderedByStartAsc(event(CalendarKind::Phone, 1, 100, 200));
    let wc = CalendarEventOrderedByStartAsc(event(CalendarKind::Phone, 1, 50, 200));
    assert_eq!(wa.compare(&wc), Ordering::Greater);
    assert_eq!(wa.partial_compare(&wc), Some(Ordering::Less));
}

#[test]
fn reminders_are_sorted_by_time() {
    let r = |at: i64, id: i32| Reminder { remind_at: utc(at), kind: ReminderKind::Event, event_id: id };
    let sorted = sort_by_time(vec![r(30, 1), r(10, 2), r(20, 3), r(10, 4)]);
    let times: Vec<i64> = sorted.iter().map(|x| x.remind_at.unix_seconds).collect();
    assert_eq!(times, vec![10, 10, 20, 30]);
    // reminders that fire at the same instant keep their order
    let ids: Vec<i32> = sorted.iter().map(|x| x.event_id).collect();
    assert_eq!(ids, vec![2, 4, 3, 1]);
    assert_eq!(r(10, 1).compare(&r(20, 1)), Ordering::Less);
}

#[test]
fn rtc_registers_of_a_leap_day() {
    let regs = RtcDateTime::from_datetime(&utc(LEAP_DAY));
    assert_eq!(
        regs,
        RtcDateTime { year: 24, month: 2, weekday: 3, day: 29, hours: 13, minutes: 45, seconds: 30 }
    );
    assert_eq!(regs.to_datetime(), Some(utc(LEAP_DAY)));
    // The wall-clock reading in the value's own offset is written.
    let local = RtcDateTime::from_datetime(&DateTime { unix_seconds: LEAP_DAY, offset_seconds: 7200 });
    assert_eq!(local.hours, 15);
}

#[test]
fn rtc_registers_out_of_range() {
    let before_2000 = RtcDateTime::from_datetime(&utc(0));
    assert_eq!(before_2000.year, 0);
    assert_eq!(before_2000.month, 1);
    assert_eq!(before_2000.weekday, 3);
    let bad_month = RtcDateTime { year: 24, month: 13, weekday: 0, day: 1, hours: 0, minutes: 0, seconds: 0 };
    assert_eq!(bad_month.to_datetime(), None);
    let bad_day = RtcDateTime { year: 23, month: 2, weekday: 0, day: 29, hours: 0, minutes: 0, seconds: 0 };
    assert_eq!(bad_day.to_datetime(), None);
    let bad_hour = RtcDateTime { year: 23, month: 2, weekday: 0, day: 28, hours: 24, minutes: 0, seconds: 0 };
    assert_eq!(bad_hour.to_datetime(), None);
}

#[test]
fn rtc_module_commands() {
    assert_eq!(RtcModule::command_handler(&Commands::GetTimeNow), Some(RtcAction::ReadTime));
    assert_eq!(RtcModule::command_handler(&Commands::StartDeepSleep), Some(RtcAction::Stop));
    assert_eq!(RtcModule::command_handler(&Commands::SyncRtc), None);
    match RtcModule::command_handler(&Commands::SetTime(utc(LEAP_DAY))) {
        Some(RtcAction::WriteTime(regs)) => assert_eq!(regs.day, 29),
        other => panic!("unexpected {:?}", other),
    }
    let invalid = DateTime { unix_seconds: LEAP_DAY, offset_seconds: 100_000 };
    assert_eq!(RtcModule::command_handler(&Commands::SetTime(invalid)), None);
}

struct MockBus {
    reply: Vec<u8>,
    fail: bool,
    writes: Vec<(u8, Vec<u8>)>,
}

impl I2cBus for MockBus {
    type Error = &'static str;

    fn ops(&self) -> BusOps<&'static str> {
        unreachable!("the record of transfers exists only for the proofs")
    }

    fn write(&mut self, address: u8, bytes: &[u8]) -> Result<(), Self::Error> {
        self.writes.push((address, bytes.to_vec()));
        if self.fail {
            Err("bus")
        } else {
            Ok(())
        }
    }

    fn write_read(&mut self, address: u8, bytes: &[u8], buffer: &mut [u8]) -> Result<(), Self::Error> {
        self.writes.push((address, bytes.to_vec()));
        if self.fail {
            return Err("bus");
        }
        let n = buffer.len();
        buffer.copy_from_slice(&self.reply[..n]);
        Ok(())
    }
}

struct MockPin {
    levels: Vec<bool>,
}

impl ResetPin for MockPin {
    type Error = ();

    fn ops(&self) -> PinOps<()> {
        unreachable!("the record of pin changes exists only for the proofs")
    }

    fn set_low(&mut self) -> Result<(), Self::Error> {
        self.levels.push(false);
        Ok(())
    }

    fn set_high(&mut self) -> Result<(), Self::Error> {
        self.levels.push(true);
        Ok(())
    }
}

struct MockDelay {
    total_us: u64,
}

impl DelayUs for MockDelay {
    fn waits(&self) -> Waits {
        unreachable!("the record of waits exists only for the proofs")
    }

    fn delay_us(&mut self, us: u32) {
        self.total_us += us as u64;
    }
}

fn touchpad(reply: Vec<u8>, fail: bool) -> CST816S<MockBus, (), MockPin> {
    CST816S::new(MockBus { reply, fail, writes: Vec::new() }, (), MockPin { levels: Vec::new() })
}

#[test]
fn touch_registers_decode() {
    let data = [0u8, 0x05, 0, 0x80, 0, 0, 0, 0, 0, 0];
    let ev = touch_event_from_registers(&data).unwrap();
    assert_eq!(ev.gesture, TouchGesture::SingleClick);
    assert_eq!(ev.action, Action::Lift);
    assert_eq!((ev.x, ev.y, ev.finger_id, ev.pressure, ev.area), (0, 0, 0, 0, 0));
    let data = [0u8, 0x0C, 0, 0x7F, 0, 0, 0, 0, 0, 0];
    let ev = touch_event_from_registers(&data).unwrap();
    assert_eq!(ev.gesture, TouchGesture::LongPress);
    assert_eq!(ev.action, Action::Down);
    let unknown = [0u8, 0x06, 0, 0, 0, 0, 0, 0, 0, 0];
    assert!(touch_event_from_registers(&unknown).is_none());
    assert_eq!(Action::from_code(2), Some(Action::Contact));
    assert_eq!(Action::from_code(3), None);
    assert_eq!(TouchGesture::from_code(0x0B), Some(TouchGesture::DoubleClick));
    assert_eq!(Reg::GestureOutputAddress.address(), 0xD3);
}

#[test]
fn touchpad_reads_and_writes_over_the_bus() {
    let mut pad = touchpad(vec![0, 0x03, 0, 0x80, 0, 0, 0, 0, 0, 0], false);
    let ev = pad.get_touch_event().unwrap();
    assert_eq!(ev.gesture, TouchGesture::SlideLeft);
    assert_eq!(ev.action, Action::Lift);

    let mut raw = [0u8; 10];
    pad.get_data_raw(&mut raw).unwrap();
    assert_eq!(raw[1], 0x03);

    let mut pad = touchpad(vec![0xB5, 0x01, 0x02], false);
    let info = pad.get_device_info().unwrap();
    assert_eq!(info.Version, 0xB5);
    assert_eq!(info.VersionInfo, [0xB5, 0x01, 0x02]);
    assert_eq!(pad.set_gesture_output_address(9).unwrap(), 0xB5);

    let mut pad = touchpad(vec![], false);
    let mut delay = MockDelay { total_us: 0 };
    pad.setup(&mut delay).unwrap();
    assert_eq!(delay.total_us, 420_000);
}

#[test]
fn touchpad_errors() {
    let mut pad = touchpad(vec![0, 0x07, 0, 0, 0, 0, 0, 0, 0, 0], false);
    assert!(matches!(pad.get_touch_event(), Err(Error::GenericError)));
    let mut pad = touchpad(vec![], true);
    assert!(matches!(pad.get_touch_event(), Err(Error::Comm("bus"))));
    assert!(matches!(pad.enable_gestures(true), Err(Error::Comm("bus"))));
    assert!(matches!(pad.get_device_info(), Err(Error::Comm("bus"))));
    let _ = DEFAULT_I2C_ADDRESS;
}

#[test]
fn panel_bring_up_sequence() {
    let steps = init_steps(true);
    assert_eq!(steps.len(), 53);
    assert!(matches!(steps[0], InitStep::HardReset));
    match &steps[1] {
        InitStep::Command(code, params) => {
            assert_eq!(*code, 0xEF);
            assert!(params.is_empty());
        }
        _ => panic!("expected a command"),
    }
    match &steps[2] {
        InitStep::Command(code, params) => {
            assert_eq!(*code, 0xEB);
            assert_eq!(params, &vec![0x14]);
        }
        _ => panic!("expected a command"),
    }
    assert!(matches!(steps[50], InitStep::DelayUs(120_000)));
    assert!(matches!(&steps[51], InitStep::Command(code, _) if *code == DISPON));
    assert!(matches!(steps[52], InitStep::DelayUs(30_000)));
    let steps = init_steps(false);
    assert!(matches!(&steps[0], InitStep::Command(code, params) if *code == SWRESET && params.is_empty()));
}

#[test]
fn peripheral_modules_stop_on_deep_sleep() {
    assert_eq!(TouchModule::command_handler(&Commands::StartDeepSleep), Some(ModuleAction::Stop));
    assert_eq!(TouchModule::command_handler(&Commands::SyncRtc), None);
    assert_eq!(UserInput::command_handler(&Commands::StartDeepSleep), Some(ModuleAction::Stop));
    assert!(matches!(UserInput::on_falling_edge(), Events::TouchOrMove));
    assert_eq!(AccelerometerModule::event_handler(&Events::TouchOrMove), Some(ModuleAction::StartReading));
    assert_eq!(AccelerometerModule::event_handler(&Events::Key1Press), None);
    assert!(AccelerometerModule::keeps_polling(4));
    assert!(!AccelerometerModule::keeps_polling(0));
}

#[test]
fn battery_levels() {
    assert_eq!(battery_level_icon(100), BatteryIcon::Level100);
    assert_eq!(battery_level_icon(95), BatteryIcon::Level90);
    assert_eq!(battery_level_icon(21), BatteryIcon::Level20);
    assert_eq!(battery_level_icon(20), BatteryIcon::Level10);
    assert_eq!(battery_level_icon(101), BatteryIcon::Level10);
}

#[test]
fn layers_merge_over_black() {
    let mut base = vec![9u16, 9, 9];
    let layers = vec![vec![1u16, 0, 1], vec![0u16, 2, 2], vec![3u16, 3, 3]];
    merge_layers(&mut base, &layers, 0b011);
    assert_eq!(base, vec![1, 2, 2]);
    merge_layers(&mut base, &layers, 0b000);
    assert_eq!(base, vec![0, 0, 0]);
}

#[test]
fn relative_sizes() {
    let s = RelativeSize::from_u32(300);
    assert_eq!(s.squared(), 90_000);
    assert_eq!(RelativeSize::from_u32(70_000).as_u16(), 70_000u32 as u16);
    assert_eq!(RelativeSize::from_u32(3_000_000_000).as_i32(), 3_000_000_000u32 as i32);
}

#[test]
fn wakeup_causes_and_storage_keys() {
    assert!(matches!(wakeup_cause_of(2), WakeupCause::Ext0));
    assert!(matches!(wakeup_cause_of(4), WakeupCause::Timer));
    assert!(matches!(wakeup_cause_of(7), WakeupCause::Ulp));
    assert_eq!(PersisterModule::storage_key(PersistenceUnitKind::CalendarSyncInfo), "CalendarSyncInfo");
    assert!(PersisterModule::should_write(false));
    assert!(!PersisterModule::should_write(true));
}

#[test]
fn time_sync_asks_for_the_reference_time_once_after_a_sync() {
    let mut state = RtcSyncState::Init;
    // a time reading that nobody awaits asks for nothing
    assert!(TimeSync::event_handler(&mut state, &Events::TimeNow(utc(LEAP_DAY))).is_empty());
    assert_eq!(state, RtcSyncState::Init);
    assert!(TimeSync::command_handler(&mut state, &Commands::SyncRtc).is_empty());
    assert_eq!(state, RtcSyncState::AwaitingTimeNow);
    // other inputs in between leave the request owed
    assert!(TimeSync::event_handler(&mut state, &Events::Key1Press).is_empty());
    assert_eq!(state, RtcSyncState::AwaitingTimeNow);
    let actions = TimeSync::event_handler(&mut state, &Events::TimeNow(utc(LEAP_DAY)));
    assert_eq!(actions.len(), 1);
    assert!(matches!(actions[0], TimeSyncAction::Command(Commands::GetReferenceTime)));
    assert_eq!(state, RtcSyncState::AwaitingReferenceTime);
    // the next reading asks again for nothing
    assert!(TimeSync::event_handler(&mut state, &Events::TimeNow(utc(LEAP_DAY + 1))).is_empty());
    let now = DateTime { unix_seconds: LEAP_DAY, offset_seconds: 3600 };
    let actions = TimeSync::event_handler(&mut state, &Events::ReferenceTime(now));
    assert_eq!(actions.len(), 2);
    assert!(matches!(actions[0], TimeSyncAction::Command(Commands::SetTime(t)) if t == now));
    match &actions[1] {
        TimeSyncAction::StoreSyncInfo(info) => {
            assert!(info.in_sync);
            assert_eq!(info.last_sync, LEAP_DAY);
            assert_eq!(info.offset, 3600);
        }
        other => panic!("unexpected action {:?}", other),
    }
    assert_eq!(state, RtcSyncState::InSync);
}

#[test]
fn time_sync_ticks_follow_pause_and_resume() {
    let mut state = RtcSyncState::InSync;
    let paused = TimeSync::command_handler(&mut state, &Commands::PauseRendering);
    assert!(matches!(paused[..], [TimeSyncAction::PauseTicks(true)]));
    assert!(TimeSync::timer_tick(true).is_none());
    let resumed = TimeSync::command_handler(&mut state, &Commands::ResumeRendering);
    assert!(matches!(resumed[..], [TimeSyncAction::PauseTicks(false)]));
    assert!(matches!(TimeSync::timer_tick(false), Some(Commands::GetTimeNow)));
    let sleep = TimeSync::command_handler(&mut state, &Commands::StartDeepSleep);
    assert!(matches!(sleep[..], [TimeSyncAction::PauseTicks(true), TimeSyncAction::Stop]));
    assert_eq!(state, RtcSyncState::InSync);
}

#[test]
fn render_loop_announces_the_first_frame_once() {
    let mut vm = ViewModel::new(&FastTrackRtcData { now: Some(utc(LEAP_DAY)), alarm_status: false });
    let mut loop_state = RenderLoopState::new();
    assert_eq!(
        plan_frame(&mut loop_state, &mut vm),
        vec![FrameAction::Draw(3), FrameAction::Commit(7), FrameAction::AnnounceFirstRender]
    );
    assert_eq!(plan_frame(&mut loop_state, &mut vm), vec![FrameAction::Draw(2), FrameAction::Commit(7)]);
    vm.force_render_events = true;
    assert_eq!(plan_frame(&mut loop_state, &mut vm), vec![FrameAction::Draw(6), FrameAction::Commit(7)]);
    assert_eq!(plan_closing_frame(), vec![FrameAction::Draw(1), FrameAction::Commit(1)]);
}

#[test]
fn notification_time_matters_only_for_events_that_get_reminders() {
    let now = utc(MIN_UNIX_TIMESTAMP + 30);
    let mut context = CalendarContext::new();
    CalendarModule::event_handler(&mut context, Events::TimeNow(now));
    // started before now: no reminders, so its notification time does not matter
    let early = event(CalendarKind::Phone, 1, MIN_UNIX_TIMESTAMP + 10, MIN_UNIX_TIMESTAMP + 7200);
    let incoming = Events::ReferenceCalendarEvent(early);
    assert!(CalendarModule::accepts(&context, &incoming));
    CalendarModule::event_handler(&mut context, incoming);
    assert!(CalendarModule::accepts(&context, &Events::InSync(true)));
    // starts after now and is short: its notification would fall before the first instant
    let soon = event(CalendarKind::Phone, 2, MIN_UNIX_TIMESTAMP + 60, MIN_UNIX_TIMESTAMP + 120);
    let incoming = Events::ReferenceCalendarEvent(soon);
    assert!(CalendarModule::accepts(&context, &incoming));
    CalendarModule::event_handler(&mut context, incoming);
    assert!(!CalendarModule::accepts(&context, &Events::InSync(true)));
}

#[test]
fn restored_timely_data_tells_the_latest_temperature_so_far() {
    let dto = |kind: CalendarKind, id: i32, start: i64, end: i64| CalendarEventDto {
        kind,
        id,
        title: format!("event {}", id),
        start: ReferenceTimeUtc { unix_epoch_seconds: start },
        end: ReferenceTimeUtc { unix_epoch_seconds: end },
        icon: CalendarEventIcon::Default,
        color: 0,
        description: String::new(),
        lane: 0,
    };
    let record = |linked_event_id: i32, start_at_hour: u8, value: f32| TimelyDataRecord {
        linked_event_id,
        start_at_hour,
        duration_seconds: 3600,
        data_marker: TimelyDataMarker::Temperature,
        value_bits: value.to_bits(),
    };
    // 13:45 UTC: the record of 12 o'clock is the latest that has started
    let state = CalendarStateDto::new(
        vec![dto(CalendarKind::Weather, 9, LEAP_DAY - 3600, LEAP_DAY + 36000)],
        vec![record(9, 10, 10.0), record(9, 12, 12.5), record(9, 15, 20.0), record(8, 13, -3.0)],
        ReferenceTimeUtc { unix_epoch_seconds: LEAP_DAY },
    );
    let mut context = CalendarContext::new();
    context.now = Some(utc(LEAP_DAY));
    assert!(restored_reminders_ready(&context, &state, 0));
    let actions = apply_restored(&mut context, state, 0);
    assert_eq!(actions.len(), 3);
    assert!(matches!(actions[0], CalendarAction::Send(Events::CalendarEventsBatch(_))));
    match &actions[1] {
        CalendarAction::SendTemperature { value_bits } => assert_eq!(*value_bits, 12.5f32.to_bits()),
        other => panic!("unexpected action {:?}", other),
    }
    assert!(matches!(actions[2], CalendarAction::Command(Commands::SetReminders(_))));
    assert!(context.timely_data.is_empty());
}

#[test]
fn startup_sequence_syncs_clock_then_calendar_then_temperature() {
    let commands = blinky::commands::startup_commands();
    assert_eq!(commands.len(), 3);
    assert!(matches!(commands[0], Commands::SyncRtc));
    assert!(matches!(commands[1], Commands::SyncCalendar));
    assert!(matches!(commands[2], Commands::GetTemperature));
}

type SharedLog = std::rc::Rc<std::cell::RefCell<Vec<String>>>;

struct LoggedBus(SharedLog);
struct LoggedPin(SharedLog);
struct LoggedDelay(SharedLog);

impl I2cBus for LoggedBus {
    type Error = ();

    fn ops(&self) -> BusOps<()> {
        unreachable!("the record of transfers exists only for the proofs")
    }

    fn write(&mut self, address: u8, bytes: &[u8]) -> Result<(), Self::Error> {
        self.0.borrow_mut().push(format!("write {:#x} {:?}", address, bytes));
        Ok(())
    }

    fn write_read(&mut self, address: u8, bytes: &[u8], _buffer: &mut [u8]) -> Result<(), Self::Error> {
        self.0.borrow_mut().push(format!("write_read {:#x} {:?}", address, bytes));
        Ok(())
    }
}

impl ResetPin for LoggedPin {
    type Error = ();

    fn ops(&self) -> PinOps<()> {
        unreachable!("the record of pin changes exists only for the proofs")
    }

    fn set_low(&mut self) -> Result<(), Self::Error> {
        self.0.borrow_mut().push("reset low".to_string());
        Ok(())
    }

    fn set_high(&mut self) -> Result<(), Self::Error> {
        self.0.borrow_mut().push("reset high".to_string());
        Ok(())
    }
}

impl DelayUs for LoggedDelay {
    fn waits(&self) -> Waits {
        unreachable!("the record of waits exists only for the proofs")
    }

    fn delay_us(&mut self, us: u32) {
        self.0.borrow_mut().push(format!("wait {}", us));
    }
}

#[test]
fn touchpad_setup_resets_then_waits_before_the_bus() {
    let log: SharedLog = Default::default();
    let mut pad = CST816S::new(LoggedBus(log.clone()), (), LoggedPin(log.clone()));
    let mut delay = LoggedDelay(log.clone());
    pad.setup(&mut delay).unwrap();
    assert_eq!(
        *log.borrow(),
        vec!["reset low", "wait 20000", "reset high", "wait 400000", "write 0x15 [208, 1]"]
    );
}

#[test]
fn persisted_unit_comes_back_on_restore() {
    // the storage of the loop: a read succeeds exactly where bytes are stored
    let mut storage: HashMap<&'static str, Vec<u8>> = HashMap::new();
    let run = |command: Commands, storage: &mut HashMap<&'static str, Vec<u8>>| -> Option<PersistenceUnit> {
        match PersisterModule::command_handler(command) {
            Some(PersisterAction::Persist(dto)) => {
                let key = PersisterModule::storage_key(dto.kind);
                if PersisterModule::should_write(storage.contains_key(key)) {
                    storage.insert(key, dto.data.clone());
                }
                None
            }
            Some(PersisterAction::Restore(kind)) => {
                let key = PersisterModule::storage_key(kind);
                let read = storage.get(key).cloned().ok_or(blinky::error::Error::from_str("not found"));
                Some(PersisterModule::restored_unit(kind, read))
            }
            _ => None,
        }
    };
    let kind = PersistenceUnitKind::CalendarSyncInfo;
    run(Commands::Persist(PersistenceUnit::new(kind, vec![1, 2, 3])), &mut storage);
    let restored = run(Commands::Restore(kind), &mut storage).unwrap();
    assert!(matches!(restored.kind, PersistenceUnitKind::CalendarSyncInfo));
    assert_eq!(restored.data.unwrap(), vec![1, 2, 3]);
    // a unit already stored stays
    run(Commands::Persist(PersistenceUnit::new(kind, vec![9])), &mut storage);
    let restored = run(Commands::Restore(kind), &mut storage).unwrap();
    assert_eq!(restored.data.unwrap(), vec![1, 2, 3]);
}
