use vstd::prelude::*;

use crate::touch_lines::{LineStep, TouchLines};

verus! {

/// Size of the register window that holds one touch report.
pub const BUFFER_SIZE: usize = 10;

/// The CST816S answers on this 7-bit I2C address.
pub const DEFAULT_I2C_ADDRESS: u8 = 0x15;

/// Errors of the touch controller driver.
#[derive(Debug)]
pub enum Error<CommE, PinE> {
    /// The I2C bus failed.
    Comm(CommE),
    /// The reset pin could not be driven.
    Pin(PinE),
    /// The controller reported a value that the driver does not know.
    GenericError,
}

/// One transfer on an I2C bus, with what came of it.
pub enum BusOp<E> {
    /// The bytes written to the device at the address, and the outcome.
    Write(u8, Seq<u8>, Result<(), E>),
    /// The bytes written (a register address), the bytes the read buffer held afterwards, and
    /// the outcome.
    WriteRead(u8, Seq<u8>, Seq<u8>, Result<(), E>),
}

/// One change of a pin, with what came of it.
pub enum PinOp<E> {
    SetLow(Result<(), E>),
    SetHigh(Result<(), E>),
}

/// The transfers made on a bus, in order.
pub type BusOps<E> = Seq<BusOp<E>>;

/// The changes made to a pin, in order.
pub type PinOps<E> = Seq<PinOp<E>>;

/// The waits made by a delay source, in microseconds, in order.
pub type Waits = Seq<u32>;

/// The I2C transfers that the driver makes: a plain write, and a write of a register address
/// followed by a read of the bytes that start there. Every transfer is recorded in `ops`, in
/// order, with its outcome; nothing is promised of the outcome.
pub trait I2cBus {
    type Error;

    /// The transfers made so far.
    spec fn ops(&self) -> BusOps<Self::Error>;

    fn write(&mut self, address: u8, bytes: &[u8]) -> (r: Result<(), Self::Error>)
        ensures
            final(self).ops() == old(self).ops().push(BusOp::Write(address, bytes@, r)),
    ;

    fn write_read(&mut self, address: u8, bytes: &[u8], buffer: &mut [u8]) -> (r: Result<(), Self::Error>)
        ensures
            final(self).ops() == old(self).ops().push(BusOp::WriteRead(address, bytes@, final(buffer)@, r)),
            final(buffer)@.len() == old(buffer)@.len(),
    ;
}

/// A push-pull output that drives the controller's reset line. Every change is recorded in
/// `ops`, in order, with its outcome; nothing is promised of the outcome.
pub trait ResetPin {
    type Error;

    /// The changes made so far.
    spec fn ops(&self) -> PinOps<Self::Error>;

    fn set_low(&mut self) -> (r: Result<(), Self::Error>)
        ensures
            final(self).ops() == old(self).ops().push(PinOp::SetLow(r)),
    ;

    fn set_high(&mut self) -> (r: Result<(), Self::Error>)
        ensures
            final(self).ops() == old(self).ops().push(PinOp::SetHigh(r)),
    ;
}

/// A busy-wait of a number of microseconds; every wait is recorded in `waits`, in order.
pub trait DelayUs {
    /// The waits made so far, in microseconds.
    spec fn waits(&self) -> Waits;

    fn delay_us(&mut self, us: u32)
        ensures
            final(self).waits() == old(self).waits().push(us),
    ;
}

/// The driver's result of a transfer's outcome: the bus's own error as a communication error.
pub open spec fn comm_result<CommE, PinE, T>(outcome: Result<(), CommE>, value: T) -> Result<T, Error<CommE, PinE>> {
    match outcome {
        Ok(()) => Ok(value),
        Err(e) => Err(Error::Comm(e)),
    }
}

/// Whether a transfer wrote the register address `register` to the controller and read
/// `len` bytes back.
pub open spec fn is_register_read<E>(op: BusOp<E>, register: u8, len: nat) -> bool {
    op matches BusOp::WriteRead(address, written, read, _) && address == DEFAULT_I2C_ADDRESS && written
        == seq![register] && read.len() == len
}

/// The bytes a transfer read back (empty for a plain write).
pub open spec fn read_back<E>(op: BusOp<E>) -> Seq<u8> {
    match op {
        BusOp::WriteRead(_, _, read, _) => read,
        _ => Seq::empty(),
    }
}

/// The outcome of a transfer.
pub open spec fn outcome<E>(op: BusOp<E>) -> Result<(), E> {
    match op {
        BusOp::Write(_, _, r) => r,
        BusOp::WriteRead(_, _, _, r) => r,
    }
}

/// What `setup` does to the reset line, the delay source and the bus, and what it returns:
/// reset low; if that worked, wait 20 ms and set reset high; if that worked, wait 400 ms and
/// write 1 to the gesture enable register. The first step that fails ends the setup with its
/// own error.
pub open spec fn setup_done<CommE, PinE>(
    pin0: Seq<PinOp<PinE>>,
    pin1: Seq<PinOp<PinE>>,
    waits0: Seq<u32>,
    waits1: Seq<u32>,
    bus0: Seq<BusOp<CommE>>,
    bus1: Seq<BusOp<CommE>>,
    r: Result<(), Error<CommE, PinE>>,
) -> bool {
    &&& pin1.len() >= pin0.len() + 1
    &&& pin1.subrange(0, pin0.len() as int) == pin0
    &&& match pin1[pin0.len() as int] {
        PinOp::SetLow(Err(e)) => pin1.len() == pin0.len() + 1 && waits1 == waits0 && bus1 == bus0 && r == Err::<
            (),
            Error<CommE, PinE>,
        >(Error::Pin(e)),
        PinOp::SetLow(Ok(())) => {
            &&& pin1.len() == pin0.len() + 2
            &&& match pin1[pin0.len() + 1int] {
                PinOp::SetHigh(Err(e)) => waits1 == waits0.push(20_000) && bus1 == bus0 && r == Err::<
                    (),
                    Error<CommE, PinE>,
                >(Error::Pin(e)),
                PinOp::SetHigh(Ok(())) => {
                    &&& waits1 == waits0.push(20_000).push(400_000)
                    &&& bus1.len() == bus0.len() + 1
                    &&& bus1.drop_last() == bus0
                    &&& bus1.last() matches BusOp::Write(address, written, out) && address == DEFAULT_I2C_ADDRESS
                        && written == seq![0xD0u8, 1u8] && r == comm_result::<CommE, PinE, ()>(out, ())
                },
                _ => false,
            }
        },
        _ => false,
    }
}

/// The order of what `setup` does on the lines, given what came of the reset-line changes
/// (`pin_new`): reset low, and if that worked, a wait of 20 ms and reset high, and if that
/// worked too, a wait of 400 ms and the write that enables gestures. Nothing reaches the bus
/// before the 400 ms are over.
pub open spec fn setup_line_steps<PinE>(pin_new: Seq<PinOp<PinE>>) -> Seq<LineStep> {
    if pin_new.len() > 0 && pin_new[0] matches PinOp::SetLow(Ok(())) {
        if pin_new.len() > 1 && pin_new[1] matches PinOp::SetHigh(Ok(())) {
            seq![
                LineStep::ResetLow,
                LineStep::Wait(20_000),
                LineStep::ResetHigh,
                LineStep::Wait(400_000),
                LineStep::Write(DEFAULT_I2C_ADDRESS, seq![0xD0u8, 1u8]),
            ]
        } else {
            seq![LineStep::ResetLow, LineStep::Wait(20_000), LineStep::ResetHigh]
        }
    } else {
        seq![LineStep::ResetLow]
    }
}

/// What the finger did in a touch report.
#[derive(Debug, PartialEq, Eq, Structural)]
pub enum Action {
    Down,
    Lift,
    Contact,
}

/// The gesture that the controller recognised.
#[derive(Debug, PartialEq, Eq, Structural)]
pub enum TouchGesture {
    NoGesture,
    SlideDown,
    SlideUp,
    SlideLeft,
    SlideRight,
    SingleClick,
    DoubleClick,
    LongPress,
}

/// Registers of the controller.
pub enum Reg {
    TouchData,
    Version,
    VersionInfo,
    GestureEn,
    GestureOutputAddress,
}

/// One touch report.
#[derive(Debug, PartialEq, Eq, Structural)]
pub struct TouchEvent {
    pub x: i32,
    pub y: i32,
    /// the gesture that this touch is part of
    pub gesture: TouchGesture,
    /// 0 down, 1 lift, 2 contact
    pub action: Action,
    /// identifies the finger that touched (0-9)
    pub finger_id: u8,
    /// pressure level of touch
    pub pressure: u8,
    /// the surface area of the touch
    pub area: u8,
}

/// The firmware version of the controller and its three version-information bytes.
#[allow(non_snake_case)]
pub struct DeviceInfo {
    pub Version: u8,
    pub VersionInfo: [u8; 3],
}

/// The register code of each action.
pub open spec fn action_code(a: Action) -> u8 {
    match a {
        Action::Down => 0x00,
        Action::Lift => 0x01,
        Action::Contact => 0x02,
    }
}

/// The register code of each gesture.
pub open spec fn gesture_code(g: TouchGesture) -> u8 {
    match g {
        TouchGesture::NoGesture => 0x00,
        TouchGesture::SlideDown => 0x01,
        TouchGesture::SlideUp => 0x02,
        TouchGesture::SlideLeft => 0x03,
        TouchGesture::SlideRight => 0x04,
        TouchGesture::SingleClick => 0x05,
        TouchGesture::DoubleClick => 0x0B,
        TouchGesture::LongPress => 0x0C,
    }
}

/// The address of each register.
pub open spec fn reg_address(r: Reg) -> u8 {
    match r {
        Reg::TouchData => 0x00,
        Reg::Version => 0x15,
        Reg::VersionInfo => 0xA7,
        Reg::GestureEn => 0xD0,
        Reg::GestureOutputAddress => 0xD3,
    }
}

impl Action {
    /// The action with register code `code`, if there is one.
    pub fn from_code(code: u8) -> (r: Option<Action>)
        ensures
            match r {
                Some(a) => action_code(a) == code,
                None => forall|a: Action| action_code(a) != code,
            },
    {
        match code {
            0x00 => Some(Action::Down),
            0x01 => Some(Action::Lift),
            0x02 => Some(Action::Contact),
            _ => {
                assert forall|a: Action| action_code(a) != code by {
                    match a {
                        Action::Down => {},
                        Action::Lift => {},
                        Action::Contact => {},
                    }
                }
                None
            },
        }
    }
}

impl TouchGesture {
    /// The gesture with register code `code`, if there is one.
    pub fn from_code(code: u8) -> (r: Option<TouchGesture>)
        ensures
            match r {
                Some(g) => gesture_code(g) == code,
                None => forall|g: TouchGesture| gesture_code(g) != code,
            },
    {
        match code {
            0x00 => Some(TouchGesture::NoGesture),
            0x01 => Some(TouchGesture::SlideDown),
            0x02 => Some(TouchGesture::SlideUp),
            0x03 => Some(TouchGesture::SlideLeft),
            0x04 => Some(TouchGesture::SlideRight),
            0x05 => Some(TouchGesture::SingleClick),
            0x0B => Some(TouchGesture::DoubleClick),
            0x0C => Some(TouchGesture::LongPress),
            _ => {
                assert forall|g: TouchGesture| gesture_code(g) != code by {
                    match g {
                        TouchGesture::NoGesture => {},
                        TouchGesture::SlideDown => {},
                        TouchGesture::SlideUp => {},
                        TouchGesture::SlideLeft => {},
                        TouchGesture::SlideRight => {},
                        TouchGesture::SingleClick => {},
                        TouchGesture::DoubleClick => {},
                        TouchGesture::LongPress => {},
                    }
                }
                None
            },
        }
    }
}

impl Reg {
    /// The register's address.
    pub fn address(&self) -> (r: u8)
        ensures
            r == reg_address(*self),
    {
        match self {
            Reg::TouchData => 0x00,
            Reg::Version => 0x15,
            Reg::VersionInfo => 0xA7,
            Reg::GestureEn => 0xD0,
            Reg::GestureOutputAddress => 0xD3,
        }
    }
}

/// The touch report held in the ten bytes read from the touch-data register: the gesture code
/// stands in byte 1 and the action in the top bit of byte 3; the driver reports no position,
/// finger, pressure or area (all zero). `None` when byte 1 holds no known gesture code.
pub open spec fn spec_touch_event(data: Seq<u8>) -> Option<TouchEvent> {
    if exists|g: TouchGesture| gesture_code(g) == data[1] {
        let g = choose|g: TouchGesture| gesture_code(g) == data[1];
        let a = if data[3] >= 128 { Action::Lift } else { Action::Down };
        Some(TouchEvent { x: 0, y: 0, gesture: g, action: a, finger_id: 0, pressure: 0, area: 0 })
    } else {
        None
    }
}

/// Decodes the ten bytes of the touch-data register into a touch report.
pub fn touch_event_from_registers(data: &[u8; 10]) -> (r: Option<TouchEvent>)
    ensures
        r == spec_touch_event(data@),
{
    let gesture = TouchGesture::from_code(data[1]);
    let d3: u8 = data[3];
    let top: u8 = d3 >> 7;
    assert(top == (if d3 >= 128 { 1u8 } else { 0u8 })) by (bit_vector)
        requires
            top == d3 >> 7,
    ;
    let action = Action::from_code(top);
    match (gesture, action) {
        (Some(g), Some(a)) => {
            assert(gesture_code(g) == data@[1]);
            let ghost chosen = choose|h: TouchGesture| gesture_code(h) == data@[1];
            proof {
                lemma_gesture_code_injective(g, chosen);
                lemma_action_code_injective(a, if data@[3] >= 128 { Action::Lift } else { Action::Down });
            }
            Some(TouchEvent { x: 0, y: 0, gesture: g, action: a, finger_id: 0, pressure: 0, area: 0 })
        },
        (None, _) => None,
        (Some(_), None) => {
            assert(action_code(Action::Down) == 0 && action_code(Action::Lift) == 1);
            None
        },
    }
}

/// Two gestures with the same register code are the same gesture.
pub proof fn lemma_gesture_code_injective(g: TouchGesture, h: TouchGesture)
    ensures
        gesture_code(g) == gesture_code(h) ==> g == h,
{
}

/// Two actions with the same register code are the same action.
pub proof fn lemma_action_code_injective(a: Action, b: Action)
    ensures
        action_code(a) == action_code(b) ==> a == b,
{
}

/// The CST816S capacitive touch controller on an I2C bus, with its interrupt and reset lines.
pub struct CST816S<I2C, PIN_INT, PIN_RST> {
    lines: TouchLines<I2C, PIN_RST>,
    pin_int: PIN_INT,
    buffer: [u8; BUFFER_SIZE],
}

impl<I2C, PIN_INT, PIN_RST, CommE, PinE> CST816S<I2C, PIN_INT, PIN_RST> where
    I2C: I2cBus<Error = CommE>,
    PIN_RST: ResetPin<Error = PinE>,
 {
    /// The bus the driver talks over.
    pub closed spec fn bus(&self) -> I2C {
        self.lines.bus()
    }

    /// What the driver did on its bus and reset line, waits included, in the order it did it.
    pub closed spec fn line_steps(&self) -> Seq<LineStep> {
        self.lines.steps()
    }

    /// The interrupt line.
    pub closed spec fn interrupt_pin(&self) -> PIN_INT {
        self.pin_int
    }

    /// The reset line.
    pub closed spec fn reset_pin(&self) -> PIN_RST {
        self.lines.reset_pin()
    }

    /// The driver's own buffer of the touch-data window.
    pub closed spec fn read_buffer(&self) -> Seq<u8> {
        self.buffer@
    }

    /// A driver over the given bus and lines, with a zeroed read buffer; nothing is sent to the
    /// controller.
    pub fn new(port: I2C, interrupt_pin: PIN_INT, reset_pin: PIN_RST) -> (r: Self)
        ensures
            r.bus() == port,
            r.interrupt_pin() == interrupt_pin,
            r.reset_pin() == reset_pin,
            r.read_buffer() == Seq::new(BUFFER_SIZE as nat, |i: int| 0u8),
            r.line_steps() == Seq::<LineStep>::empty(),
    {
        let r = Self { lines: TouchLines::new(port, reset_pin), pin_int: interrupt_pin, buffer: [0u8; 10] };
        assert(r.buffer@ =~= Seq::new(BUFFER_SIZE as nat, |i: int| 0u8));
        r
    }

    /// Resets the controller (reset low for 20 ms, then high and a wait of 400 ms) and enables
    /// its gesture recognition; a step that fails ends the setup with its error.
    pub fn setup<D: DelayUs>(&mut self, delay_source: &mut D) -> (r: Result<(), Error<CommE, PinE>>)
        ensures
            final(self).interrupt_pin() == old(self).interrupt_pin(),
            final(self).read_buffer() == old(self).read_buffer(),
            setup_done(
                old(self).reset_pin().ops(),
                final(self).reset_pin().ops(),
                old(delay_source).waits(),
                final(delay_source).waits(),
                old(self).bus().ops(),
                final(self).bus().ops(),
                r,
            ),
            final(self).line_steps() == old(self).line_steps() + setup_line_steps(
                final(self).reset_pin().ops().subrange(
                    old(self).reset_pin().ops().len() as int,
                    final(self).reset_pin().ops().len() as int,
                ),
            ),
    {
        let ghost pin0 = self.lines.reset_pin().ops();
        let ghost bus0 = self.lines.bus().ops();
        let ghost steps0 = self.lines.steps();
        let low = self.lines.set_low();
        match low {
            Ok(()) => {},
            Err(e) => {
                assert(self.lines.reset_pin().ops().subrange(0, pin0.len() as int) =~= pin0);
                assert(self.lines.reset_pin().ops().subrange(pin0.len() as int, pin0.len() + 1int) =~= seq![
                    PinOp::SetLow(low),
                ]);
                assert(self.lines.steps() =~= steps0 + seq![LineStep::ResetLow]);
                return Err(Error::Pin(e));
            },
        }
        self.lines.wait(delay_source, 20_000);
        let high = self.lines.set_high();
        assert(self.lines.reset_pin().ops().subrange(0, pin0.len() as int) =~= pin0);
        assert(self.lines.reset_pin().ops().subrange(pin0.len() as int, pin0.len() + 2int) =~= seq![
            PinOp::SetLow(low),
            PinOp::SetHigh(high),
        ]);
        match high {
            Ok(()) => {},
            Err(e) => {
                assert(self.lines.steps() =~= steps0 + seq![
                    LineStep::ResetLow,
                    LineStep::Wait(20_000),
                    LineStep::ResetHigh,
                ]);
                return Err(Error::Pin(e));
            },
        }
        self.lines.wait(delay_source, 400_000);
        let r = self.enable_gestures(true);
        assert(self.lines.bus().ops().drop_last() =~= bus0);
        assert(self.lines.steps() =~= steps0 + seq![
            LineStep::ResetLow,
            LineStep::Wait(20_000),
            LineStep::ResetHigh,
            LineStep::Wait(400_000),
            LineStep::Write(DEFAULT_I2C_ADDRESS, seq![0xD0u8, 1u8]),
        ]);
        r
    }

    /// Reads the touch-data window (register 0x00) into the driver's buffer.
    fn read_registers(&mut self) -> (r: Result<(), Error<CommE, PinE>>)
        ensures
            final(self).interrupt_pin() == old(self).interrupt_pin(),
            final(self).reset_pin() == old(self).reset_pin(),
            final(self).bus().ops() == old(self).bus().ops().push(
                BusOp::WriteRead(DEFAULT_I2C_ADDRESS, seq![0x00u8], final(self).read_buffer(), outcome(final(self).bus().ops().last())),
            ),
            r == comm_result::<CommE, PinE, ()>(outcome(final(self).bus().ops().last()), ()),
    {
        let reg: [u8; 1] = [Reg::TouchData.address()];
        let result = self.lines.write_read(DEFAULT_I2C_ADDRESS, &reg, &mut self.buffer);
        assert(reg@ =~= seq![0x00u8]);
        match result {
            Ok(()) => Ok(()),
            Err(e) => Err(Error::Comm(e)),
        }
    }

    /// Reads the firmware version (one byte of register 0x15) and the three bytes of version
    /// information (register 0xA7) of the controller; a failed read ends with the bus's error.
    pub fn get_device_info(&mut self) -> (r: Result<DeviceInfo, Error<CommE, PinE>>)
        ensures
            final(self).interrupt_pin() == old(self).interrupt_pin(),
            final(self).reset_pin() == old(self).reset_pin(),
            final(self).read_buffer() == old(self).read_buffer(),
            final(self).bus().ops().len() >= old(self).bus().ops().len() + 1,
            final(self).bus().ops().subrange(0, old(self).bus().ops().len() as int) == old(self).bus().ops(),
            is_register_read(final(self).bus().ops()[old(self).bus().ops().len() as int], 0x15, 1),
            final(self).line_steps() == old(self).line_steps().push(LineStep::WriteRead(DEFAULT_I2C_ADDRESS, seq![0x15u8]))
                + (if final(self).bus().ops().len() == old(self).bus().ops().len() + 2 {
                seq![LineStep::WriteRead(DEFAULT_I2C_ADDRESS, seq![0xA7u8])]
            } else {
                Seq::<LineStep>::empty()
            }),
            match outcome(final(self).bus().ops()[old(self).bus().ops().len() as int]) {
                Err(e) => final(self).bus().ops().len() == old(self).bus().ops().len() + 1 && r == Err::<
                    DeviceInfo,
                    Error<CommE, PinE>,
                >(Error::Comm(e)),
                Ok(()) => {
                    &&& final(self).bus().ops().len() == old(self).bus().ops().len() + 2
                    &&& is_register_read(final(self).bus().ops()[old(self).bus().ops().len() + 1int], 0xA7, 3)
                    &&& match outcome(final(self).bus().ops()[old(self).bus().ops().len() + 1int]) {
                        Err(e) => r == Err::<DeviceInfo, Error<CommE, PinE>>(Error::Comm(e)),
                        Ok(()) => r matches Ok(info) && info.Version == read_back(
                            final(self).bus().ops()[old(self).bus().ops().len() as int],
                        )[0] && info.VersionInfo@ == read_back(
                            final(self).bus().ops()[old(self).bus().ops().len() + 1int],
                        ),
                    }
                },
            },
    {
        let ghost start = self.lines.bus().ops();
        let mut version: [u8; 1] = [0];
        let reg: [u8; 1] = [Reg::Version.address()];
        let first = self.lines.write_read(DEFAULT_I2C_ADDRESS, &reg, &mut version);
        assert(reg@ =~= seq![0x15u8]);
        assert(self.lines.bus().ops().subrange(0, start.len() as int) =~= start);
        match first {
            Ok(()) => {},
            Err(e) => {
                return Err(Error::Comm(e));
            },
        }
        let ghost mid = self.lines.bus().ops();
        let mut version_info: [u8; 3] = [0; 3];
        version_info[0] = Reg::VersionInfo.address();
        let reg_info: [u8; 1] = [Reg::VersionInfo.address()];
        let second = self.lines.write_read(DEFAULT_I2C_ADDRESS, &reg_info, &mut version_info);
        assert(reg_info@ =~= seq![0xA7u8]);
        assert(self.lines.bus().ops().subrange(0, start.len() as int) =~= start);
        assert(self.lines.bus().ops()[start.len() as int] == mid[start.len() as int]);
        match second {
            Ok(()) => {},
            Err(e) => {
                return Err(Error::Comm(e));
            },
        }
        Ok(DeviceInfo { Version: version[0], VersionInfo: version_info })
    }

    /// Reads one touch report: the ten bytes of the touch-data window (register 0x00), decoded
    /// by `touch_event_from_registers`. A report whose gesture byte holds no known gesture is
    /// refused with `GenericError`; a failed read ends with the bus's error.
    pub fn get_touch_event(&mut self) -> (r: Result<TouchEvent, Error<CommE, PinE>>)
        ensures
            final(self).interrupt_pin() == old(self).interrupt_pin(),
            final(self).reset_pin() == old(self).reset_pin(),
            final(self).read_buffer() == old(self).read_buffer(),
            final(self).bus().ops().len() == old(self).bus().ops().len() + 1,
            final(self).bus().ops().drop_last() == old(self).bus().ops(),
            is_register_read(final(self).bus().ops().last(), 0x00, 10),
            final(self).line_steps() == old(self).line_steps().push(LineStep::WriteRead(DEFAULT_I2C_ADDRESS, seq![0x00u8])),
            r == match outcome(final(self).bus().ops().last()) {
                Err(e) => Err(Error::<CommE, PinE>::Comm(e)),
                Ok(()) => match spec_touch_event(read_back(final(self).bus().ops().last())) {
                    Some(ev) => Ok(ev),
                    None => Err(Error::GenericError),
                },
            },
    {
        let mut data: [u8; 10] = [0; 10];
        let reg: [u8; 1] = [Reg::TouchData.address()];
        let result = self.lines.write_read(DEFAULT_I2C_ADDRESS, &reg, &mut data);
        assert(reg@ =~= seq![0x00u8]);
        assert(self.lines.bus().ops().drop_last() =~= old(self).lines.bus().ops());
        match result {
            Ok(()) => {},
            Err(e) => {
                return Err(Error::Comm(e));
            },
        }
        match touch_event_from_registers(&data) {
            Some(ev) => Ok(ev),
            None => Err(Error::GenericError),
        }
    }

    /// Reads the ten bytes of the touch-data window (register 0x00) into `data`; a failed read
    /// ends with the bus's error.
    pub fn get_data_raw(&mut self, data: &mut [u8; 10]) -> (r: Result<(), Error<CommE, PinE>>)
        ensures
            final(self).interrupt_pin() == old(self).interrupt_pin(),
            final(self).reset_pin() == old(self).reset_pin(),
            final(self).read_buffer() == old(self).read_buffer(),
            final(self).bus().ops().len() == old(self).bus().ops().len() + 1,
            final(self).bus().ops().drop_last() == old(self).bus().ops(),
            final(self).bus().ops().last() matches BusOp::WriteRead(address, written, read, out) && address
                == DEFAULT_I2C_ADDRESS && written == seq![0x00u8] && read == final(data)@ && r
                == comm_result::<CommE, PinE, ()>(out, ()),
            final(self).line_steps() == old(self).line_steps().push(LineStep::WriteRead(DEFAULT_I2C_ADDRESS, seq![0x00u8])),
    {
        let reg: [u8; 1] = [Reg::TouchData.address()];
        let result = self.lines.write_read(DEFAULT_I2C_ADDRESS, &reg, data);
        assert(reg@ =~= seq![0x00u8]);
        assert(self.lines.bus().ops().drop_last() =~= old(self).lines.bus().ops());
        match result {
            Ok(()) => Ok(()),
            Err(e) => Err(Error::Comm(e)),
        }
    }

    /// Switches the controller's gesture recognition on or off: writes the flag (1 or 0) to
    /// register 0xD0; a failed write ends with the bus's error.
    pub fn enable_gestures(&mut self, flag: bool) -> (r: Result<(), Error<CommE, PinE>>)
        ensures
            final(self).interrupt_pin() == old(self).interrupt_pin(),
            final(self).reset_pin() == old(self).reset_pin(),
            final(self).read_buffer() == old(self).read_buffer(),
            final(self).bus().ops().len() == old(self).bus().ops().len() + 1,
            final(self).bus().ops().drop_last() == old(self).bus().ops(),
            final(self).bus().ops().last() matches BusOp::Write(address, written, out) && address
                == DEFAULT_I2C_ADDRESS && written == seq![0xD0u8, if flag { 1u8 } else { 0u8 }] && r
                == comm_result::<CommE, PinE, ()>(out, ()),
            final(self).line_steps() == old(self).line_steps().push(
                LineStep::Write(DEFAULT_I2C_ADDRESS, seq![0xD0u8, if flag { 1u8 } else { 0u8 }]),
            ),
    {
        let data: [u8; 2] = [Reg::GestureEn.address(), if flag { 1u8 } else { 0u8 }];
        let result = self.lines.write(DEFAULT_I2C_ADDRESS, &data);
        assert(data@ =~= seq![0xD0u8, if flag { 1u8 } else { 0u8 }]);
        assert(self.lines.bus().ops().drop_last() =~= old(self).lines.bus().ops());
        match result {
            Ok(()) => Ok(()),
            Err(e) => Err(Error::Comm(e)),
        }
    }

    /// Reads the gesture output address register (0xD3) into a one-byte buffer that holds
    /// `addr` beforehand, and returns the byte read back; a failed read ends with the bus's
    /// error.
    pub fn set_gesture_output_address(&mut self, addr: u8) -> (r: Result<u8, Error<CommE, PinE>>)
        ensures
            final(self).interrupt_pin() == old(self).interrupt_pin(),
            final(self).reset_pin() == old(self).reset_pin(),
            final(self).read_buffer() == old(self).read_buffer(),
            final(self).bus().ops().len() == old(self).bus().ops().len() + 1,
            final(self).bus().ops().drop_last() == old(self).bus().ops(),
            is_register_read(final(self).bus().ops().last(), 0xD3, 1),
            final(self).line_steps() == old(self).line_steps().push(LineStep::WriteRead(DEFAULT_I2C_ADDRESS, seq![0xD3u8])),
            r == comm_result::<CommE, PinE, u8>(
                outcome(final(self).bus().ops().last()),
                read_back(final(self).bus().ops().last())[0],
            ),
    {
        let mut data: [u8; 1] = [addr];
        let reg: [u8; 1] = [Reg::GestureOutputAddress.address()];
        let result = self.lines.write_read(DEFAULT_I2C_ADDRESS, &reg, &mut data);
        assert(reg@ =~= seq![0xD3u8]);
        assert(self.lines.bus().ops().drop_last() =~= old(self).lines.bus().ops());
        match result {
            Ok(()) => Ok(data[0]),
            Err(e) => Err(Error::Comm(e)),
        }
    }
}

} // verus!
