use vstd::prelude::*;

use crate::cst816s::{BusOp, DelayUs, I2cBus, PinOp, ResetPin};

verus! {

/// One thing done on the touch controller's lines, in the order it was done: a change of the
/// reset line, a wait, or a transfer on the bus (address and bytes written).
pub enum LineStep {
    ResetLow,
    ResetHigh,
    Wait(u32),
    Write(u8, Seq<u8>),
    WriteRead(u8, Seq<u8>),
}

/// The touch controller's bus and reset line, with the record of what was done on them, the
/// waits between included, in one order. Only the methods below add to the record, each as
/// it makes its call, so the record holds the calls in the order they were made.
pub struct TouchLines<I2C, RST> {
    i2c: I2C,
    rst: RST,
    steps: Ghost<Seq<LineStep>>,
}

impl<I2C, RST, CommE, PinE> TouchLines<I2C, RST> where I2C: I2cBus<Error = CommE>, RST: ResetPin<Error = PinE> {
    /// The bus.
    pub closed spec fn bus(&self) -> I2C {
        self.i2c
    }

    /// The reset line.
    pub closed spec fn reset_pin(&self) -> RST {
        self.rst
    }

    /// What was done on the lines so far, in order.
    pub closed spec fn steps(&self) -> Seq<LineStep> {
        self.steps@
    }

    /// The lines, with nothing done on them yet.
    pub fn new(i2c: I2C, rst: RST) -> (r: Self)
        ensures
            r.bus() == i2c,
            r.reset_pin() == rst,
            r.steps() == Seq::<LineStep>::empty(),
    {
        TouchLines { i2c, rst, steps: Ghost(Seq::empty()) }
    }

    /// Drives the reset line low.
    pub fn set_low(&mut self) -> (r: Result<(), PinE>)
        ensures
            final(self).reset_pin().ops() == old(self).reset_pin().ops().push(PinOp::SetLow(r)),
            final(self).bus() == old(self).bus(),
            final(self).steps() == old(self).steps().push(LineStep::ResetLow),
    {
        let r = self.rst.set_low();
        self.steps = Ghost(self.steps@.push(LineStep::ResetLow));
        r
    }

    /// Drives the reset line high.
    pub fn set_high(&mut self) -> (r: Result<(), PinE>)
        ensures
            final(self).reset_pin().ops() == old(self).reset_pin().ops().push(PinOp::SetHigh(r)),
            final(self).bus() == old(self).bus(),
            final(self).steps() == old(self).steps().push(LineStep::ResetHigh),
    {
        let r = self.rst.set_high();
        self.steps = Ghost(self.steps@.push(LineStep::ResetHigh));
        r
    }

    /// Waits `us` microseconds on `delay_source`.
    pub fn wait<D: DelayUs>(&mut self, delay_source: &mut D, us: u32)
        ensures
            final(delay_source).waits() == old(delay_source).waits().push(us),
            final(self).bus() == old(self).bus(),
            final(self).reset_pin() == old(self).reset_pin(),
            final(self).steps() == old(self).steps().push(LineStep::Wait(us)),
    {
        delay_source.delay_us(us);
        self.steps = Ghost(self.steps@.push(LineStep::Wait(us)));
    }

    /// Writes `bytes` to the device at `address`.
    pub fn write(&mut self, address: u8, bytes: &[u8]) -> (r: Result<(), CommE>)
        ensures
            final(self).bus().ops() == old(self).bus().ops().push(BusOp::Write(address, bytes@, r)),
            final(self).reset_pin() == old(self).reset_pin(),
            final(self).steps() == old(self).steps().push(LineStep::Write(address, bytes@)),
    {
        let r = self.i2c.write(address, bytes);
        self.steps = Ghost(self.steps@.push(LineStep::Write(address, bytes@)));
        r
    }

    /// Writes `bytes` (a register address) to the device at `address`, then reads into
    /// `buffer`.
    pub fn write_read(&mut self, address: u8, bytes: &[u8], buffer: &mut [u8]) -> (r: Result<(), CommE>)
        ensures
            final(self).bus().ops() == old(self).bus().ops().push(
                BusOp::WriteRead(address, bytes@, final(buffer)@, r),
            ),
            final(buffer)@.len() == old(buffer)@.len(),
            final(self).reset_pin() == old(self).reset_pin(),
            final(self).steps() == old(self).steps().push(LineStep::WriteRead(address, bytes@)),
    {
        let r = self.i2c.write_read(address, bytes, buffer);
        self.steps = Ghost(self.steps@.push(LineStep::WriteRead(address, bytes@)));
        r
    }
}

} // verus!
