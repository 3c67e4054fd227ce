//! The display driver: runs protocol steps on an I2C bus device and keeps a
//! ghost record of every step that went through.
use crate::protocol::{init_sequence, init_steps, text_sequence, text_steps, BusStep, BUS_ADDRESS};
use linux_embedded_hal::{I2CError, I2cdev};
use vstd::prelude::*;
use vstd::utf8::encode_utf8;

verus! {

#[verifier::external_type_specification]
#[verifier::external_body]
pub struct ExI2cdev(I2cdev);

#[verifier::external_type_specification]
#[verifier::external_body]
pub struct ExI2CError(I2CError);

/// Relies on `embedded_hal::i2c::I2c::write` as `linux_embedded_hal::I2cdev`
/// implements it: one write transaction of `byte` to the device at
/// `address`. Whether it succeeds is up to the hardware.
#[verifier::external_body]
fn bus_write(bus: &mut I2cdev, address: u8, byte: u8) -> (r: Result<(), I2CError>) {
    embedded_hal::i2c::I2c::write(bus, address, &[byte])
}

/// Relies on `embedded_hal::delay::DelayNs::delay_us` as
/// `linux_embedded_hal::Delay` implements it: the calling thread sleeps for
/// at least `us` microseconds.
#[verifier::external_body]
fn pause_us(us: u32) {
    embedded_hal::delay::DelayNs::delay_us(&mut linux_embedded_hal::Delay, us)
}

/// A failure of the display driver.
pub enum DriverError {
    /// A write on the bus failed; the operation stopped there.
    Bus(I2CError),
}

/// `after` is `before` followed by what a run of `steps` got through: all of
/// them when `ok`, else every step ahead of a write that failed.
pub open spec fn ran(before: Seq<BusStep>, after: Seq<BusStep>, steps: Seq<BusStep>, ok: bool) -> bool {
    if ok {
        after == before + steps
    } else {
        exists|k: int|
            0 <= k < steps.len() && #[trigger] steps[k] is Write && after == before + steps.take(k)
    }
}

/// A character display behind an I2C port expander.
pub struct Display {
    i2c: I2cdev,
    initialized: bool,
    done: Ghost<Seq<BusStep>>,
}

impl Display {
    /// Every step that went through on this display, oldest first.
    pub closed spec fn completed(&self) -> Seq<BusStep> {
        self.done@
    }

    /// Whether the last power-on sequence went through whole.
    pub closed spec fn ready(&self) -> bool {
        self.initialized
    }

    /// Takes the bus device and runs the power-on sequence on it. A failure
    /// leaves the display unready; it is not retried.
    pub fn new(i2c: I2cdev) -> (r: Self)
        ensures
            ran(Seq::empty(), r.completed(), init_steps(), r.ready()),
    {
        let mut display = Display { i2c, initialized: false, done: Ghost(Seq::empty()) };
        let _ = display.init();
        display
    }

    /// Whether the power-on sequence went through whole.
    pub fn is_initialized(&self) -> (r: bool)
        ensures
            r == self.ready(),
    {
        self.initialized
    }

    fn run(&mut self, steps: &Vec<BusStep>) -> (r: Result<(), DriverError>)
        ensures
            ran(old(self).completed(), final(self).completed(), steps@, r is Ok),
            final(self).ready() == old(self).ready(),
    {
        let ghost start = self.done@;
        let mut i: usize = 0;
        while i < steps.len()
            invariant
                i <= steps@.len(),
                start == old(self).done@,
                self.done@ == start + steps@.take(i as int),
                self.initialized == old(self).initialized,
            decreases steps@.len() - i,
        {
            match steps[i] {
                BusStep::Write(byte) => {
                    if let Err(e) = bus_write(&mut self.i2c, BUS_ADDRESS, byte) {
                        assert(steps@[i as int] is Write);
                        assert(self.done@ == start + steps@.take(i as int));
                        return Err(DriverError::Bus(e));
                    }
                },
                BusStep::Pause(us) => {
                    pause_us(us);
                },
            }
            self.done = Ghost(self.done@.push(steps@[i as int]));
            assert(steps@.take(i + 1) =~= steps@.take(i as int).push(steps@[i as int]));
            i = i + 1;
        }
        assert(steps@.take(i as int) =~= steps@);
        Ok(())
    }

    /// Runs the power-on sequence: wake-up nibbles, the switch to 4-bit
    /// transfers, line count and font, display on, entry mode, clear.
    pub fn init(&mut self) -> (r: Result<(), DriverError>)
        ensures
            ran(old(self).completed(), final(self).completed(), init_steps(), r is Ok),
            final(self).ready() == r is Ok,
    {
        let steps = init_sequence();
        let r = self.run(&steps);
        self.initialized = r.is_ok();
        r
    }

    /// Clears the screen and writes `line1` on the first line and `line2`
    /// on the second, byte for byte, with no cut or wrap.
    pub fn write_text(&mut self, line1: &str, line2: &str) -> (r: Result<(), DriverError>)
        ensures
            ran(
                old(self).completed(),
                final(self).completed(),
                text_steps(encode_utf8(line1@), encode_utf8(line2@)),
                r is Ok,
            ),
            final(self).ready() == old(self).ready(),
    {
        let steps = text_sequence(line1, line2);
        self.run(&steps)
    }
}

} // verus!
