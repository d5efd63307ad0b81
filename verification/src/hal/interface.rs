//! Capability contracts: what each class of peripheral can do, whatever
//! stands behind it. Drivers are written against these traits alone.
//!
//! A handle cannot promise what a device will answer. What it can account
//! for is what it was asked to do, so each contract names a history of the
//! handle's own completed operations, and each method says how it extends
//! that history.

use vstd::prelude::*;
use crate::error::HalResult;

verus! {

/// One completed operation on an addressed bus: the device it went to, the
/// bytes sent to it and the bytes it handed back.
pub struct I2cExchange {
    pub address: u8,
    pub written: Seq<u8>,
    pub read: Seq<u8>,
}

impl I2cExchange {
    /// A write of `bytes` to the device at `address`.
    pub open spec fn write(address: u8, bytes: Seq<u8>) -> I2cExchange {
        I2cExchange { address, written: bytes, read: Seq::empty() }
    }

    /// A read from the device at `address` that filled the buffer with `data`.
    pub open spec fn read(address: u8, data: Seq<u8>) -> I2cExchange {
        I2cExchange { address, written: Seq::empty(), read: data }
    }
}

/// One completed operation on a transfer bus: the bytes clocked out and the
/// contents of the caller's buffer afterwards.
pub struct SpiExchange {
    pub sent: Seq<u8>,
    pub received: Seq<u8>,
}

/// Whether an operation succeeded, and the fault with which it did not:
/// the result without the value that a success carries.
pub open spec fn outcome<T>(r: HalResult<T>) -> HalResult<()> {
    match r {
        Ok(_) => Ok(()),
        Err(e) => Err(e),
    }
}

/// A pin that can be driven high or low.
pub trait OutputPin {
    /// The levels this handle has driven onto the pin, oldest first.
    spec fn driven(&self) -> Seq<bool>;

    /// What one call of `set_high` does to a handle and what it returns:
    /// each kind of pin says here when the write succeeds, with which fault
    /// it fails, and what else of the handle it touches.
    spec fn drives_high(before: &Self, after: &Self, r: HalResult<()>) -> bool;

    /// What one call of `set_low` does to a handle and what it returns.
    spec fn drives_low(before: &Self, after: &Self, r: HalResult<()>) -> bool;

    fn set_high(&mut self) -> (r: HalResult<()>)
        ensures
            Self::drives_high(&*old(self), &*final(self), r),
            r is Ok ==> final(self).driven() == old(self).driven().push(true),
            r is Err ==> final(self).driven() == old(self).driven(),
    ;

    fn set_low(&mut self) -> (r: HalResult<()>)
        ensures
            Self::drives_low(&*old(self), &*final(self), r),
            r is Ok ==> final(self).driven() == old(self).driven().push(false),
            r is Err ==> final(self).driven() == old(self).driven(),
    ;

    /// Drives the pin to `state`: one call of `set_high` where `state` is
    /// true, one call of `set_low` where it is false, and nothing besides.
    /// It succeeds and fails exactly as that call does.
    fn set_state(&mut self, state: bool) -> (r: HalResult<()>)
        ensures
            state ==> Self::drives_high(&*old(self), &*final(self), r),
            !state ==> Self::drives_low(&*old(self), &*final(self), r),
            r is Ok ==> final(self).driven() == old(self).driven().push(state),
            r is Err ==> final(self).driven() == old(self).driven(),
    {
        if state {
            self.set_high()
        } else {
            self.set_low()
        }
    }
}

/// A pin whose level can be read.
pub trait InputPin {
    fn is_high(&self) -> (r: HalResult<bool>);

    /// The negation of one reading taken with `is_high`: the answer is never
    /// formed from a reading of its own.
    fn is_low(&self) -> (r: HalResult<bool>)
        ensures
            match r {
                Ok(low) => call_ensures(Self::is_high, (self,), Ok(!low)),
                Err(e) => call_ensures(Self::is_high, (self,), Err(e)),
            },
    {
        match self.is_high() {
            Ok(high) => Ok(!high),
            Err(e) => Err(e),
        }
    }
}

/// An addressed read/write bus, in the manner of I2C.
pub trait I2cBus {
    /// The operations this handle has completed, oldest first.
    spec fn exchanges(&self) -> Seq<I2cExchange>;

    /// What one call of `write` to the device at `address` does to a handle
    /// and what it returns: each kind of bus says here when the write
    /// succeeds and with which fault it fails.
    spec fn writes(before: &Self, after: &Self, address: u8, r: HalResult<()>) -> bool;

    /// What one call of `read` from the device at `address` does to a handle
    /// and what it returns.
    spec fn reads(before: &Self, after: &Self, address: u8, r: HalResult<()>) -> bool;

    /// What one call of `write_read` with the device at `address` does to a
    /// handle and what it returns.
    spec fn writes_and_reads(before: &Self, after: &Self, address: u8, r: HalResult<()>) -> bool;

    fn write(&mut self, address: u8, bytes: &[u8]) -> (r: HalResult<()>)
        ensures
            Self::writes(&*old(self), &*final(self), address, r),
            r is Ok ==> final(self).exchanges() == old(self).exchanges().push(
                I2cExchange::write(address, bytes@),
            ),
            r is Err ==> final(self).exchanges() == old(self).exchanges(),
    ;

    fn read(&mut self, address: u8, buffer: &mut [u8]) -> (r: HalResult<()>)
        ensures
            Self::reads(&*old(self), &*final(self), address, r),
            final(buffer)@.len() == old(buffer)@.len(),
            r is Ok ==> final(self).exchanges() == old(self).exchanges().push(
                I2cExchange::read(address, final(buffer)@),
            ),
            r is Err ==> final(self).exchanges() == old(self).exchanges(),
    ;

    /// A write followed by a read. The write is complete before the read
    /// begins; no more is promised of the timing between them.
    fn write_read(&mut self, address: u8, bytes_to_write: &[u8], buffer_to_read: &mut [u8]) -> (r:
        HalResult<()>)
        ensures
            Self::writes_and_reads(&*old(self), &*final(self), address, r),
            final(buffer_to_read)@.len() == old(buffer_to_read)@.len(),
            r is Ok ==> final(self).exchanges() == old(self).exchanges().push(
                I2cExchange::write(address, bytes_to_write@),
            ).push(I2cExchange::read(address, final(buffer_to_read)@)),
            r is Err ==> {
                ||| final(self).exchanges() == old(self).exchanges()
                ||| final(self).exchanges() == old(self).exchanges().push(
                    I2cExchange::write(address, bytes_to_write@),
                )
            },
    ;
}

/// A full-duplex transfer bus, in the manner of SPI.
pub trait SpiBus {
    /// The operations this handle has completed, oldest first.
    spec fn exchanges(&self) -> Seq<SpiExchange>;

    /// What one call of `transfer` does to a handle and whether it
    /// succeeds: each kind of bus says here when it does and with which
    /// fault it fails.
    spec fn transfers(before: &Self, after: &Self, r: HalResult<()>) -> bool;

    /// What one call of `write` does to a handle and what it returns.
    spec fn sends(before: &Self, after: &Self, r: HalResult<()>) -> bool;

    /// Clocks the buffer out and the device's answer in. The result is the
    /// part of the buffer that now holds the answer, from its first byte on.
    fn transfer<'w>(&mut self, buffer: &'w mut [u8]) -> (r: HalResult<&'w [u8]>)
        ensures
            Self::transfers(&*old(self), &*final(self), outcome(r)),
            final(buffer)@.len() == old(buffer)@.len(),
            match r {
                Ok(answer) => {
                    &&& answer@.len() <= final(buffer)@.len()
                    &&& answer@ == final(buffer)@.subrange(0, answer@.len() as int)
                    &&& final(self).exchanges() == old(self).exchanges().push(
                        SpiExchange { sent: old(buffer)@, received: final(buffer)@ },
                    )
                },
                Err(_) => final(self).exchanges() == old(self).exchanges(),
            },
    ;

    fn write(&mut self, bytes: &[u8]) -> (r: HalResult<()>)
        ensures
            Self::sends(&*old(self), &*final(self), r),
            r is Ok ==> final(self).exchanges() == old(self).exchanges().push(
                SpiExchange { sent: bytes@, received: Seq::empty() },
            ),
            r is Err ==> final(self).exchanges() == old(self).exchanges(),
    ;
}

/// A source of blocking delays counted in microseconds.
pub trait DelayUs {
    /// The microseconds of delay asked of this source so far.
    spec fn requested_us(&self) -> nat;

    /// Returns once at least `us` microseconds have passed.
    fn delay_us(&mut self, us: u32)
        ensures
            final(self).requested_us() == old(self).requested_us() + us,
    ;
}

/// A source of blocking delays counted in milliseconds.
pub trait DelayMs {
    /// The milliseconds of delay asked of this source so far.
    spec fn requested_ms(&self) -> nat;

    /// Returns once at least `ms` milliseconds have passed.
    fn delay_ms(&mut self, ms: u32)
        ensures
            final(self).requested_ms() == old(self).requested_ms() + ms,
    ;
}

/// A delay source that counts in both units.
pub trait Delay: DelayUs + DelayMs {

}

impl<T: DelayUs + DelayMs> Delay for T {

}

/// An analog input that converts one channel at a time.
pub trait Adc<WORD> {
    type Error;

    fn read(&mut self, channel: u8) -> (r: core::result::Result<WORD, Self::Error>);
}

/// A whole board: the factory that hands out its peripherals by identifier.
pub trait FullHardwareAbstraction {
    type GpioPin: OutputPin + InputPin;

    type I2cController: I2cBus;

    type SpiController: SpiBus;

    type TimerDelay: Delay;

    /// Whether the board has a pin with this identifier.
    spec fn has_gpio_pin(&self, pin_id: u8) -> bool;

    /// Whether the board has an addressed bus with this identifier.
    spec fn has_i2c_bus(&self, bus_id: u8) -> bool;

    /// Whether the board has a transfer bus with this identifier.
    spec fn has_spi_bus(&self, bus_id: u8) -> bool;

    fn get_gpio_pin(&self, pin_id: u8) -> (r: Option<Self::GpioPin>)
        ensures
            r is Some <==> self.has_gpio_pin(pin_id),
    ;

    fn get_i2c_bus(&self, bus_id: u8) -> (r: Option<Self::I2cController>)
        ensures
            r is Some <==> self.has_i2c_bus(bus_id),
    ;

    fn get_spi_bus(&self, bus_id: u8) -> (r: Option<Self::SpiController>)
        ensures
            r is Some <==> self.has_spi_bus(bus_id),
    ;

    fn get_delay_timer(&self) -> (r: Self::TimerDelay);
}

} // verus!
