//! The simulated board as the rest of the system meets it: a factory, and
//! the handles it gives out for pins, buses and delays. Every handle of one
//! board reaches the same record of state, through the same lock.

use vstd::prelude::*;
use vstd::slice::slice_subrange;
use crate::config::{DUMMY_I2C_BUS, DUMMY_IMU_ADDR, DUMMY_RADIO_SPI_BUS};
use crate::error::{HalError, HalResult};
use crate::hal::board::{DummyHardwareState, SensorNoise, IMU_REGISTER_COUNT};
use crate::hal::interface::{
    DelayMs, DelayUs, FullHardwareAbstraction, I2cBus, I2cExchange, InputPin, OutputPin, SpiBus,
    SpiExchange,
};
use crate::kernel::sync::{get_time, guard_mut, Mutex};

verus! {

/// Microseconds that the addressed bus waits between the write and the read
/// of a combined operation.
pub const I2C_TURNAROUND_US: u32 = 50;

/// Microseconds in a millisecond.
pub const MICROS_PER_MILLI: u64 = 1000;

/// A handle to one pin of the simulated board.
pub struct DummyPin {
    pin_id: u8,
    board: Mutex<DummyHardwareState>,
    driven: Ghost<Seq<bool>>,
}

impl DummyPin {
    /// The pin that this handle stands for.
    pub closed spec fn id(&self) -> u8 {
        self.pin_id
    }
}

impl Clone for DummyPin {
    /// Another handle to the same pin, with the same history.
    fn clone(&self) -> (r: Self)
        ensures
            r.id() == self.id(),
            r.driven() == self.driven(),
    {
        DummyPin { pin_id: self.pin_id, board: self.board.clone(), driven: self.driven }
    }
}

impl OutputPin for DummyPin {
    closed spec fn driven(&self) -> Seq<bool> {
        self.driven@
    }

    /// A write of the simulated pin always succeeds, and the handle goes on
    /// standing for the same pin.
    open spec fn drives_high(before: &Self, after: &Self, r: HalResult<()>) -> bool {
        r is Ok && after.id() == before.id() && after.driven() == before.driven().push(true)
    }

    open spec fn drives_low(before: &Self, after: &Self, r: HalResult<()>) -> bool {
        r is Ok && after.id() == before.id() && after.driven() == before.driven().push(false)
    }

    /// Records a high level for the pin. This cannot fail.
    fn set_high(&mut self) -> (r: HalResult<()>)
        ensures
            r is Ok,
            final(self).id() == old(self).id(),
    {
        let mut guard = self.board.acquire();
        guard_mut(&mut guard).write_pin(self.pin_id, true);
        self.driven = Ghost(self.driven@.push(true));
        Ok(())
    }

    /// Records a low level for the pin. This cannot fail.
    fn set_low(&mut self) -> (r: HalResult<()>)
        ensures
            r is Ok,
            final(self).id() == old(self).id(),
    {
        let mut guard = self.board.acquire();
        guard_mut(&mut guard).write_pin(self.pin_id, false);
        self.driven = Ghost(self.driven@.push(false));
        Ok(())
    }
}

impl InputPin for DummyPin {
    /// The level that the board holds for the pin at this moment. This
    /// cannot fail.
    fn is_high(&self) -> (r: HalResult<bool>)
        ensures
            r is Ok,
    {
        let mut guard = self.board.acquire();
        Ok(guard_mut(&mut guard).read_pin(self.pin_id))
    }
}

/// A handle to the addressed bus of the simulated board. It carries a delay
/// source of its own, for the pause inside a combined write and read.
pub struct DummyI2c<F: Fn(u64) + Copy> {
    bus_id: u8,
    board: Mutex<DummyHardwareState>,
    turnaround: DummyDelay<F>,
    exchanges: Ghost<Seq<I2cExchange>>,
}

impl<F: Fn(u64) + Copy> DummyI2c<F> {
    /// The bus that this handle stands for.
    pub closed spec fn id(&self) -> u8 {
        self.bus_id
    }

    /// The delay source behind this handle.
    pub closed spec fn turnaround(&self) -> DummyDelay<F> {
        self.turnaround
    }
}

impl<F: Fn(u64) + Copy> Clone for DummyI2c<F> {
    /// Another handle to the same bus, with the same history.
    fn clone(&self) -> (r: Self)
        ensures
            r.id() == self.id(),
            r.exchanges() == self.exchanges(),
    {
        DummyI2c {
            bus_id: self.bus_id,
            board: self.board.clone(),
            turnaround: self.turnaround.clone(),
            exchanges: self.exchanges,
        }
    }
}

impl<F: Fn(u64) + Copy> I2cBus for DummyI2c<F> {
    closed spec fn exchanges(&self) -> Seq<I2cExchange> {
        self.exchanges@
    }

    /// The inertial sensor is the one device on the simulated bus: an
    /// operation with its address succeeds, one with any other address
    /// fails with "device not recognized" and leaves the history as it was.
    open spec fn writes(before: &Self, after: &Self, address: u8, r: HalResult<()>) -> bool {
        &&& after.id() == before.id()
        &&& r is Ok <==> address == DUMMY_IMU_ADDR
        &&& r matches Err(e) ==> e == HalError::UnexpectedDevice && after.exchanges()
            == before.exchanges()
    }

    open spec fn reads(before: &Self, after: &Self, address: u8, r: HalResult<()>) -> bool {
        Self::writes(before, after, address, r)
    }

    open spec fn writes_and_reads(
        before: &Self,
        after: &Self,
        address: u8,
        r: HalResult<()>,
    ) -> bool {
        Self::writes(before, after, address, r)
    }

    /// Succeeds exactly where `address` is that of the inertial sensor, the
    /// one device on the bus. For any other address the fault is "device not
    /// recognized" and nothing has happened.
    fn write(&mut self, address: u8, bytes: &[u8]) -> (r: HalResult<()>)
        ensures
            r is Ok <==> address == DUMMY_IMU_ADDR,
            r matches Err(e) ==> e == HalError::UnexpectedDevice,
            final(self).turnaround() == old(self).turnaround(),
    {
        let mut guard = self.board.acquire();
        let r = guard_mut(&mut guard).i2c_write(address, bytes);
        if r.is_ok() {
            self.exchanges = Ghost(self.exchanges@.push(I2cExchange::write(address, bytes@)));
        }
        r
    }

    /// Succeeds exactly where `address` is that of the inertial sensor. For
    /// any other address the fault is "device not recognized", with the
    /// buffer as it was. A read that succeeds fills the buffer no further
    /// than the sensor has registers: what lies beyond stays as it was.
    fn read(&mut self, address: u8, buffer: &mut [u8]) -> (r: HalResult<()>)
        ensures
            r is Ok <==> address == DUMMY_IMU_ADDR,
            r matches Err(e) ==> e == HalError::UnexpectedDevice && final(buffer)@ == old(buffer)@,
            forall|i: int|
                IMU_REGISTER_COUNT <= i < old(buffer)@.len()
                    ==> final(buffer)@[i] == old(buffer)@[i],
            final(self).turnaround() == old(self).turnaround(),
    {
        let noise = if address == DUMMY_IMU_ADDR && buffer.len() >= IMU_REGISTER_COUNT {
            SensorNoise::sample()
        } else {
            SensorNoise::quiet()
        };
        let mut guard = self.board.acquire();
        let r = guard_mut(&mut guard).i2c_read(address, buffer, &noise);
        if r.is_ok() {
            self.exchanges = Ghost(self.exchanges@.push(I2cExchange::read(address, buffer@)));
        }
        r
    }

    /// A write, a pause of `I2C_TURNAROUND_US`, then a read. For an address
    /// that is not on the bus the write already fails: there is no pause, no
    /// read, and nothing has changed.
    fn write_read(&mut self, address: u8, bytes_to_write: &[u8], buffer_to_read: &mut [u8]) -> (r:
        HalResult<()>)
        ensures
            r is Ok <==> address == DUMMY_IMU_ADDR,
            r matches Err(e) ==> {
                &&& e == HalError::UnexpectedDevice
                &&& final(buffer_to_read)@ == old(buffer_to_read)@
                &&& final(self).exchanges() == old(self).exchanges()
                &&& final(self).turnaround() == old(self).turnaround()
            },
            forall|i: int|
                IMU_REGISTER_COUNT <= i < old(buffer_to_read)@.len()
                    ==> final(buffer_to_read)@[i] == old(buffer_to_read)@[i],
            r is Ok ==> final(self).turnaround().asked_us() == old(self).turnaround().asked_us()
                + I2C_TURNAROUND_US,
    {
        match self.write(address, bytes_to_write) {
            Ok(()) => {},
            Err(e) => {
                return Err(e);
            },
        }
        self.turnaround.pause_us(I2C_TURNAROUND_US);
        self.read(address, buffer_to_read)
    }
}

/// A handle to one transfer bus of the simulated board.
pub struct DummySpi {
    bus_id: u8,
    board: Mutex<DummyHardwareState>,
    exchanges: Ghost<Seq<SpiExchange>>,
}

impl DummySpi {
    /// The bus that this handle stands for.
    pub closed spec fn id(&self) -> u8 {
        self.bus_id
    }
}

impl Clone for DummySpi {
    /// Another handle to the same bus, with the same history.
    fn clone(&self) -> (r: Self)
        ensures
            r.id() == self.id(),
            r.exchanges() == self.exchanges(),
    {
        DummySpi { bus_id: self.bus_id, board: self.board.clone(), exchanges: self.exchanges }
    }
}

impl SpiBus for DummySpi {
    closed spec fn exchanges(&self) -> Seq<SpiExchange> {
        self.exchanges@
    }

    /// An operation on the simulated transfer bus always succeeds, and the
    /// handle goes on standing for the same bus.
    open spec fn transfers(before: &Self, after: &Self, r: HalResult<()>) -> bool {
        r is Ok && after.id() == before.id()
    }

    open spec fn sends(before: &Self, after: &Self, r: HalResult<()>) -> bool {
        r is Ok && after.id() == before.id()
    }

    /// Copies the answer stored for this bus over the start of the buffer
    /// and returns the part copied. This cannot fail.
    fn transfer<'w>(&mut self, buffer: &'w mut [u8]) -> (r: HalResult<&'w [u8]>)
        ensures
            r is Ok,
    {
        let ghost sent = buffer@;
        let mut guard = self.board.acquire();
        let copied = guard_mut(&mut guard).spi_transfer(self.bus_id, buffer);
        self.exchanges = Ghost(self.exchanges@.push(SpiExchange { sent, received: buffer@ }));
        Ok(slice_subrange(buffer, 0, copied))
    }

    /// Takes its turn at the board, and the bytes, and stores nothing. This
    /// cannot fail.
    fn write(&mut self, bytes: &[u8]) -> (r: HalResult<()>)
        ensures
            r is Ok,
    {
        let _guard = self.board.acquire();
        self.exchanges = Ghost(
            self.exchanges@.push(SpiExchange { sent: bytes@, received: Seq::empty() }),
        );
        Ok(())
    }
}

/// The delay source of the simulated board. The board has no clock of its
/// own: it waits by calling `pause`, which the host of the simulation gives
/// it and which blocks the caller for a number of microseconds. The board
/// adds the note of when a delay last ended.
pub struct DummyDelay<F: Fn(u64) + Copy> {
    pause: F,
    board: Mutex<DummyHardwareState>,
    requested_us: Ghost<nat>,
    requested_ms: Ghost<nat>,
}

impl<F: Fn(u64) + Copy> DummyDelay<F> {
    /// `pause` can be called with any number of microseconds.
    #[verifier::type_invariant]
    spec fn inv(self) -> bool {
        forall|micros: u64| call_requires(self.pause, (micros,))
    }

    /// The function that this source waits by.
    pub closed spec fn pause_fn(&self) -> F {
        self.pause
    }

    /// The microseconds asked of this source through `delay_us`.
    pub closed spec fn asked_us(&self) -> nat {
        self.requested_us@
    }

    /// The milliseconds asked of this source through `delay_ms`.
    pub closed spec fn asked_ms(&self) -> nat {
        self.requested_ms@
    }

    /// Pauses for `us` microseconds and leaves no note of it on the board.
    fn pause_us(&mut self, us: u32)
        ensures
            call_ensures(old(self).pause_fn(), (us as u64,), ()),
            final(self).pause_fn() == old(self).pause_fn(),
            final(self).asked_us() == old(self).asked_us() + us,
            final(self).asked_ms() == old(self).asked_ms(),
    {
        proof {
            use_type_invariant(&*self);
        }
        (self.pause)(us as u64);
        self.requested_us = Ghost(self.requested_us@ + us as nat);
    }
}

impl<F: Fn(u64) + Copy> Clone for DummyDelay<F> {
    /// Another delay source of the same board, with the same count of what
    /// was asked of it.
    fn clone(&self) -> (r: Self)
        ensures
            r.pause_fn() == self.pause_fn(),
            r.asked_us() == self.asked_us(),
            r.asked_ms() == self.asked_ms(),
    {
        proof {
            use_type_invariant(self);
        }
        DummyDelay {
            pause: self.pause,
            board: self.board.clone(),
            requested_us: self.requested_us,
            requested_ms: self.requested_ms,
        }
    }
}

impl<F: Fn(u64) + Copy> DelayUs for DummyDelay<F> {
    open spec fn requested_us(&self) -> nat {
        self.asked_us()
    }

    /// Waits by one call of the pause function, with `us` microseconds.
    fn delay_us(&mut self, us: u32)
        ensures
            call_ensures(old(self).pause_fn(), (us as u64,), ()),
            final(self).pause_fn() == old(self).pause_fn(),
            final(self).asked_ms() == old(self).asked_ms(),
    {
        self.pause_us(us);
        let mut guard = self.board.acquire();
        guard_mut(&mut guard).touch_delay(get_time());
    }
}

impl<F: Fn(u64) + Copy> DelayMs for DummyDelay<F> {
    open spec fn requested_ms(&self) -> nat {
        self.asked_ms()
    }

    /// Waits by one call of the pause function, with `ms` milliseconds
    /// counted out in microseconds.
    fn delay_ms(&mut self, ms: u32)
        ensures
            call_ensures(old(self).pause_fn(), ((ms * MICROS_PER_MILLI) as u64,), ()),
            final(self).pause_fn() == old(self).pause_fn(),
            final(self).asked_us() == old(self).asked_us(),
    {
        proof {
            use_type_invariant(&*self);
        }
        (self.pause)(ms as u64 * MICROS_PER_MILLI);
        self.requested_ms = Ghost(self.requested_ms@ + ms as nat);
        let mut guard = self.board.acquire();
        guard_mut(&mut guard).touch_delay(get_time());
    }
}

/// The simulated board as a whole. Every handle that it gives out shares
/// the one record of the board's state.
pub struct DummyHal<F: Fn(u64) + Copy> {
    board: Mutex<DummyHardwareState>,
    delay: DummyDelay<F>,
}

impl<F: Fn(u64) + Copy> FullHardwareAbstraction for DummyHal<F> {
    type GpioPin = DummyPin;

    type I2cController = DummyI2c<F>;

    type SpiController = DummySpi;

    type TimerDelay = DummyDelay<F>;

    /// Every pin identifier names a pin.
    open spec fn has_gpio_pin(&self, pin_id: u8) -> bool {
        true
    }

    /// The board has one addressed bus.
    open spec fn has_i2c_bus(&self, bus_id: u8) -> bool {
        bus_id == DUMMY_I2C_BUS
    }

    /// The board has one transfer bus, the one that the radio sits on.
    open spec fn has_spi_bus(&self, bus_id: u8) -> bool {
        bus_id == DUMMY_RADIO_SPI_BUS
    }

    /// A fresh handle to the pin.
    fn get_gpio_pin(&self, pin_id: u8) -> (r: Option<DummyPin>)
        ensures
            r matches Some(pin) && pin.id() == pin_id && pin.driven() == Seq::<bool>::empty(),
    {
        Some(DummyPin { pin_id, board: self.board.clone(), driven: Ghost(Seq::empty()) })
    }

    /// A fresh handle to the bus, if `bus_id` names it.
    fn get_i2c_bus(&self, bus_id: u8) -> (r: Option<DummyI2c<F>>)
        ensures
            r matches Some(bus) ==> {
                &&& bus.id() == bus_id
                &&& bus.exchanges() == Seq::<I2cExchange>::empty()
                &&& bus.turnaround().pause_fn() == self.pause_fn()
            },
    {
        if bus_id == DUMMY_I2C_BUS {
            Some(
                DummyI2c {
                    bus_id,
                    board: self.board.clone(),
                    turnaround: self.delay.clone(),
                    exchanges: Ghost(Seq::empty()),
                },
            )
        } else {
            None
        }
    }

    /// A fresh handle to the bus, if `bus_id` names it.
    fn get_spi_bus(&self, bus_id: u8) -> (r: Option<DummySpi>)
        ensures
            r matches Some(bus) ==> bus.id() == bus_id && bus.exchanges() == Seq::<
                SpiExchange,
            >::empty(),
    {
        if bus_id == DUMMY_RADIO_SPI_BUS {
            Some(DummySpi { bus_id, board: self.board.clone(), exchanges: Ghost(Seq::empty()) })
        } else {
            None
        }
    }

    /// A delay source that nothing has been asked of yet.
    fn get_delay_timer(&self) -> (r: DummyDelay<F>)
        ensures
            r.pause_fn() == self.pause_fn(),
            r.asked_us() == 0,
            r.asked_ms() == 0,
    {
        proof {
            use_type_invariant(self);
        }
        self.delay.clone()
    }
}

impl<F: Fn(u64) + Copy> DummyHal<F> {
    /// The function that the board and all its handles wait by.
    pub closed spec fn pause_fn(&self) -> F {
        self.delay.pause_fn()
    }

    /// The board's own delay source is never used to wait, only copied.
    #[verifier::type_invariant]
    spec fn inv(self) -> bool {
        self.delay.asked_us() == 0 && self.delay.asked_ms() == 0
    }
}

/// Switches on a simulated board. `pause` is how the board waits: a function
/// that blocks its caller for the given number of microseconds.
pub fn get_dummy_hal<F: Fn(u64) + Copy>(pause: F) -> (r: DummyHal<F>)
    requires
        forall|micros: u64| call_requires(pause, (micros,)),
    ensures
        r.pause_fn() == pause,
{
    let board = Mutex::new(DummyHardwareState::new());
    let delay = DummyDelay {
        pause,
        board: board.clone(),
        requested_us: Ghost(0),
        requested_ms: Ghost(0),
    };
    DummyHal { board, delay }
}

} // verus!
