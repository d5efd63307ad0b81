//! An inertial sensor on an addressed bus.
//!
//! The driver brings the sensor up, reads all of its measurement registers
//! in one operation and hands them out as the seven signed words they hold.
//! It also carries the sensor's two scale factors, by which a caller turns
//! the words into physical units.

use vstd::prelude::*;
use crate::endian::{i16_from_be, read_i16_be};
use crate::error::{DriverError, DriverResult, HalError, HalResult, RocketError, RocketResult};
use crate::hal::interface::{DelayMs, I2cBus, I2cExchange};

verus! {

/// First of the measurement registers: the high byte of acceleration on x.
pub const ACCEL_X_H: u8 = 0x3B;

/// The register that holds the sensor's identity.
pub const WHO_AM_I: u8 = 0x75;

/// Measurement registers: six bytes of acceleration, two of temperature,
/// six of angular rate.
pub const SAMPLE_LEN: usize = 14;

/// Milliseconds the sensor is given to start up.
pub const STARTUP_MS: u32 = 100;

/// Milliseconds the sensor is given to settle at the end of bring-up.
pub const SETTLE_MS: u32 = 50;

/// Counts per g of acceleration, in the range of two g either way.
pub const ACCEL_COUNTS_PER_G: u16 = 16384;

/// Counts per degree per second of angular rate, in the range of 250
/// degrees per second either way.
pub const GYRO_COUNTS_PER_DPS: u16 = 131;

/// One reading of the sensor, as the signed words in its registers:
/// acceleration and angular rate on x, y and z, and temperature.
#[derive(Debug, Clone, Copy, PartialEq, Eq)]
pub struct RawImuData {
    pub accel: [i16; 3],
    pub gyro: [i16; 3],
    pub temp: i16,
}

/// The signed word that the registers hold at `at` and `at + 1`, most
/// significant byte first.
pub open spec fn word_at(registers: Seq<u8>, at: int) -> int {
    i16_from_be(registers[at], registers[at + 1])
}

/// Whether `sample` is what the fourteen measurement registers say: three
/// words of acceleration, one of temperature, three of angular rate, in
/// that order.
pub open spec fn decodes_to(registers: Seq<u8>, sample: RawImuData) -> bool {
    &&& sample.accel@.len() == 3
    &&& sample.accel@[0] == word_at(registers, 0)
    &&& sample.accel@[1] == word_at(registers, 2)
    &&& sample.accel@[2] == word_at(registers, 4)
    &&& sample.temp == word_at(registers, 6)
    &&& sample.gyro@.len() == 3
    &&& sample.gyro@[0] == word_at(registers, 8)
    &&& sample.gyro@[1] == word_at(registers, 10)
    &&& sample.gyro@[2] == word_at(registers, 12)
}

/// Reads the seven words out of a copy of the measurement registers.
pub fn decode_sample(registers: &[u8; 14]) -> (sample: RawImuData)
    ensures
        decodes_to(registers@, sample),
{
    RawImuData {
        accel: [
            read_i16_be(registers[0], registers[1]),
            read_i16_be(registers[2], registers[3]),
            read_i16_be(registers[4], registers[5]),
        ],
        temp: read_i16_be(registers[6], registers[7]),
        gyro: [
            read_i16_be(registers[8], registers[9]),
            read_i16_be(registers[10], registers[11]),
            read_i16_be(registers[12], registers[13]),
        ],
    }
}

/// The sensor, the bus and delay source it is reached through, and its
/// scale factors.
pub struct Imu<I2C: I2cBus, DELAY: DelayMs> {
    i2c: I2C,
    delay: DELAY,
    address: u8,
    accel_scale: u16,
    gyro_scale: u16,
}

/// The two operations that reading `len` bytes from `register` of the
/// device at `address` puts on the bus: the register's number written, then
/// `data` read.
pub open spec fn register_read(
    before: Seq<I2cExchange>,
    address: u8,
    register: u8,
    data: Seq<u8>,
) -> Seq<I2cExchange> {
    before.push(I2cExchange::write(address, seq![register])).push(
        I2cExchange::read(address, data),
    )
}

impl<I2C: I2cBus, DELAY: DelayMs> Imu<I2C, DELAY> {
    /// The bus the sensor sits on.
    pub closed spec fn i2c(&self) -> I2C {
        self.i2c
    }

    /// The delay source.
    pub closed spec fn delay(&self) -> DELAY {
        self.delay
    }

    /// The sensor's address on the bus.
    pub closed spec fn device(&self) -> u8 {
        self.address
    }

    /// Counts per g, as `accel_scale` returns it.
    pub closed spec fn accel_counts(&self) -> u16 {
        self.accel_scale
    }

    /// Counts per degree per second, as `gyro_scale` returns it.
    pub closed spec fn gyro_counts(&self) -> u16 {
        self.gyro_scale
    }

    /// What bring-up does: a pause for the sensor to start, one read of the
    /// identity register, a pause to settle. Bring-up ends as that read
    /// ends: if the bus fails, it ends there with the bus's own fault inside
    /// a driver fault, and the second pause is not taken.
    pub open spec fn brought_up(before: Self, after: Self, r: DriverResult<()>) -> bool {
        &&& after.device() == before.device()
        &&& after.accel_counts() == before.accel_counts()
        &&& after.gyro_counts() == before.gyro_counts()
        &&& match r {
            Ok(()) => {
                &&& after.delay().requested_ms() == before.delay().requested_ms() + STARTUP_MS
                    + SETTLE_MS
                &&& after.i2c().exchanges().len() == before.i2c().exchanges().len() + 2
                &&& after.i2c().exchanges().last().read.len() == 1
                &&& after.i2c().exchanges() == register_read(
                    before.i2c().exchanges(),
                    before.device(),
                    WHO_AM_I,
                    after.i2c().exchanges().last().read,
                )
                &&& exists|answered: HalResult<()>|
                    answered is Ok && #[trigger] I2C::writes_and_reads(
                        &before.i2c(),
                        &after.i2c(),
                        before.device(),
                        answered,
                    )
            },
            Err(e) => {
                &&& e matches DriverError::HalError(fault)
                &&& I2C::writes_and_reads(
                    &before.i2c(),
                    &after.i2c(),
                    before.device(),
                    Err::<(), HalError>(fault),
                )
                &&& after.delay().requested_ms() == before.delay().requested_ms() + STARTUP_MS
            },
        }
    }

    /// What a failed read of `register` leaves behind: the fault is the
    /// bus's own, from the one combined operation that was tried, inside a
    /// driver fault; of that operation the bus has completed nothing, or
    /// the write of the register's number alone.
    pub open spec fn bus_failed(before: Self, after: Self, register: u8, e: DriverError) -> bool {
        &&& e matches DriverError::HalError(fault)
        &&& I2C::writes_and_reads(
            &before.i2c(),
            &after.i2c(),
            before.device(),
            Err::<(), HalError>(fault),
        )
        &&& {
            ||| after.i2c().exchanges() == before.i2c().exchanges()
            ||| after.i2c().exchanges() == before.i2c().exchanges().push(
                I2cExchange::write(before.device(), seq![register]),
            )
        }
    }

    /// Takes the bus and the delay source and brings up the sensor at
    /// `address`, with the scale factors of its default ranges. It succeeds
    /// if the read of the identity register succeeds, and fails if that
    /// read fails: the fault is then a driver fault that holds the bus's own
    /// fault.
    pub fn new(i2c: I2C, delay: DELAY, address: u8) -> (r: RocketResult<Self>)
        ensures
            match r {
                Ok(imu) => {
                    &&& imu.device() == address
                    &&& imu.accel_counts() == ACCEL_COUNTS_PER_G
                    &&& imu.gyro_counts() == GYRO_COUNTS_PER_DPS
                    &&& imu.delay().requested_ms() == delay.requested_ms() + STARTUP_MS + SETTLE_MS
                    &&& imu.i2c().exchanges().len() == i2c.exchanges().len() + 2
                    &&& imu.i2c().exchanges().last().read.len() == 1
                    &&& imu.i2c().exchanges() == register_read(
                        i2c.exchanges(),
                        address,
                        WHO_AM_I,
                        imu.i2c().exchanges().last().read,
                    )
                    &&& exists|answered: HalResult<()>|
                        answered is Ok && #[trigger] I2C::writes_and_reads(
                            &i2c,
                            &imu.i2c(),
                            address,
                            answered,
                        )
                },
                Err(e) => {
                    &&& e matches RocketError::Driver(DriverError::HalError(fault))
                    &&& exists|after: I2C| #[trigger]
                        I2C::writes_and_reads(&i2c, &after, address, Err::<(), HalError>(fault))
                },
            },
    {
        let mut imu = Imu {
            i2c,
            delay,
            address,
            accel_scale: ACCEL_COUNTS_PER_G,
            gyro_scale: GYRO_COUNTS_PER_DPS,
        };
        match imu.init() {
            Ok(()) => Ok(imu),
            Err(e) => Err(RocketError::from(e)),
        }
    }

    fn init(&mut self) -> (r: DriverResult<()>)
        ensures
            Self::brought_up(*old(self), *final(self), r),
    {
        self.delay.delay_ms(STARTUP_MS);
        match self.read_register(WHO_AM_I) {
            Ok(_) => {},
            Err(e) => {
                return Err(e);
            },
        }
        self.delay.delay_ms(SETTLE_MS);
        Ok(())
    }

    /// Writes one register of the sensor: its number, then the value, in
    /// one bus write.
    pub fn write_register(&mut self, register: u8, value: u8) -> (r: DriverResult<()>)
        ensures
            final(self).delay() == old(self).delay(),
            final(self).device() == old(self).device(),
            final(self).accel_counts() == old(self).accel_counts(),
            final(self).gyro_counts() == old(self).gyro_counts(),
            match r {
                Ok(()) => {
                    &&& final(self).i2c().exchanges() == old(self).i2c().exchanges().push(
                        I2cExchange::write(old(self).device(), seq![register, value]),
                    )
                    &&& exists|written: HalResult<()>|
                        written is Ok && #[trigger] I2C::writes(
                            &old(self).i2c(),
                            &final(self).i2c(),
                            old(self).device(),
                            written,
                        )
                },
                Err(e) => {
                    &&& e matches DriverError::HalError(fault)
                    &&& I2C::writes(
                        &old(self).i2c(),
                        &final(self).i2c(),
                        old(self).device(),
                        Err::<(), HalError>(fault),
                    )
                    &&& final(self).i2c().exchanges() == old(self).i2c().exchanges()
                },
            },
    {
        let bytes = [register, value];
        assert(bytes@ =~= seq![register, value]);
        match self.i2c.write(self.address, &bytes) {
            Ok(()) => Ok(()),
            Err(e) => Err(DriverError::from(e)),
        }
    }

    /// Reads one register of the sensor: its number written, one byte read,
    /// in one combined bus operation. The value is the byte read.
    pub fn read_register(&mut self, register: u8) -> (r: DriverResult<u8>)
        ensures
            final(self).delay() == old(self).delay(),
            final(self).device() == old(self).device(),
            final(self).accel_counts() == old(self).accel_counts(),
            final(self).gyro_counts() == old(self).gyro_counts(),
            match r {
                Ok(value) => {
                    &&& final(self).i2c().exchanges().len() == old(self).i2c().exchanges().len()
                        + 2
                    &&& final(self).i2c().exchanges() == register_read(
                        old(self).i2c().exchanges(),
                        old(self).device(),
                        register,
                        seq![value],
                    )
                    &&& exists|answered: HalResult<()>|
                        answered is Ok && #[trigger] I2C::writes_and_reads(
                            &old(self).i2c(),
                            &final(self).i2c(),
                            old(self).device(),
                            answered,
                        )
                },
                Err(e) => Self::bus_failed(*old(self), *final(self), register, e),
            },
    {
        let mut buffer = [0u8; 1];
        let request = [register];
        assert(request@ =~= seq![register]);
        match self.i2c.write_read(self.address, &request, &mut buffer) {
            Ok(()) => {
                assert(buffer@ =~= seq![buffer@[0]]);
                Ok(buffer[0])
            },
            Err(e) => Err(DriverError::from(e)),
        }
    }

    /// Reads the sensor: one combined bus operation that names the first
    /// measurement register and reads all fourteen, then the seven words
    /// taken out of what came back. Fails only if the bus fails; the fault
    /// is then the bus fault inside a driver fault.
    pub fn read_data(&mut self) -> (r: DriverResult<RawImuData>)
        ensures
            final(self).delay() == old(self).delay(),
            final(self).device() == old(self).device(),
            final(self).accel_counts() == old(self).accel_counts(),
            final(self).gyro_counts() == old(self).gyro_counts(),
            match r {
                Ok(sample) => {
                    &&& final(self).i2c().exchanges().len() == old(self).i2c().exchanges().len()
                        + 2
                    &&& final(self).i2c().exchanges().last().read.len() == SAMPLE_LEN
                    &&& final(self).i2c().exchanges() == register_read(
                        old(self).i2c().exchanges(),
                        old(self).device(),
                        ACCEL_X_H,
                        final(self).i2c().exchanges().last().read,
                    )
                    &&& decodes_to(final(self).i2c().exchanges().last().read, sample)
                    &&& exists|answered: HalResult<()>|
                        answered is Ok && #[trigger] I2C::writes_and_reads(
                            &old(self).i2c(),
                            &final(self).i2c(),
                            old(self).device(),
                            answered,
                        )
                },
                Err(e) => Self::bus_failed(*old(self), *final(self), ACCEL_X_H, e),
            },
    {
        let mut buffer = [0u8; 14];
        let request = [ACCEL_X_H];
        assert(request@ =~= seq![ACCEL_X_H]);
        match self.i2c.write_read(self.address, &request, &mut buffer) {
            Ok(()) => Ok(decode_sample(&buffer)),
            Err(e) => Err(DriverError::from(e)),
        }
    }

    /// Counts per g of acceleration in a reading.
    pub fn accel_scale(&self) -> (r: u16)
        ensures
            r == self.accel_counts(),
    {
        self.accel_scale
    }

    /// Counts per degree per second of angular rate in a reading.
    pub fn gyro_scale(&self) -> (r: u16)
        ensures
            r == self.gyro_counts(),
    {
        self.gyro_scale
    }
}

} // verus!
