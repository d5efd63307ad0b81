//! The state of the simulated board and the rules by which it changes.
//!
//! One record holds the level of every pin, the register memory of every
//! device on the addressed bus, and the answer stored for every transfer
//! bus. Each operation of the board is a function on that record with an
//! exact contract; nothing here knows of locks or handles.

use vstd::prelude::*;
use std::collections::HashMap;
use std::time::Instant;
use crate::config::DUMMY_IMU_ADDR;
use crate::endian::{i16_from_be, i16_to_be, lemma_be_round_trip, read_i16_be, write_i16_be};
use crate::error::{HalError, HalResult};
use crate::random::random_in;

verus! {

/// Registers of the simulated inertial sensor: six bytes of acceleration,
/// two of temperature, six of angular rate.
pub const IMU_REGISTER_COUNT: usize = 14;

/// Noise added to a motion byte is less than this.
pub const MOTION_NOISE_LIMIT: u8 = 5;

/// Byte that a transfer bus answers with until something else is stored.
pub const SPI_FILL: u8 = 0xFF;

/// What the board holds, as plain values: the level last written to each
/// pin, the register memory of each device on the addressed bus, and the
/// answer stored for each transfer bus.
pub struct BoardView {
    pub pins: Map<u8, bool>,
    pub i2c: Map<u8, Seq<u8>>,
    pub spi: Map<u8, Seq<u8>>,
}

impl BoardView {
    /// The board as it is when switched on: no pin written, the inertial
    /// sensor with its registers at zero, no transfer bus used yet.
    pub open spec fn power_on() -> BoardView {
        BoardView {
            pins: Map::empty(),
            i2c: Map::empty().insert(
                DUMMY_IMU_ADDR,
                Seq::new(IMU_REGISTER_COUNT as nat, |i: int| 0u8),
            ),
            spi: Map::empty(),
        }
    }

    /// The level of a pin: the last one written, low if none was.
    pub open spec fn pin_level(self, pin_id: u8) -> bool {
        self.pins.contains_key(pin_id) && self.pins[pin_id]
    }

    /// The devices on the addressed bus are fixed when the board is made:
    /// the inertial sensor alone, with a register file that keeps its size.
    pub open spec fn well_formed(self) -> bool {
        &&& self.i2c.dom() =~= set![DUMMY_IMU_ADDR]
        &&& self.i2c[DUMMY_IMU_ADDR].len() == IMU_REGISTER_COUNT
    }

    /// What a transfer bus answers with: what is stored for it, or as many
    /// fill bytes as the first request is long.
    pub open spec fn spi_answer(self, bus_id: u8, request_len: nat) -> Seq<u8> {
        if self.spi.contains_key(bus_id) {
            self.spi[bus_id]
        } else {
            Seq::new(request_len, |i: int| SPI_FILL)
        }
    }
}

/// A device's registers after a write of `bytes`: the first byte is the
/// offset, the rest is copied in from there. A write of fewer than two
/// bytes, or one that would run past the last register, changes nothing.
pub open spec fn registers_after_write(registers: Seq<u8>, bytes: Seq<u8>) -> Seq<u8> {
    if bytes.len() > 1 && bytes[0] as int + bytes.len() - 1 <= registers.len() {
        Seq::new(
            registers.len(),
            |i: int|
                if bytes[0] as int <= i < bytes[0] as int + bytes.len() - 1 {
                    bytes[i - bytes[0] as int + 1]
                } else {
                    registers[i]
                },
        )
    } else {
        registers
    }
}

/// A buffer after `source` was copied over its start: as much of `source`
/// as fits, then the buffer's own bytes.
pub open spec fn buffer_after_copy(source: Seq<u8>, buffer: Seq<u8>) -> Seq<u8> {
    Seq::new(
        buffer.len(),
        |i: int|
            if i < source.len() {
                source[i]
            } else {
                buffer[i]
            },
    )
}

/// The random part of one sensor reading: what is added to each of the
/// twelve motion bytes, and the drift of the temperature word.
pub struct SensorNoise {
    pub motion: [u8; 12],
    pub temperature: i8,
}

impl SensorNoise {
    /// Noise as the board draws it: small on every motion byte, one step at
    /// most on the temperature.
    pub open spec fn bounded(self) -> bool {
        &&& forall|k: int| 0 <= k < 12 ==> self.motion@[k] < MOTION_NOISE_LIMIT
        &&& -1 <= self.temperature <= 1
    }

    /// The noise that falls on the byte at `position` of a reading. The two
    /// temperature bytes lie between the two groups of motion bytes.
    pub open spec fn on_byte(self, position: int) -> u8 {
        if position < 6 {
            self.motion@[position]
        } else {
            self.motion@[position - 2]
        }
    }

    /// No noise at all.
    pub fn quiet() -> (r: Self)
        ensures
            r.bounded(),
            forall|k: int| 0 <= k < 12 ==> r.motion@[k] == 0,
            r.temperature == 0,
    {
        SensorNoise { motion: [0u8; 12], temperature: 0 }
    }

    /// Draws the noise for one reading.
    pub fn sample() -> (r: Self)
        ensures
            r.bounded(),
    {
        let mut motion = [0u8; 12];
        let mut k: usize = 0;
        while k < 12
            invariant
                k <= 12,
                forall|j: int| 0 <= j < k ==> motion@[j] < MOTION_NOISE_LIMIT,
            decreases 12 - k,
        {
            let drawn: i64 = random_in(0, MOTION_NOISE_LIMIT as i64);
            motion[k] = drawn as u8;
            k += 1;
        }
        let drift: i64 = random_in(-1, 2);
        SensorNoise { motion, temperature: drift as i8 }
    }
}

/// A sensor reading with noise laid over it. Each motion byte has its noise
/// added, wrapping at 256. The temperature bytes are read as one big-endian
/// signed word, moved by the drift, wrapping, and written back.
pub open spec fn perturbed(data: Seq<u8>, noise: SensorNoise) -> Seq<u8> {
    let drifted = i16_to_be(
        (i16_from_be(data[6], data[7]) as i16).wrapping_add(noise.temperature as i16),
    );
    Seq::new(
        data.len(),
        |i: int|
            if i == 6 {
                drifted.0
            } else if i == 7 {
                drifted.1
            } else if i < IMU_REGISTER_COUNT {
                data[i].wrapping_add(noise.on_byte(i))
            } else {
                data[i]
            },
    )
}

/// Whether a read is one that noise is laid over: a read of the inertial
/// sensor that takes in all of its registers.
pub open spec fn noise_applies(address: u8, registers: nat, buffer_len: nat) -> bool {
    address == DUMMY_IMU_ADDR && registers >= IMU_REGISTER_COUNT && buffer_len
        >= IMU_REGISTER_COUNT
}

/// The caller's buffer after a read: the device's leading registers copied
/// over its start, and noise on top where it applies.
pub open spec fn buffer_after_read(
    registers: Seq<u8>,
    buffer: Seq<u8>,
    address: u8,
    noise: SensorNoise,
) -> Seq<u8> {
    let copied = buffer_after_copy(registers, buffer);
    if noise_applies(address, registers.len(), buffer.len()) {
        perturbed(copied, noise)
    } else {
        copied
    }
}

/// A register write keeps the device's memory at its size, whatever is
/// written.
pub proof fn lemma_write_keeps_size(registers: Seq<u8>, bytes: Seq<u8>)
    ensures
        registers_after_write(registers, bytes).len() == registers.len(),
{
}

/// What is written can be read back. Take a device with `registers`, write
/// three bytes at `offset` where they fit, then read into a buffer that
/// reaches past them: the three bytes stand in the buffer at `offset`. This
/// holds of every read that noise is not laid over.
pub proof fn lemma_write_then_read_round_trip(
    registers: Seq<u8>,
    offset: u8,
    d0: u8,
    d1: u8,
    d2: u8,
    buffer: Seq<u8>,
    address: u8,
    noise: SensorNoise,
)
    requires
        offset + 3 <= registers.len(),
        offset + 3 <= buffer.len(),
        !noise_applies(address, registers.len(), buffer.len()),
    ensures
        ({
            let written = registers_after_write(registers, seq![offset, d0, d1, d2]);
            let read = buffer_after_read(written, buffer, address, noise);
            &&& read.len() == buffer.len()
            &&& read[offset as int] == d0
            &&& read[offset + 1] == d1
            &&& read[offset + 2] == d2
        }),
{
}

/// The first exchange with a transfer bus is answered with fill bytes only,
/// one for each byte of the request.
pub proof fn lemma_first_transfer_is_all_fill(board: BoardView, bus_id: u8, buffer: Seq<u8>)
    requires
        !board.spi.contains_key(bus_id),
    ensures
        board.spi_answer(bus_id, buffer.len()).len() == buffer.len(),
        buffer_after_copy(board.spi_answer(bus_id, buffer.len()), buffer) == Seq::new(
            buffer.len(),
            |i: int| SPI_FILL,
        ),
{
    assert(buffer_after_copy(board.spi_answer(bus_id, buffer.len()), buffer) =~= Seq::new(
        buffer.len(),
        |i: int| SPI_FILL,
    ));
}

/// Noise of nothing changes nothing: a reading with all noise at zero is
/// the reading itself.
pub proof fn lemma_zero_noise_is_no_noise(data: Seq<u8>, noise: SensorNoise)
    requires
        data.len() >= IMU_REGISTER_COUNT,
        forall|k: int| 0 <= k < 12 ==> noise.motion@[k] == 0,
        noise.temperature == 0,
    ensures
        perturbed(data, noise) == data,
{
    lemma_be_round_trip(0, data[6], data[7]);
    assert(perturbed(data, noise) =~= data);
}

/// The devices on the addressed bus, each with its register memory. Which
/// devices there are, and how many registers each has, never changes.
struct I2cDevices {
    devices: HashMap<u8, Vec<u8>>,
}

impl View for I2cDevices {
    type V = Map<u8, Seq<u8>>;

    closed spec fn view(&self) -> Map<u8, Seq<u8>> {
        self.devices@.map_values(|registers: Vec<u8>| registers@)
    }
}

impl I2cDevices {
    #[verifier::type_invariant]
    spec fn inv(self) -> bool {
        &&& self@.dom() =~= set![DUMMY_IMU_ADDR]
        &&& self@[DUMMY_IMU_ADDR].len() == IMU_REGISTER_COUNT
    }

    fn new() -> (r: Self)
        ensures
            r@ == BoardView::power_on().i2c,
    {
        let mut devices: HashMap<u8, Vec<u8>> = HashMap::new();
        let registers: Vec<u8> = vec![0u8; IMU_REGISTER_COUNT];
        devices.insert(DUMMY_IMU_ADDR, registers);
        let r = I2cDevices { devices };
        assert(r@.dom() =~= set![DUMMY_IMU_ADDR]);
        assert(r@[DUMMY_IMU_ADDR] =~= BoardView::power_on().i2c[DUMMY_IMU_ADDR]);
        assert(r@ =~= BoardView::power_on().i2c);
        r
    }

    /// Writes to the device at `address`, if there is one.
    fn write(&mut self, address: u8, bytes: &[u8]) -> (r: HalResult<()>)
        ensures
            old(self)@.contains_key(address) <==> address == DUMMY_IMU_ADDR,
            r is Ok <==> old(self)@.contains_key(address),
            r matches Err(e) ==> e == HalError::UnexpectedDevice && final(self)@ == old(self)@,
            r is Ok ==> final(self)@ == old(self)@.insert(
                address,
                registers_after_write(old(self)@[address], bytes@),
            ),
    {
        proof {
            use_type_invariant(&*self);
        }
        let ghost before = self@;
        let updated = match self.devices.get(&address) {
            Some(registers) => {
                assert(before[address] == registers@);
                registers_written(registers, bytes)
            },
            None => {
                return Err(HalError::UnexpectedDevice);
            },
        };
        let mut devices: HashMap<u8, Vec<u8>> = HashMap::new();
        devices.insert(address, updated);
        let ghost after = devices@.map_values(|registers: Vec<u8>| registers@);
        assert(before.contains_key(address));
        assert(after.dom() =~= set![address]);
        assert(after[address] == updated@);
        assert(after =~= before.insert(address, registers_after_write(before[address], bytes@)));
        self.devices = devices;
        Ok(())
    }

    /// Reads from the device at `address`, if there is one.
    fn read(&self, address: u8, buffer: &mut [u8], noise: &SensorNoise) -> (r: HalResult<()>)
        ensures
            self@.contains_key(address) <==> address == DUMMY_IMU_ADDR,
            r is Ok <==> self@.contains_key(address),
            r matches Err(e) ==> e == HalError::UnexpectedDevice && final(buffer)@ == old(buffer)@,
            r is Ok ==> final(buffer)@ == buffer_after_read(
                self@[address],
                old(buffer)@,
                address,
                *noise,
            ),
            final(buffer)@.len() == old(buffer)@.len(),
    {
        proof {
            use_type_invariant(self);
        }
        match self.devices.get(&address) {
            Some(registers) => {
                let copied = copy_over(registers.as_slice(), buffer);
                if address == DUMMY_IMU_ADDR && copied >= IMU_REGISTER_COUNT {
                    perturb(buffer, noise);
                }
                Ok(())
            },
            None => Err(HalError::UnexpectedDevice),
        }
    }
}

/// Applies a register write to a copy of a device's memory.
fn registers_written(registers: &Vec<u8>, bytes: &[u8]) -> (r: Vec<u8>)
    ensures
        r@ == registers_after_write(registers@, bytes@),
{
    let mut updated = registers.clone();
    assert(updated@ =~= registers@);
    if bytes.len() > 1 {
        let offset = bytes[0] as usize;
        let count = bytes.len() - 1;
        if count <= updated.len() && offset <= updated.len() - count {
            let mut i: usize = 0;
            while i < count
                invariant
                    i <= count,
                    count == bytes@.len() - 1,
                    offset == bytes@[0],
                    offset + count <= registers@.len(),
                    updated@.len() == registers@.len(),
                    updated@.len() <= usize::MAX,
                    forall|j: int|
                        0 <= j < updated@.len() ==> updated@[j] == if offset as int <= j < offset
                            + i {
                            bytes@[j - offset + 1]
                        } else {
                            registers@[j]
                        },
                decreases count - i,
            {
                updated[offset + i] = bytes[i + 1];
                i += 1;
            }
        }
    }
    assert(updated@ =~= registers_after_write(registers@, bytes@));
    updated
}

/// Copies the start of `source` over the start of `buffer`, as far as both
/// reach, and returns how many bytes that was.
fn copy_over(source: &[u8], buffer: &mut [u8]) -> (copied: usize)
    ensures
        final(buffer)@ == buffer_after_copy(source@, old(buffer)@),
        final(buffer)@.len() == old(buffer)@.len(),
        copied == if source@.len() <= old(buffer)@.len() {
            source@.len()
        } else {
            old(buffer)@.len()
        },
{
    let copied = if source.len() <= buffer.len() {
        source.len()
    } else {
        buffer.len()
    };
    let mut i: usize = 0;
    while i < copied
        invariant
            i <= copied,
            copied <= source@.len(),
            copied <= buffer@.len(),
            buffer@.len() == old(buffer)@.len(),
            forall|j: int|
                0 <= j < buffer@.len() ==> buffer@[j] == if j < i {
                    source@[j]
                } else {
                    old(buffer)@[j]
                },
        decreases copied - i,
    {
        buffer[i] = source[i];
        i += 1;
    }
    assert(buffer@ =~= buffer_after_copy(source@, old(buffer)@));
    copied
}

/// Lays noise over a reading of the inertial sensor.
fn perturb(buffer: &mut [u8], noise: &SensorNoise)
    requires
        old(buffer)@.len() >= IMU_REGISTER_COUNT,
    ensures
        final(buffer)@ == perturbed(old(buffer)@, *noise),
{
    let mut k: usize = 0;
    while k < 12
        invariant
            k <= 12,
            buffer@.len() == old(buffer)@.len(),
            buffer@.len() >= IMU_REGISTER_COUNT,
            forall|j: int|
                0 <= j < buffer@.len() ==> buffer@[j] == if (j < 6 && j < k) || (8 <= j < 14 && j
                    - 2 < k) {
                    old(buffer)@[j].wrapping_add(noise.on_byte(j))
                } else {
                    old(buffer)@[j]
                },
        decreases 12 - k,
    {
        let position = if k < 6 {
            k
        } else {
            k + 2
        };
        buffer[position] = buffer[position].wrapping_add(noise.motion[k]);
        k += 1;
    }
    let temperature = read_i16_be(buffer[6], buffer[7]);
    let (hi, lo) = write_i16_be(temperature.wrapping_add(noise.temperature as i16));
    buffer[6] = hi;
    buffer[7] = lo;
    assert(buffer@ =~= perturbed(old(buffer)@, *noise));
}

/// The state of the whole simulated board.
pub struct DummyHardwareState {
    gpio_pins: HashMap<u8, bool>,
    i2c_devices: I2cDevices,
    spi_devices: HashMap<u8, Vec<u8>>,
    last_delay: Instant,
}

impl View for DummyHardwareState {
    type V = BoardView;

    closed spec fn view(&self) -> BoardView {
        BoardView {
            pins: self.gpio_pins@,
            i2c: self.i2c_devices@,
            spi: self.spi_devices@.map_values(|answer: Vec<u8>| answer@),
        }
    }
}

impl DummyHardwareState {
    /// The clock reading at which a delay last ended, or at which the board
    /// was switched on if none has.
    pub closed spec fn last_delay(&self) -> Instant {
        self.last_delay
    }

    /// A board that was just switched on.
    pub fn new() -> (r: Self)
        ensures
            r@ == BoardView::power_on(),
    {
        let r = DummyHardwareState {
            gpio_pins: HashMap::new(),
            i2c_devices: I2cDevices::new(),
            spi_devices: HashMap::new(),
            last_delay: Instant::now(),
        };
        assert(r@.spi =~= BoardView::power_on().spi);
        r
    }

    /// Records a level for a pin. Every pin can be written.
    pub fn write_pin(&mut self, pin_id: u8, level: bool)
        ensures
            final(self)@ == (BoardView {
                pins: old(self)@.pins.insert(pin_id, level),
                ..old(self)@
            }),
            final(self)@.pin_level(pin_id) == level,
            final(self).last_delay() == old(self).last_delay(),
    {
        self.gpio_pins.insert(pin_id, level);
    }

    /// The level recorded for a pin, low where none was recorded.
    pub fn read_pin(&self, pin_id: u8) -> (level: bool)
        ensures
            level == self@.pin_level(pin_id),
    {
        match self.gpio_pins.get(&pin_id) {
            Some(level) => *level,
            None => false,
        }
    }

    /// Writes `bytes` to the device at `address`: the first byte chooses the
    /// register, the rest goes in from there. A write that would not fit is
    /// dropped whole, and is no error. Only a device that is not on the bus
    /// is one: then nothing changes.
    pub fn i2c_write(&mut self, address: u8, bytes: &[u8]) -> (r: HalResult<()>)
        ensures
            old(self)@.well_formed(),
            final(self)@.well_formed(),
            final(self).last_delay() == old(self).last_delay(),
            r is Ok <==> old(self)@.i2c.contains_key(address),
            r matches Err(e) ==> e == HalError::UnexpectedDevice && final(self)@ == old(self)@,
            r is Ok ==> final(self)@ == (BoardView {
                i2c: old(self)@.i2c.insert(
                    address,
                    registers_after_write(old(self)@.i2c[address], bytes@),
                ),
                ..old(self)@
            }),
    {
        proof {
            use_type_invariant(&self.i2c_devices);
        }
        let r = self.i2c_devices.write(address, bytes);
        proof {
            use_type_invariant(&self.i2c_devices);
        }
        r
    }

    /// Reads from the device at `address` into `buffer`: its leading
    /// registers, as many as the buffer takes, with `noise` laid over them
    /// where the read is a whole reading of the inertial sensor. Where the
    /// device is not on the bus the buffer is left alone.
    pub fn i2c_read(&self, address: u8, buffer: &mut [u8], noise: &SensorNoise) -> (r: HalResult<
        (),
    >)
        ensures
            self@.well_formed(),
            final(buffer)@.len() == old(buffer)@.len(),
            r is Ok <==> self@.i2c.contains_key(address),
            r matches Err(e) ==> e == HalError::UnexpectedDevice && final(buffer)@ == old(buffer)@,
            r is Ok ==> final(buffer)@ == buffer_after_read(
                self@.i2c[address],
                old(buffer)@,
                address,
                *noise,
            ),
    {
        proof {
            use_type_invariant(&self.i2c_devices);
        }
        self.i2c_devices.read(address, buffer, noise)
    }

    /// Exchanges `buffer` with the transfer bus `bus_id`. The bus answers
    /// with what is stored for it; on its first use that becomes as many
    /// fill bytes as the request is long. The answer is copied over the
    /// start of the buffer as far as both reach, and the result counts the
    /// bytes copied.
    pub fn spi_transfer(&mut self, bus_id: u8, buffer: &mut [u8]) -> (copied: usize)
        ensures
            final(self)@ == (BoardView {
                spi: old(self)@.spi.insert(
                    bus_id,
                    old(self)@.spi_answer(bus_id, old(buffer)@.len()),
                ),
                ..old(self)@
            }),
            final(buffer)@ == buffer_after_copy(
                old(self)@.spi_answer(bus_id, old(buffer)@.len()),
                old(buffer)@,
            ),
            final(buffer)@.len() == old(buffer)@.len(),
            copied == if old(self)@.spi_answer(bus_id, old(buffer)@.len()).len() <= old(
                buffer,
            )@.len() {
                old(self)@.spi_answer(bus_id, old(buffer)@.len()).len()
            } else {
                old(buffer)@.len()
            },
            final(self).last_delay() == old(self).last_delay(),
            !old(self)@.spi.contains_key(bus_id) ==> {
                &&& copied == old(buffer)@.len()
                &&& forall|i: int| 0 <= i < old(buffer)@.len() ==> final(buffer)@[i] == SPI_FILL
            },
    {
        let ghost before = self@;
        let ghost answer = before.spi_answer(bus_id, buffer@.len());
        if !self.spi_devices.contains_key(&bus_id) {
            let fill: Vec<u8> = vec![SPI_FILL; buffer.len()];
            assert(fill@ =~= answer);
            self.spi_devices.insert(bus_id, fill);
        }
        assert(self@.spi =~= before.spi.insert(bus_id, answer));
        match self.spi_devices.get(&bus_id) {
            Some(stored) => copy_over(stored.as_slice(), buffer),
            None => 0,
        }
    }

    /// Notes that a delay has just ended, at the clock reading `now`.
    /// Nothing else of the board changes.
    pub fn touch_delay(&mut self, now: Instant)
        ensures
            final(self).last_delay() == now,
            final(self)@ == old(self)@,
    {
        self.last_delay = now;
    }
}

} // verus!
