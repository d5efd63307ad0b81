//! A packet radio on a transfer bus, with a chip-select pin, an interrupt
//! pin and a delay source.
//!
//! The driver frames nothing yet. Sending takes the time a transmission
//! would take; receiving makes up a packet now and then. The two register
//! helpers speak the chip's bus protocol and wait for a caller.

use vstd::prelude::*;
use crate::error::{HalError, HalResult, RocketError, RocketResult};
use crate::hal::interface::{outcome, DelayMs, InputPin, OutputPin, SpiBus, SpiExchange};
use crate::random::{random_byte, random_in, random_ratio};

verus! {

/// Milliseconds the chip is given to settle, twice during bring-up.
pub const SETTLE_MS: u32 = 10;

/// Milliseconds that sending one packet takes.
pub const TRANSMIT_MS: u32 = 50;

/// Milliseconds that reading one received packet out of the chip takes.
pub const READOUT_MS: u32 = 10;

/// A packet arrives on `ARRIVAL_CHANCE` of every `ARRIVAL_CHANCE_OUT_OF`
/// calls of `receive_packet`, on average.
pub const ARRIVAL_CHANCE: u32 = 1;

pub const ARRIVAL_CHANCE_OUT_OF: u32 = 10;

/// The shortest packet that arrives.
pub const MIN_PACKET_LEN: usize = 5;

/// The longest packet that arrives.
pub const MAX_PACKET_LEN: usize = 20;

/// Set in the first byte of a register access to make it a write.
pub const WRITE_FLAG: u8 = 0x80;

/// The bits of the first byte of a register access that hold the register.
pub const REGISTER_MASK: u8 = 0x7F;

/// The radio and the four handles it is built from.
pub struct Radio<SPI: SpiBus, CS: OutputPin, IRQ: InputPin, DELAY: DelayMs> {
    spi: SPI,
    cs: CS,
    _irq: IRQ,
    delay: DELAY,
}

/// The longest packet that fits a buffer of `capacity` bytes.
pub open spec fn longest_packet(capacity: nat) -> nat {
    if capacity < MAX_PACKET_LEN {
        capacity
    } else {
        MAX_PACKET_LEN as nat
    }
}

impl<SPI: SpiBus, CS: OutputPin, IRQ: InputPin, DELAY: DelayMs> Radio<SPI, CS, IRQ, DELAY> {
    /// The bus the chip sits on.
    pub closed spec fn spi(&self) -> SPI {
        self.spi
    }

    /// The chip-select pin: low selects the chip.
    pub closed spec fn cs(&self) -> CS {
        self.cs
    }

    /// The chip's interrupt pin. The driver holds it and does not read it.
    pub closed spec fn irq(&self) -> IRQ {
        self._irq
    }

    /// The delay source.
    pub closed spec fn delay(&self) -> DELAY {
        self.delay
    }

    /// One write that took the select pin from `before` to `after` and
    /// selected the chip: the pin was driven low, and took it.
    pub open spec fn selected(before: CS, after: CS) -> bool {
        exists|written: HalResult<()>|
            written is Ok && #[trigger] CS::drives_low(&before, &after, written)
    }

    /// One write that took the select pin from `before` to `after` and
    /// deselected the chip: the pin was driven high, and took it.
    pub open spec fn deselected(before: CS, after: CS) -> bool {
        exists|written: HalResult<()>|
            written is Ok && #[trigger] CS::drives_high(&before, &after, written)
    }

    /// What one operation of a register access does to the bus and how it
    /// ends: a transfer where the access reads, a write where it writes.
    pub open spec fn bus_step(before: SPI, after: SPI, reading: bool, r: HalResult<()>) -> bool {
        if reading {
            SPI::transfers(&before, &after, r)
        } else {
            SPI::sends(&before, &after, r)
        }
    }

    /// One bus operation of a register access that took the bus from
    /// `before` to `after` and succeeded.
    pub open spec fn bus_done(before: SPI, after: SPI, reading: bool) -> bool {
        exists|answered: HalResult<()>|
            answered is Ok && #[trigger] Self::bus_step(before, after, reading, answered)
    }

    /// A register access that went through: the chip was selected, the bus
    /// operation succeeded, the chip was deselected, each by one call.
    pub open spec fn accessed(before: Self, after: Self, reading: bool) -> bool {
        &&& Self::bus_done(before.spi(), after.spi(), reading)
        &&& exists|held: CS| #[trigger]
            Self::selected(before.cs(), held) && Self::deselected(held, after.cs())
    }

    /// A register access that ended with `fault`. The fault is the own
    /// fault of the call that failed, and the access ended there: at the
    /// write that selects the chip, before anything went over the bus; at
    /// the bus operation, with the chip left selected; or at the write that
    /// deselects the chip, after the bus operation went through.
    pub open spec fn access_failed(
        before: Self,
        after: Self,
        reading: bool,
        fault: HalError,
    ) -> bool {
        ||| {
            &&& CS::drives_low(&before.cs(), &after.cs(), Err::<(), HalError>(fault))
            &&& after.spi() == before.spi()
        }
        ||| {
            &&& Self::selected(before.cs(), after.cs())
            &&& Self::bus_step(before.spi(), after.spi(), reading, Err::<(), HalError>(fault))
        }
        ||| {
            &&& Self::bus_done(before.spi(), after.spi(), reading)
            &&& exists|held: CS| #[trigger]
                Self::selected(before.cs(), held) && CS::drives_high(
                    &held,
                    &after.cs(),
                    Err::<(), HalError>(fault),
                )
        }
    }

    /// What bring-up does to a radio: the chip is deselected by one write of
    /// its select pin, then given two settling pauses. Bring-up ends as
    /// that write ends: a fault of the pin ends it at once, before any
    /// pause, and is handed up as it is.
    pub open spec fn brought_up(before: Self, after: Self, r: RocketResult<()>) -> bool {
        &&& after.spi() == before.spi()
        &&& after.irq() == before.irq()
        &&& match r {
            Ok(()) => {
                &&& Self::deselected(before.cs(), after.cs())
                &&& after.cs().driven() == before.cs().driven().push(true)
                &&& after.delay().requested_ms() == before.delay().requested_ms() + 2 * SETTLE_MS
            },
            Err(e) => {
                &&& e matches RocketError::Hal(fault)
                &&& CS::drives_high(&before.cs(), &after.cs(), Err::<(), HalError>(fault))
                &&& after.cs().driven() == before.cs().driven()
                &&& after.delay() == before.delay()
            },
        }
    }

    /// Takes the four handles and brings the chip up. It succeeds if the
    /// write that deselects the chip succeeds, and fails, with the select
    /// pin's own fault, if that write fails. Nothing goes over the bus.
    pub fn new(spi: SPI, cs: CS, irq: IRQ, delay: DELAY) -> (r: RocketResult<Self>)
        ensures
            match r {
                Ok(radio) => {
                    &&& radio.spi() == spi
                    &&& radio.irq() == irq
                    &&& Self::deselected(cs, radio.cs())
                    &&& radio.cs().driven() == cs.driven().push(true)
                    &&& radio.delay().requested_ms() == delay.requested_ms() + 2 * SETTLE_MS
                },
                Err(e) => {
                    &&& e matches RocketError::Hal(fault)
                    &&& exists|after: CS| #[trigger]
                        CS::drives_high(&cs, &after, Err::<(), HalError>(fault))
                },
            },
    {
        let mut radio = Radio { spi, cs, _irq: irq, delay };
        match radio.init() {
            Ok(()) => Ok(radio),
            Err(e) => Err(e),
        }
    }

    fn init(&mut self) -> (r: RocketResult<()>)
        ensures
            Self::brought_up(*old(self), *final(self), r),
    {
        match self.cs.set_high() {
            Ok(()) => {},
            Err(e) => {
                return Err(RocketError::from(e));
            },
        }
        self.delay.delay_ms(SETTLE_MS);
        self.delay.delay_ms(SETTLE_MS);
        Ok(())
    }

    /// Reads one register of the chip: select, exchange two bytes, deselect.
    /// The first byte sent is the register with the write flag clear, the
    /// second is zero; the value is what stands in the second byte after the
    /// exchange. The access succeeds if its three calls succeed. A fault of
    /// the pin or the bus ends it where it occurs and is handed up as it is.
    pub fn read_reg(&mut self, reg: u8) -> (r: RocketResult<u8>)
        ensures
            final(self).irq() == old(self).irq(),
            final(self).delay() == old(self).delay(),
            match r {
                Ok(value) => {
                    &&& Self::accessed(*old(self), *final(self), true)
                    &&& final(self).cs().driven() == old(self).cs().driven().push(false).push(
                        true,
                    )
                    &&& final(self).spi().exchanges().len() == old(self).spi().exchanges().len()
                        + 1
                    &&& final(self).spi().exchanges().drop_last() == old(self).spi().exchanges()
                    &&& final(self).spi().exchanges().last().sent == seq![reg & REGISTER_MASK, 0u8]
                    &&& final(self).spi().exchanges().last().received.len() == 2
                    &&& value == final(self).spi().exchanges().last().received[1]
                },
                Err(e) => e matches RocketError::Hal(fault) && Self::access_failed(
                    *old(self),
                    *final(self),
                    true,
                    fault,
                ),
            },
    {
        let ghost start = *self;
        match self.cs.set_low() {
            Ok(()) => {},
            Err(e) => {
                return Err(RocketError::from(e));
            },
        }
        let ghost held = self.cs;
        assert(Self::selected(start.cs(), held));
        let mut buffer = [reg & REGISTER_MASK, 0];
        let ghost sent = buffer@;
        let ghost before = self.spi.exchanges();
        let answered = self.spi.transfer(&mut buffer);
        let ghost answer = outcome(answered);
        assert(Self::bus_step(start.spi(), self.spi, true, answer));
        match answered {
            Ok(_) => {},
            Err(e) => {
                return Err(RocketError::from(e));
            },
        }
        proof {
            let after = self.spi.exchanges();
            assert(after == before.push(SpiExchange { sent, received: buffer@ }));
            assert(after.drop_last() =~= before);
            assert(sent =~= seq![reg & REGISTER_MASK, 0u8]);
            assert(Self::bus_done(start.spi(), self.spi, true));
        }
        match self.cs.set_high() {
            Ok(()) => {},
            Err(e) => {
                return Err(RocketError::from(e));
            },
        }
        assert(Self::selected(start.cs(), held) && Self::deselected(held, self.cs));
        Ok(buffer[1])
    }

    /// Writes one register of the chip: select, send two bytes, deselect.
    /// The first byte is the register with the write flag set, the second
    /// is the value. The access succeeds if its three calls succeed. A
    /// fault of the pin or the bus ends it where it occurs and is handed up
    /// as it is.
    pub fn write_reg(&mut self, reg: u8, value: u8) -> (r: RocketResult<()>)
        ensures
            final(self).irq() == old(self).irq(),
            final(self).delay() == old(self).delay(),
            match r {
                Ok(()) => {
                    &&& Self::accessed(*old(self), *final(self), false)
                    &&& final(self).cs().driven() == old(self).cs().driven().push(false).push(
                        true,
                    )
                    &&& final(self).spi().exchanges() == old(self).spi().exchanges().push(
                        SpiExchange { sent: seq![reg | WRITE_FLAG, value], received: Seq::empty() },
                    )
                },
                Err(e) => e matches RocketError::Hal(fault) && Self::access_failed(
                    *old(self),
                    *final(self),
                    false,
                    fault,
                ),
            },
    {
        let ghost start = *self;
        match self.cs.set_low() {
            Ok(()) => {},
            Err(e) => {
                return Err(RocketError::from(e));
            },
        }
        let ghost held = self.cs;
        assert(Self::selected(start.cs(), held));
        let buffer = [reg | WRITE_FLAG, value];
        assert(buffer@ =~= seq![reg | WRITE_FLAG, value]);
        let answered = self.spi.write(&buffer);
        assert(Self::bus_step(start.spi(), self.spi, false, answered));
        match answered {
            Ok(()) => {},
            Err(e) => {
                return Err(RocketError::from(e));
            },
        }
        assert(Self::bus_done(start.spi(), self.spi, false));
        match self.cs.set_high() {
            Ok(()) => {},
            Err(e) => {
                return Err(RocketError::from(e));
            },
        }
        assert(Self::selected(start.cs(), held) && Self::deselected(held, self.cs));
        Ok(())
    }

    /// Sends a packet: nothing goes over the bus, the call takes the time a
    /// transmission takes. This cannot fail.
    pub fn send_packet(&mut self, packet: &[u8]) -> (r: RocketResult<()>)
        ensures
            r is Ok,
            final(self).spi() == old(self).spi(),
            final(self).cs() == old(self).cs(),
            final(self).irq() == old(self).irq(),
            final(self).delay().requested_ms() == old(self).delay().requested_ms() + TRANSMIT_MS,
    {
        self.delay.delay_ms(TRANSMIT_MS);
        Ok(())
    }

    /// Takes in what the chip has received. With no packet nothing
    /// happens and the length is zero. A packet is copied to the start of
    /// `buffer`, which takes `READOUT_MS`, and the length is the packet's;
    /// the rest of the buffer is as it was. This cannot fail.
    ///
    /// The packet has to fit the buffer.
    pub fn store_packet(&mut self, buffer: &mut [u8], packet: Option<&[u8]>) -> (r: RocketResult<
        usize,
    >)
        requires
            packet matches Some(bytes) ==> bytes@.len() <= old(buffer)@.len(),
        ensures
            final(self).spi() == old(self).spi(),
            final(self).cs() == old(self).cs(),
            final(self).irq() == old(self).irq(),
            final(buffer)@.len() == old(buffer)@.len(),
            match packet {
                Some(bytes) => {
                    &&& r == Ok::<usize, RocketError>(bytes@.len() as usize)
                    &&& final(buffer)@ == bytes@ + old(buffer)@.subrange(
                        bytes@.len() as int,
                        old(buffer)@.len() as int,
                    )
                    &&& final(self).delay().requested_ms() == old(self).delay().requested_ms()
                        + READOUT_MS
                },
                None => {
                    &&& r == Ok::<usize, RocketError>(0)
                    &&& final(buffer)@ == old(buffer)@
                    &&& final(self).delay() == old(self).delay()
                },
            },
    {
        match packet {
            Some(bytes) => {
                let len = bytes.len();
                let mut i: usize = 0;
                while i < len
                    invariant
                        i <= len,
                        len == bytes@.len(),
                        len <= buffer@.len(),
                        buffer@.len() == old(buffer)@.len(),
                        forall|j: int| 0 <= j < i ==> buffer@[j] == bytes@[j],
                        forall|j: int| i <= j < buffer@.len() ==> buffer@[j] == old(buffer)@[j],
                    decreases len - i,
                {
                    buffer[i] = bytes[i];
                    i += 1;
                }
                assert(buffer@ =~= bytes@ + old(buffer)@.subrange(
                    len as int,
                    old(buffer)@.len() as int,
                ));
                self.delay.delay_ms(READOUT_MS);
                Ok(len)
            },
            None => Ok(0),
        }
    }

    /// Looks for a received packet and returns its length, zero where there
    /// is none. By chance a packet is there: then it is between
    /// `MIN_PACKET_LEN` bytes and the longest that fits long, its bytes are
    /// drawn at random, and it is taken in by `store_packet`. A buffer that
    /// is too short for the shortest packet gets none. This cannot fail.
    pub fn receive_packet(&mut self, buffer: &mut [u8]) -> (r: RocketResult<usize>)
        ensures
            final(self).spi() == old(self).spi(),
            final(self).cs() == old(self).cs(),
            final(self).irq() == old(self).irq(),
            final(buffer)@.len() == old(buffer)@.len(),
            r matches Ok(len) && {
                &&& len <= longest_packet(old(buffer)@.len())
                &&& len == 0 || MIN_PACKET_LEN <= len
                &&& forall|i: int| len <= i < old(buffer)@.len() ==> final(buffer)@[i] == old(buffer)@[i]
                &&& len == 0 ==> final(buffer)@ == old(buffer)@ && final(self).delay() == old(
                    self,
                ).delay()
                &&& len > 0 ==> final(self).delay().requested_ms() == old(self).delay().requested_ms()
                    + READOUT_MS
            },
    {
        let arrived = random_ratio(ARRIVAL_CHANCE, ARRIVAL_CHANCE_OUT_OF);
        if arrived && buffer.len() >= MIN_PACKET_LEN {
            let longest = if buffer.len() < MAX_PACKET_LEN {
                buffer.len()
            } else {
                MAX_PACKET_LEN
            };
            let drawn: i64 = random_in(MIN_PACKET_LEN as i64, longest as i64 + 1);
            let len = drawn as usize;
            let mut packet: Vec<u8> = Vec::new();
            while packet.len() < len
                invariant
                    packet@.len() <= len,
                decreases len - packet@.len(),
            {
                packet.push(random_byte());
            }
            self.store_packet(buffer, Some(packet.as_slice()))
        } else {
            self.store_packet(buffer, None)
        }
    }
}

} // verus!
