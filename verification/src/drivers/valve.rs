//! A valve behind one output pin: high is open, low is closed.

use vstd::prelude::*;
use crate::error::{HalError, HalResult, RocketError, RocketResult};
use crate::hal::interface::OutputPin;

verus! {

/// A valve and what the driver believes of it. The pin is written only when
/// the valve has to move.
pub struct Valve<Pin: OutputPin> {
    pin: Pin,
    is_open: bool,
}

impl<Pin: OutputPin> Valve<Pin> {
    /// The pin that moves the valve.
    pub closed spec fn pin(&self) -> Pin {
        self.pin
    }

    /// Whether the driver holds the valve to be open.
    pub closed spec fn opened(&self) -> bool {
        self.is_open
    }

    /// What one call of `open` does. An open valve is left as it is, pin and
    /// all, and that is a success. A closed one has its pin driven high
    /// once, and `open` ends as that write ends: if the pin takes it the
    /// valve is open, if the pin fails the valve stays closed and the pin's
    /// own fault is handed up as a hardware fault.
    pub open spec fn open_step(before: Self, after: Self, r: RocketResult<()>) -> bool {
        if before.opened() {
            r is Ok && after == before
        } else {
            match r {
                Ok(()) => {
                    &&& after.opened()
                    &&& after.pin().driven() == before.pin().driven().push(true)
                    &&& exists|written: HalResult<()>|
                        written is Ok && #[trigger] Pin::drives_high(
                            &before.pin(),
                            &after.pin(),
                            written,
                        )
                },
                Err(e) => {
                    &&& e matches RocketError::Hal(fault)
                    &&& Pin::drives_high(&before.pin(), &after.pin(), Err::<(), HalError>(fault))
                    &&& !after.opened()
                    &&& after.pin().driven() == before.pin().driven()
                },
            }
        }
    }

    /// What one call of `close` does: the mirror image of `open_step`, with
    /// the pin driven low.
    pub open spec fn close_step(before: Self, after: Self, r: RocketResult<()>) -> bool {
        if !before.opened() {
            r is Ok && after == before
        } else {
            match r {
                Ok(()) => {
                    &&& !after.opened()
                    &&& after.pin().driven() == before.pin().driven().push(false)
                    &&& exists|written: HalResult<()>|
                        written is Ok && #[trigger] Pin::drives_low(
                            &before.pin(),
                            &after.pin(),
                            written,
                        )
                },
                Err(e) => {
                    &&& e matches RocketError::Hal(fault)
                    &&& Pin::drives_low(&before.pin(), &after.pin(), Err::<(), HalError>(fault))
                    &&& after.opened()
                    &&& after.pin().driven() == before.pin().driven()
                },
            }
        }
    }

    /// Takes the pin and closes the valve by driving the pin low once. It
    /// ends as that write ends: with the closed valve if the pin takes it,
    /// with the pin's own fault as a hardware fault if the pin fails.
    pub fn new(pin: Pin) -> (r: RocketResult<Self>)
        ensures
            match r {
                Ok(valve) => {
                    &&& !valve.opened()
                    &&& valve.pin().driven() == pin.driven().push(false)
                    &&& exists|written: HalResult<()>|
                        written is Ok && #[trigger] Pin::drives_low(&pin, &valve.pin(), written)
                },
                Err(e) => {
                    &&& e matches RocketError::Hal(fault)
                    &&& exists|after: Pin| #[trigger]
                        Pin::drives_low(&pin, &after, Err::<(), HalError>(fault))
                },
            },
    {
        let mut pin = pin;
        match pin.set_low() {
            Ok(()) => Ok(Valve { pin, is_open: false }),
            Err(e) => Err(RocketError::from(e)),
        }
    }

    /// Opens the valve if it is closed.
    pub fn open(&mut self) -> (r: RocketResult<()>)
        ensures
            Self::open_step(*old(self), *final(self), r),
    {
        if !self.is_open {
            match self.pin.set_high() {
                Ok(()) => {},
                Err(e) => {
                    return Err(RocketError::from(e));
                },
            }
            self.is_open = true;
        }
        Ok(())
    }

    /// Closes the valve if it is open.
    pub fn close(&mut self) -> (r: RocketResult<()>)
        ensures
            Self::close_step(*old(self), *final(self), r),
    {
        if self.is_open {
            match self.pin.set_low() {
                Ok(()) => {},
                Err(e) => {
                    return Err(RocketError::from(e));
                },
            }
            self.is_open = false;
        }
        Ok(())
    }

    /// Whether the driver holds the valve to be open. Reads no hardware.
    pub fn is_open(&self) -> (r: bool)
        ensures
            r == self.opened(),
    {
        self.is_open
    }

    /// Opening is idempotent: once one `open` has succeeded, the next one
    /// succeeds too and touches nothing. Over the two calls the pin is
    /// written once if the valve began closed, and not at all if it began
    /// open; either way the valve ends open.
    pub proof fn lemma_open_twice_writes_once(
        start: Self,
        once: Self,
        twice: Self,
        first: RocketResult<()>,
        second: RocketResult<()>,
    )
        requires
            Self::open_step(start, once, first),
            Self::open_step(once, twice, second),
            first is Ok,
        ensures
            second is Ok,
            twice == once,
            twice.opened(),
            twice.pin().driven() == if start.opened() {
                start.pin().driven()
            } else {
                start.pin().driven().push(true)
            },
    {
    }

    /// Closing is idempotent: once one `close` has succeeded, the next one
    /// succeeds too and touches nothing. Over the two calls the pin is
    /// written once if the valve began open, and not at all if it began
    /// closed; either way the valve ends closed.
    pub proof fn lemma_close_twice_writes_once(
        start: Self,
        once: Self,
        twice: Self,
        first: RocketResult<()>,
        second: RocketResult<()>,
    )
        requires
            Self::close_step(start, once, first),
            Self::close_step(once, twice, second),
            first is Ok,
        ensures
            second is Ok,
            twice == once,
            !twice.opened(),
            twice.pin().driven() == if start.opened() {
                start.pin().driven().push(false)
            } else {
                start.pin().driven()
            },
    {
    }
}

} // verus!
