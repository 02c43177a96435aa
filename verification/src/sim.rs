//! In-memory implementations of the raw hardware capabilities in
//! [`crate::hal`]. They never fail and keep their state in plain fields, so
//! callers can exercise the drivers without hardware and inspect what was
//! driven.

use vstd::prelude::*;

use crate::hal::{DelayProvider, Level, RawBus, RawOutput, RawPwm};

verus! {

/// A digital output that records the level it is driven to. Writes always
/// succeed.
pub struct SimPin {
    pub state: Level,
}

impl SimPin {
    /// A fresh pin, driven low.
    pub fn new() -> (p: Self)
        ensures
            p.state == Level::Low,
    {
        SimPin { state: Level::Low }
    }
}

impl RawOutput for SimPin {
    type PinError = ();

    fn set_high(&mut self) -> Result<(), ()> {
        self.state = Level::High;
        Ok(())
    }

    fn set_low(&mut self) -> Result<(), ()> {
        self.state = Level::Low;
        Ok(())
    }
}

/// A PWM channel that records the duty value and enablement it was given.
pub struct SimPwm<D> {
    pub current_duty: D,
    pub is_enabled: bool,
}

impl<D> SimPwm<D> {
    /// A fresh, disabled channel carrying `duty` as its initial duty value.
    pub fn new(duty: D) -> (p: Self)
        ensures
            p.current_duty == duty,
            !p.is_enabled,
    {
        SimPwm { current_duty: duty, is_enabled: false }
    }
}

impl<D> RawPwm for SimPwm<D> {
    type Duty = D;

    fn set_duty(&mut self, duty: D) {
        self.current_duty = duty;
    }

    fn enable(&mut self) {
        self.is_enabled = true;
    }
}

/// A bus that logs every transaction and answers each read with a fixed,
/// configurable byte.
pub struct SimBus {
    pub log: Vec<(u8, u8)>,
    pub response: u8,
}

impl SimBus {
    /// A fresh bus whose every read will answer `response`.
    pub fn new(response: u8) -> (b: Self)
        ensures
            b.log@ == Seq::<(u8, u8)>::empty(),
            b.response == response,
    {
        SimBus { log: Vec::new(), response }
    }
}

impl RawBus for SimBus {
    type BusError = ();

    fn write_read_byte(&mut self, addr: u8, cmd: u8) -> Result<u8, ()> {
        self.log.push((addr, cmd));
        Ok(self.response)
    }
}

/// A delay source that does not wait at all.
pub struct NoDelay;

impl DelayProvider for NoDelay {
    fn delay_ms(&mut self, _ms: u64) {
    }
}

} // verus!
