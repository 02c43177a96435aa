//! The narrow hardware capabilities the drivers are built on, and the
//! model-carrying handles the drivers hold them through.
//!
//! The `Raw*` traits are the platform's side: a fallible digital output, a
//! PWM channel, a combined write-then-read bus transaction, and a blocking
//! delay. They promise nothing; hardware is outside the reasoning here. The
//! wrapper types [`OutPin`], [`PwmOut`] and [`BusPort`] own one raw handle
//! each and track, as ghost state, what has been commanded through them:
//! every contract in the driver layer speaks about that commanded state.

use vstd::prelude::*;

verus! {

/// The logical state of a digital output line.
#[derive(Clone, Copy, Debug, PartialEq, Eq, Structural)]
pub enum Level {
    Low,
    High,
}

/// A single digital output line as the platform provides it. Writes are
/// fallible at the platform level.
pub trait RawOutput {
    type PinError;

    fn set_high(&mut self) -> Result<(), Self::PinError>;

    fn set_low(&mut self) -> Result<(), Self::PinError>;
}

/// A PWM channel as the platform provides it. The duty is opaque to the
/// drivers: they store and forward it without interpreting it.
pub trait RawPwm {
    type Duty;

    fn set_duty(&mut self, duty: Self::Duty);

    fn enable(&mut self);
}

/// A two-wire bus master as the platform provides it: write one command
/// byte to a 7-bit device address, then read one byte back, as a single
/// combined transaction.
pub trait RawBus {
    type BusError;

    fn write_read_byte(&mut self, addr: u8, cmd: u8) -> Result<u8, Self::BusError>;
}

/// A blocking delay source, used by the stepper sequencer for its settle
/// interval.
pub trait DelayProvider {
    fn delay_ms(&mut self, ms: u64);
}

/// A digital output line together with the level last successfully
/// commanded through it, `None` until the first successful write.
pub struct OutPin<P> {
    pub raw: P,
    pub commanded: Ghost<Option<Level>>,
}

impl<P: RawOutput> OutPin<P> {
    /// The level last successfully commanded through this handle.
    pub open spec fn level(&self) -> Option<Level> {
        self.commanded@
    }

    /// Take ownership of a raw output line. Nothing has been commanded yet.
    pub fn new(raw: P) -> (p: Self)
        ensures
            p.level() is None,
    {
        OutPin { raw, commanded: Ghost(None) }
    }

    /// Drive the line high. On failure the commanded level is unchanged.
    pub fn set_high(&mut self) -> (r: Result<(), P::PinError>)
        ensures
            r is Ok ==> final(self).level() == Some(Level::High),
            r is Err ==> final(self).level() == old(self).level(),
    {
        match self.raw.set_high() {
            Ok(u) => {
                self.commanded = Ghost(Some(Level::High));
                Ok(u)
            },
            Err(e) => Err(e),
        }
    }

    /// Drive the line low. On failure the commanded level is unchanged.
    pub fn set_low(&mut self) -> (r: Result<(), P::PinError>)
        ensures
            r is Ok ==> final(self).level() == Some(Level::Low),
            r is Err ==> final(self).level() == old(self).level(),
    {
        match self.raw.set_low() {
            Ok(u) => {
                self.commanded = Ghost(Some(Level::Low));
                Ok(u)
            },
            Err(e) => Err(e),
        }
    }
}

/// A PWM channel together with the duty last commanded through it (`None`
/// until the first `set_duty`) and whether an enable has been commanded.
pub struct PwmOut<P: RawPwm> {
    pub raw: P,
    pub duty_model: Ghost<Option<P::Duty>>,
    pub enabled_model: Ghost<bool>,
}

impl<P: RawPwm> PwmOut<P> {
    /// The duty value last commanded through this handle.
    pub open spec fn duty(&self) -> Option<P::Duty> {
        self.duty_model@
    }

    /// Whether an enable has been commanded through this handle.
    pub open spec fn enabled(&self) -> bool {
        self.enabled_model@
    }

    /// Take ownership of a raw PWM channel. Nothing has been commanded yet.
    pub fn new(raw: P) -> (p: Self)
        ensures
            p.duty() is None,
            !p.enabled(),
    {
        PwmOut { raw, duty_model: Ghost(None), enabled_model: Ghost(false) }
    }

    /// Command a new duty value.
    pub fn set_duty(&mut self, duty: P::Duty)
        ensures
            final(self).duty() == Some(duty),
            final(self).enabled() == old(self).enabled(),
    {
        self.duty_model = Ghost(Some(duty));
        self.raw.set_duty(duty);
    }

    /// Command the channel output on.
    pub fn enable(&mut self)
        ensures
            final(self).enabled(),
            final(self).duty() == old(self).duty(),
    {
        self.enabled_model = Ghost(true);
        self.raw.enable();
    }
}

/// A bus master together with the `(address, command)` pair and the
/// answered byte of every transaction completed through it, in order.
pub struct BusPort<B> {
    pub raw: B,
    pub written: Ghost<Seq<(u8, u8)>>,
    pub answered: Ghost<Seq<u8>>,
}

impl<B: RawBus> BusPort<B> {
    /// The `(address, command)` pairs of every completed transaction.
    pub open spec fn writes(&self) -> Seq<(u8, u8)> {
        self.written@
    }

    /// The byte each completed transaction answered.
    pub open spec fn reads(&self) -> Seq<u8> {
        self.answered@
    }

    /// Take ownership of a raw bus handle. No transaction has happened yet.
    pub fn new(raw: B) -> (b: Self)
        ensures
            b.writes() == Seq::<(u8, u8)>::empty(),
            b.reads() == Seq::<u8>::empty(),
    {
        BusPort { raw, written: Ghost(Seq::empty()), answered: Ghost(Seq::empty()) }
    }

    /// Write `cmd` to the device at `addr` and read one byte back in the
    /// same transaction. The byte read is whatever the device answered;
    /// nothing relates it to earlier transactions. A failed transaction
    /// records nothing.
    pub fn write_read_byte(&mut self, addr: u8, cmd: u8) -> (r: Result<u8, B::BusError>)
        ensures
            r matches Ok(v) ==> {
                &&& final(self).writes() == old(self).writes().push((addr, cmd))
                &&& final(self).reads() == old(self).reads().push(v)
            },
            r is Err ==> {
                &&& final(self).writes() == old(self).writes()
                &&& final(self).reads() == old(self).reads()
            },
    {
        match self.raw.write_read_byte(addr, cmd) {
            Ok(v) => {
                self.written = Ghost(self.written@.push((addr, cmd)));
                self.answered = Ghost(self.answered@.push(v));
                Ok(v)
            },
            Err(e) => Err(e),
        }
    }
}

} // verus!
