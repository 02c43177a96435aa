//! Driver for a DC motor behind a dual-H-bridge: two direction pins and one
//! PWM channel for speed. The bridge IC wired to the pins is fixed at
//! construction and affects only the initial brake-state setup; the runtime
//! command mapping is identical across ICs.

use vstd::prelude::*;

use crate::hal::{Level, OutPin, PwmOut, RawOutput, RawPwm};

verus! {

/// The command vocabulary: a rotation direction, free-spinning, or active
/// braking.
#[derive(Clone, Copy, Debug, PartialEq, Eq, Structural)]
pub enum Command {
    ClockWise,
    CounterClockWise,
    Coast,
    Break,
}

/// Which dual-H-bridge driver chip the direction pins are wired to.
#[derive(Clone, Copy, Debug, PartialEq, Eq, Structural)]
pub enum BridgeIc {
    L298,
    Tb6612Fng,
}

/// The two direction-pin levels each command maps to, `(pin 1, pin 2)`.
pub open spec fn command_levels(c: Command) -> (Level, Level) {
    match c {
        Command::ClockWise => (Level::High, Level::Low),
        Command::CounterClockWise => (Level::Low, Level::High),
        Command::Coast => (Level::Low, Level::Low),
        Command::Break => (Level::High, Level::High),
    }
}

/// A DC motor: exclusive owner of its two direction pins and its PWM
/// channel. Direction is re-asserted on every `run` call; there is no
/// stored direction state.
pub struct Motor<IN1, IN2, PWM> where IN1: RawOutput, IN2: RawOutput, PWM: RawPwm {
    pub in1: OutPin<IN1>,
    pub in2: OutPin<IN2>,
    pub pwm: PwmOut<PWM>,
    pub ic: BridgeIc,
}

impl<IN1, IN2, PWM> Motor<IN1, IN2, PWM> where
    IN1: RawOutput,
    IN2: RawOutput<PinError = IN1::PinError>,
    PWM: RawPwm,
{
    /// Shared construction path: drive both pins high (brake), enable the
    /// PWM channel, and record which bridge IC is wired. The motor never
    /// powers up in an undefined direction.
    fn with_ic(in1: IN1, in2: IN2, pwm: PWM, ic: BridgeIc) -> (r: Result<Self, IN1::PinError>)
        ensures
            r matches Ok(m) ==> {
                &&& m.in1.level() == Some(Level::High)
                &&& m.in2.level() == Some(Level::High)
                &&& m.pwm.enabled()
                &&& m.pwm.duty() is None
                &&& m.ic == ic
            },
    {
        let mut in1 = OutPin::new(in1);
        let mut in2 = OutPin::new(in2);
        let mut pwm = PwmOut::new(pwm);
        match in1.set_high() {
            Ok(u) => u,
            Err(e) => {
                return Err(e);
            },
        }
        match in2.set_high() {
            Ok(u) => u,
            Err(e) => {
                return Err(e);
            },
        }
        pwm.enable();
        Ok(Motor { in1, in2, pwm, ic })
    }

    /// Create a motor wired to an L298 bridge, starting in the brake state
    /// with the PWM channel enabled.
    pub fn l298(in1: IN1, in2: IN2, pwm: PWM) -> (r: Result<Self, IN1::PinError>)
        ensures
            r matches Ok(m) ==> {
                &&& m.in1.level() == Some(Level::High)
                &&& m.in2.level() == Some(Level::High)
                &&& m.pwm.enabled()
                &&& m.ic == BridgeIc::L298
            },
    {
        Self::with_ic(in1, in2, pwm, BridgeIc::L298)
    }

    /// Create a motor wired to a TB6612FNG bridge, starting in the brake
    /// state with the PWM channel enabled.
    pub fn tb6612fng(in1: IN1, in2: IN2, pwm: PWM) -> (r: Result<Self, IN1::PinError>)
        ensures
            r matches Ok(m) ==> {
                &&& m.in1.level() == Some(Level::High)
                &&& m.in2.level() == Some(Level::High)
                &&& m.pwm.enabled()
                &&& m.ic == BridgeIc::Tb6612Fng
            },
    {
        Self::with_ic(in1, in2, pwm, BridgeIc::Tb6612Fng)
    }

    /// The stored bridge-IC tag, unchanged since construction.
    pub fn bridge_ic(&self) -> (i: BridgeIc)
        ensures
            i == self.ic,
    {
        self.ic
    }

    /// Apply one command: set both direction pins per the command table,
    /// then set the PWM duty, in that order. On success the pins hold
    /// exactly the commanded levels and the channel carries the requested
    /// duty. A failed pin write aborts before the duty is touched; pin 1 is
    /// written first, so on failure pin 2 and the PWM state are unchanged.
    pub fn run(&mut self, dir: Command, duty: PWM::Duty) -> (r: Result<(), IN1::PinError>)
        ensures
            final(self).ic == old(self).ic,
            r is Ok ==> {
                &&& final(self).in1.level() == Some(command_levels(dir).0)
                &&& final(self).in2.level() == Some(command_levels(dir).1)
                &&& final(self).pwm.duty() == Some(duty)
                &&& final(self).pwm.enabled() == old(self).pwm.enabled()
            },
            r is Err ==> {
                &&& final(self).pwm.duty() == old(self).pwm.duty()
                &&& final(self).pwm.enabled() == old(self).pwm.enabled()
                &&& final(self).in2.level() == old(self).in2.level()
                &&& (final(self).in1.level() == old(self).in1.level() || final(self).in1.level()
                    == Some(command_levels(dir).0))
            },
    {
        let first = match dir {
            Command::ClockWise => self.in1.set_high(),
            Command::CounterClockWise => self.in1.set_low(),
            Command::Coast => self.in1.set_low(),
            Command::Break => self.in1.set_high(),
        };
        match first {
            Ok(u) => u,
            Err(e) => {
                return Err(e);
            },
        }
        let second = match dir {
            Command::ClockWise => self.in2.set_low(),
            Command::CounterClockWise => self.in2.set_high(),
            Command::Coast => self.in2.set_low(),
            Command::Break => self.in2.set_high(),
        };
        match second {
            Ok(u) => u,
            Err(e) => {
                return Err(e);
            },
        }
        self.pwm.set_duty(duty);
        Ok(())
    }
}

} // verus!
