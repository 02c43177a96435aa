//! Driver for a four-phase unipolar stepper motor: an ordered sequence of
//! owned phase pins, a current position, and a rotation direction. Exactly
//! one phase pin is energized at any time; `step` advances the position by
//! one, wrapping at either end, and blocks for the settle delay.

use vstd::prelude::*;

use crate::hal::{DelayProvider, Level, OutPin, RawOutput};

verus! {

/// The rotation direction. Clockwise steps increment the position,
/// counter-clockwise steps decrement it, both modulo the pin count.
#[derive(Clone, Copy, Debug, PartialEq, Eq, Structural)]
pub enum Dir {
    CCW,
    CW,
}

/// The position one step away from `pos` in direction `dir`, wrapping from
/// the last index to 0 (clockwise) and from 0 to the last index
/// (counter-clockwise).
pub open spec fn next_pos_spec(len: int, pos: int, dir: Dir) -> int
    recommends
        0 < len,
        0 <= pos < len,
{
    match dir {
        Dir::CW => if pos == len - 1 {
            0
        } else {
            pos + 1
        },
        Dir::CCW => if pos == 0 {
            len - 1
        } else {
            pos - 1
        },
    }
}

/// A stepper motor: exclusive owner of its phase pins (in hardware wiring
/// order), the currently energized position, the rotation direction, the
/// settle interval in milliseconds, and the delay source that provides it.
pub struct StepperMotor<PIN, DEL> {
    pub pins: Vec<OutPin<PIN>>,
    pub pos: usize,
    pub dir: Dir,
    pub settle_ms: u64,
    pub delay: DEL,
}

impl<PIN: RawOutput, DEL: DelayProvider> StepperMotor<PIN, DEL> {
    /// Structural well-formedness: there is at least one phase pin and the
    /// position indexes into the pin sequence.
    pub open spec fn wf(&self) -> bool {
        &&& self.pins@.len() > 0
        &&& self.pos < self.pins@.len()
    }

    /// The phase-energization invariant: the pin at the current position is
    /// high and every other pin is low.
    pub open spec fn one_hot(&self) -> bool {
        forall|i: int|
            0 <= i < self.pins@.len() ==> (#[trigger] self.pins@[i].level()) == Some(
                if i == self.pos as int {
                    Level::High
                } else {
                    Level::Low
                },
            )
    }

    /// Create a sequencer: drive every phase pin low, then the starting
    /// position high, then block for one settle interval. On success the
    /// single-energized-phase invariant holds at the starting position.
    pub fn new(pins: Vec<PIN>, pos: usize, dir: Dir, settle_ms: u64, delay: DEL) -> (r: Result<
        Self,
        PIN::PinError,
    >)
        requires
            pins@.len() > 0,
            pos < pins@.len(),
        ensures
            r matches Ok(s) ==> {
                &&& s.wf()
                &&& s.one_hot()
                &&& s.pos == pos
                &&& s.dir == dir
                &&& s.settle_ms == settle_ms
                &&& s.pins@.len() == pins@.len()
            },
    {
        let mut raw = pins;
        let mut delay = delay;
        let n = raw.len();
        let mut pins: Vec<OutPin<PIN>> = Vec::new();
        while raw.len() > 0
            invariant
                pins@.len() + raw@.len() == n,
            decreases raw@.len(),
        {
            let head = raw.remove(0);
            pins.push(OutPin::new(head));
        }
        let mut i: usize = 0;
        while i < n
            invariant
                pins@.len() == n,
                i <= n,
                pos < n,
                forall|j: int| 0 <= j < i ==> (#[trigger] pins@[j].level()) == Some(Level::Low),
            decreases n - i,
        {
            let p = &mut pins[i];
            match p.set_low() {
                Ok(u) => u,
                Err(e) => {
                    return Err(e);
                },
            }
            i = i + 1;
        }
        let p = &mut pins[pos];
        match p.set_high() {
            Ok(u) => u,
            Err(e) => {
                return Err(e);
            },
        }
        delay.delay_ms(settle_ms);
        Ok(StepperMotor { pins, pos, dir, settle_ms, delay })
    }

    /// The currently energized position.
    pub fn position(&self) -> (p: usize)
        ensures
            p == self.pos,
    {
        self.pos
    }

    /// The stored rotation direction.
    pub fn direction(&self) -> (d: Dir)
        ensures
            d == self.dir,
    {
        self.dir
    }

    /// The number of phase pins.
    pub fn pin_count(&self) -> (n: usize)
        ensures
            n == self.pins@.len(),
    {
        self.pins.len()
    }

    /// The phase pins, for inspection only.
    pub fn phase_pins(&self) -> (p: &Vec<OutPin<PIN>>)
        ensures
            p == &self.pins,
    {
        &self.pins
    }

    /// The settle interval in milliseconds.
    pub fn settle_millis(&self) -> (ms: u64)
        ensures
            ms == self.settle_ms,
    {
        self.settle_ms
    }

    /// Change the rotation direction. Pure state update: no pin is touched,
    /// and it takes effect on the next `step` call.
    pub fn set_dir(&mut self, dir: Dir)
        ensures
            final(self).dir == dir,
            final(self).pins == old(self).pins,
            final(self).pos == old(self).pos,
            final(self).settle_ms == old(self).settle_ms,
    {
        self.dir = dir;
    }

    /// The position the next `step` call will move to.
    fn next_pos(&self) -> (n: usize)
        requires
            self.wf(),
        ensures
            n == next_pos_spec(self.pins@.len() as int, self.pos as int, self.dir),
            n < self.pins@.len(),
    {
        match self.dir {
            Dir::CW => {
                if self.pos == self.pins.len() - 1 {
                    0
                } else {
                    self.pos + 1
                }
            },
            Dir::CCW => {
                if self.pos == 0 {
                    self.pins.len() - 1
                } else {
                    self.pos - 1
                }
            },
        }
    }

    /// Advance one physical step: de-energize the current position, energize
    /// the next one, update the stored position, and block for the settle
    /// interval. On success the position has advanced by exactly one in the
    /// stored direction and, given the invariant held before, it holds
    /// again at the new position. On a failed pin write the position is
    /// unchanged and the error is surfaced; at most the current phase pin
    /// has been driven low, no other pin is touched, so the motor may be
    /// left with no phase energized but never with two.
    pub fn step(&mut self) -> (r: Result<(), PIN::PinError>)
        requires
            old(self).wf(),
        ensures
            final(self).wf(),
            final(self).dir == old(self).dir,
            final(self).settle_ms == old(self).settle_ms,
            final(self).pins@.len() == old(self).pins@.len(),
            r is Ok ==> final(self).pos == next_pos_spec(
                old(self).pins@.len() as int,
                old(self).pos as int,
                old(self).dir,
            ),
            r is Ok && old(self).one_hot() ==> final(self).one_hot(),
            r is Err ==> {
                &&& final(self).pos == old(self).pos
                &&& forall|i: int|
                    0 <= i < old(self).pins@.len() && i != old(self).pos as int ==> (
                    #[trigger] final(self).pins@[i].level()) == old(self).pins@[i].level()
                &&& (final(self).pins@[old(self).pos as int].level() == old(self).pins@[old(
                    self,
                ).pos as int].level() || final(self).pins@[old(self).pos as int].level() == Some(
                    Level::Low,
                ))
            },
    {
        let curr = self.pos;
        let next = self.next_pos();
        let p = &mut self.pins[curr];
        match p.set_low() {
            Ok(u) => u,
            Err(e) => {
                return Err(e);
            },
        }
        let q = &mut self.pins[next];
        match q.set_high() {
            Ok(u) => u,
            Err(e) => {
                return Err(e);
            },
        }
        self.pos = next;
        let ms = self.settle_ms;
        self.delay.delay_ms(ms);
        Ok(())
    }
}

} // verus!
