//! Driver for the ADS7830 eight-channel analog-to-digital converter.
//!
//! A conversion is requested by writing a single command byte that selects
//! the input channel, the reference-voltage mode and the power-down setting,
//! then reading one byte back in the same bus transaction. Channel selection
//! is typestate-checked: each selectable input is a marker type, so an
//! invalid channel cannot be requested at all.

use core::marker::PhantomData;
use vstd::prelude::*;

use crate::hal::{BusPort, RawBus};

verus! {

/// The reference-voltage mode, a single bit of the command byte. Fixed at
/// construction.
#[derive(Clone, Copy, Debug, PartialEq, Eq, Structural)]
pub enum Reference {
    Internal,
    External,
}

/// A closed choice of which physical input(s) a conversion reads: one of the
/// eight single-ended inputs, or one of the four input pairs in either
/// polarity.
#[derive(Clone, Copy, Debug, PartialEq, Eq, Structural)]
pub enum Selector {
    DiffCh0Ch1,
    DiffCh2Ch3,
    DiffCh4Ch5,
    DiffCh6Ch7,
    DiffCh1Ch0,
    DiffCh3Ch2,
    DiffCh5Ch4,
    DiffCh7Ch6,
    SingleCh0,
    SingleCh1,
    SingleCh2,
    SingleCh3,
    SingleCh4,
    SingleCh5,
    SingleCh6,
    SingleCh7,
}

/// The fixed 4-bit hardware channel code of each selector. Every selector
/// has exactly one code and no code is reused.
pub open spec fn selector_code(s: Selector) -> u8 {
    match s {
        Selector::DiffCh0Ch1 => 0b0000,
        Selector::DiffCh2Ch3 => 0b0001,
        Selector::DiffCh4Ch5 => 0b0010,
        Selector::DiffCh6Ch7 => 0b0011,
        Selector::DiffCh1Ch0 => 0b0100,
        Selector::DiffCh3Ch2 => 0b0101,
        Selector::DiffCh5Ch4 => 0b0110,
        Selector::DiffCh7Ch6 => 0b0111,
        Selector::SingleCh0 => 0b1000,
        Selector::SingleCh1 => 0b1100,
        Selector::SingleCh2 => 0b1001,
        Selector::SingleCh3 => 0b1101,
        Selector::SingleCh4 => 0b1010,
        Selector::SingleCh5 => 0b1110,
        Selector::SingleCh6 => 0b1011,
        Selector::SingleCh7 => 0b1111,
    }
}

/// The reference-mode bit of the command byte: 0 for internal, 1 for
/// external.
pub open spec fn reference_bit(m: Reference) -> u8 {
    match m {
        Reference::Internal => 0,
        Reference::External => 1,
    }
}

/// The command byte written to the device before a conversion: start bit
/// (bit 7), the 4-bit channel code (shifted into bits 7..4), the reference
/// bit (bit 3), and the power-down setting "internal reference off between
/// conversions, converter on" (bit 2). The two low bits stay zero.
pub open spec fn command_byte_spec(s: Selector, m: Reference) -> u8 {
    (1u8 << 7) | (selector_code(s) << 4) | (reference_bit(m) << 3) | (1u8 << 2)
}

/// Every channel code fits in 4 bits.
pub proof fn lemma_selector_code_fits(s: Selector)
    ensures
        selector_code(s) < 16,
{
}

/// No two channel selectors share a 4-bit code.
pub proof fn lemma_selector_codes_distinct(a: Selector, b: Selector)
    ensures
        selector_code(a) == selector_code(b) ==> a == b,
{
}

/// The exec mirror of [`selector_code`]: the fixed lookup table from
/// selector to 4-bit hardware channel code.
pub fn channel_code(s: Selector) -> (c: u8)
    ensures
        c == selector_code(s),
{
    match s {
        Selector::DiffCh0Ch1 => 0b0000,
        Selector::DiffCh2Ch3 => 0b0001,
        Selector::DiffCh4Ch5 => 0b0010,
        Selector::DiffCh6Ch7 => 0b0011,
        Selector::DiffCh1Ch0 => 0b0100,
        Selector::DiffCh3Ch2 => 0b0101,
        Selector::DiffCh5Ch4 => 0b0110,
        Selector::DiffCh7Ch6 => 0b0111,
        Selector::SingleCh0 => 0b1000,
        Selector::SingleCh1 => 0b1100,
        Selector::SingleCh2 => 0b1001,
        Selector::SingleCh3 => 0b1101,
        Selector::SingleCh4 => 0b1010,
        Selector::SingleCh5 => 0b1110,
        Selector::SingleCh6 => 0b1011,
        Selector::SingleCh7 => 0b1111,
    }
}

/// Build the command byte for one conversion.
pub fn command_byte(s: Selector, m: Reference) -> (c: u8)
    ensures
        c == command_byte_spec(s, m),
{
    let code = channel_code(s);
    let rb: u8 = match m {
        Reference::Internal => 0,
        Reference::External => 1,
    };
    (1u8 << 7) | (code << 4) | (rb << 3) | (1u8 << 2)
}

/// The bit layout of every command byte: the top bit is set, bits 7..4 hold
/// the channel code joined with the start bit, bit 3 is the reference bit,
/// bit 2 is set, and the two low bits are clear.
pub proof fn lemma_command_byte_fields(s: Selector, m: Reference)
    ensures
        command_byte_spec(s, m) >> 7 == 1,
        (command_byte_spec(s, m) >> 4) & 0xf == selector_code(s) | 8,
        (command_byte_spec(s, m) >> 3) & 1 == reference_bit(m),
        (command_byte_spec(s, m) >> 2) & 1 == 1,
        command_byte_spec(s, m) & 3 == 0,
{
    let c = selector_code(s);
    let rb = reference_bit(m);
    lemma_selector_code_fits(s);
    assert(rb < 2);
    assert(((1u8 << 7) | (c << 4) | (rb << 3) | (1u8 << 2)) >> 7 == 1) by (bit_vector)
        requires
            c < 16,
            rb < 2,
    ;
    assert((((1u8 << 7) | (c << 4) | (rb << 3) | (1u8 << 2)) >> 4) & 0xf == c | 8) by (bit_vector)
        requires
            c < 16,
            rb < 2,
    ;
    assert((((1u8 << 7) | (c << 4) | (rb << 3) | (1u8 << 2)) >> 3) & 1 == rb) by (bit_vector)
        requires
            c < 16,
            rb < 2,
    ;
    assert((((1u8 << 7) | (c << 4) | (rb << 3) | (1u8 << 2)) >> 2) & 1 == 1) by (bit_vector)
        requires
            c < 16,
            rb < 2,
    ;
    assert(((1u8 << 7) | (c << 4) | (rb << 3) | (1u8 << 2)) & 3 == 0) by (bit_vector)
        requires
            c < 16,
            rb < 2,
    ;
}

/// Marker trait of the eight physical analog inputs.
pub trait Analog {}

pub struct CH0;

pub struct CH1;

pub struct CH2;

pub struct CH3;

pub struct CH4;

pub struct CH5;

pub struct CH6;

pub struct CH7;

impl Analog for CH0 {}

impl Analog for CH1 {}

impl Analog for CH2 {}

impl Analog for CH3 {}

impl Analog for CH4 {}

impl Analog for CH5 {}

impl Analog for CH6 {}

impl Analog for CH7 {}

/// A typestate channel: a type implements this when it stands for a valid
/// input configuration, and it then knows its own selector and 4-bit code.
pub trait AdcInput {
    /// The selector this input configuration stands for.
    spec fn spec_selector() -> Selector;

    /// The 4-bit hardware channel code of this input configuration.
    fn channel() -> (c: u8)
        ensures
            c == selector_code(Self::spec_selector()),
    ;
}

/// A single-ended input reading the physical pin `P` against ground.
pub struct Single<P> {
    marker: PhantomData<P>,
}

/// A differential input reading pin `P` against pin `N`.
pub struct Differential<P, N> {
    marker_p: PhantomData<P>,
    marker_n: PhantomData<N>,
}

impl<P: Analog> Single<P> {
    pub fn new() -> (s: Self) {
        Single { marker: PhantomData }
    }
}

impl<P: Analog, N: Analog> Differential<P, N> {
    pub fn new() -> (s: Self) {
        Differential { marker_p: PhantomData, marker_n: PhantomData }
    }
}

impl AdcInput for Differential<CH0, CH1> {
    open spec fn spec_selector() -> Selector {
        Selector::DiffCh0Ch1
    }

    fn channel() -> (c: u8) {
        0b0000
    }
}

impl AdcInput for Differential<CH2, CH3> {
    open spec fn spec_selector() -> Selector {
        Selector::DiffCh2Ch3
    }

    fn channel() -> (c: u8) {
        0b0001
    }
}

impl AdcInput for Differential<CH4, CH5> {
    open spec fn spec_selector() -> Selector {
        Selector::DiffCh4Ch5
    }

    fn channel() -> (c: u8) {
        0b0010
    }
}

impl AdcInput for Differential<CH6, CH7> {
    open spec fn spec_selector() -> Selector {
        Selector::DiffCh6Ch7
    }

    fn channel() -> (c: u8) {
        0b0011
    }
}

impl AdcInput for Differential<CH1, CH0> {
    open spec fn spec_selector() -> Selector {
        Selector::DiffCh1Ch0
    }

    fn channel() -> (c: u8) {
        0b0100
    }
}

impl AdcInput for Differential<CH3, CH2> {
    open spec fn spec_selector() -> Selector {
        Selector::DiffCh3Ch2
    }

    fn channel() -> (c: u8) {
        0b0101
    }
}

impl AdcInput for Differential<CH5, CH4> {
    open spec fn spec_selector() -> Selector {
        Selector::DiffCh5Ch4
    }

    fn channel() -> (c: u8) {
        0b0110
    }
}

impl AdcInput for Differential<CH7, CH6> {
    open spec fn spec_selector() -> Selector {
        Selector::DiffCh7Ch6
    }

    fn channel() -> (c: u8) {
        0b0111
    }
}

impl AdcInput for Single<CH0> {
    open spec fn spec_selector() -> Selector {
        Selector::SingleCh0
    }

    fn channel() -> (c: u8) {
        0b1000
    }
}

impl AdcInput for Single<CH1> {
    open spec fn spec_selector() -> Selector {
        Selector::SingleCh1
    }

    fn channel() -> (c: u8) {
        0b1100
    }
}

impl AdcInput for Single<CH2> {
    open spec fn spec_selector() -> Selector {
        Selector::SingleCh2
    }

    fn channel() -> (c: u8) {
        0b1001
    }
}

impl AdcInput for Single<CH3> {
    open spec fn spec_selector() -> Selector {
        Selector::SingleCh3
    }

    fn channel() -> (c: u8) {
        0b1101
    }
}

impl AdcInput for Single<CH4> {
    open spec fn spec_selector() -> Selector {
        Selector::SingleCh4
    }

    fn channel() -> (c: u8) {
        0b1010
    }
}

impl AdcInput for Single<CH5> {
    open spec fn spec_selector() -> Selector {
        Selector::SingleCh5
    }

    fn channel() -> (c: u8) {
        0b1110
    }
}

impl AdcInput for Single<CH6> {
    open spec fn spec_selector() -> Selector {
        Selector::SingleCh6
    }

    fn channel() -> (c: u8) {
        0b1011
    }
}

impl AdcInput for Single<CH7> {
    open spec fn spec_selector() -> Selector {
        Selector::SingleCh7
    }

    fn channel() -> (c: u8) {
        0b1111
    }
}

/// The converter device: a bus handle, the device's 7-bit address, and the
/// reference-voltage mode, all fixed for the device's lifetime.
pub struct ADS7830<I2C> {
    pub i2c: BusPort<I2C>,
    pub addr: u8,
    pub reference: Reference,
}

impl<I2C: RawBus> ADS7830<I2C> {
    /// Take ownership of the bus and store the address and reference mode
    /// unchanged.
    pub fn new(i2c: I2C, addr: u8, reference: Reference) -> (d: Self)
        ensures
            d.i2c.writes() == Seq::<(u8, u8)>::empty(),
            d.i2c.reads() == Seq::<u8>::empty(),
            d.addr == addr,
            d.reference == reference,
    {
        Self { i2c: BusPort::new(i2c), addr, reference }
    }

    /// The stored reference-voltage mode, unchanged since construction.
    pub fn reference_mode(&self) -> (m: Reference)
        ensures
            m == self.reference,
    {
        self.reference
    }

    /// The stored device address, unchanged since construction.
    pub fn address(&self) -> (a: u8)
        ensures
            a == self.addr,
    {
        self.addr
    }

    /// Request one conversion on the input `CH` and return the raw sample:
    /// exactly one command byte, built for `CH` and the stored reference
    /// mode, goes out to the stored address, and the byte the device answers
    /// comes back untouched. A bus fault is passed through as `Other`;
    /// `WouldBlock` is never produced here.
    pub fn read<CH: AdcInput>(&mut self, _ch: &mut CH) -> (r: Result<
        u8,
        nb::Error<I2C::BusError>,
    >)
        ensures
            final(self).addr == old(self).addr,
            final(self).reference == old(self).reference,
            r matches Ok(v) ==> {
                &&& final(self).i2c.writes() == old(self).i2c.writes().push(
                    (old(self).addr, command_byte_spec(CH::spec_selector(), old(self).reference)),
                )
                &&& final(self).i2c.reads() == old(self).i2c.reads().push(v)
            },
            r is Err ==> {
                &&& final(self).i2c.writes() == old(self).i2c.writes()
                &&& final(self).i2c.reads() == old(self).i2c.reads()
                &&& r->Err_0 is Other
            },
    {
        let code = CH::channel();
        let rb: u8 = match self.reference {
            Reference::Internal => 0,
            Reference::External => 1,
        };
        let cmd: u8 = (1u8 << 7) | (code << 4) | (rb << 3) | (1u8 << 2);
        match self.i2c.write_read_byte(self.addr, cmd) {
            Ok(v) => Ok(v),
            Err(e) => Err(nb::Error::Other(e)),
        }
    }
}

} // verus!
