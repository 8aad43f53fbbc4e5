//! Frequencies, and the dividers and multipliers of a clock tree.
use vstd::prelude::*;

verus! {

/// A frequency in hertz.
#[derive(Clone, Copy, Debug, PartialEq, Eq, Structural)]
pub struct Hertz(pub u32);

impl Hertz {
    pub fn hz(hertz: u32) -> (r: Self)
        ensures
            r.0 == hertz,
    {
        Hertz(hertz)
    }

    pub fn khz(kilohertz: u32) -> (r: Self)
        requires
            kilohertz * 1_000 <= u32::MAX,
        ensures
            r.0 == kilohertz * 1_000,
    {
        Hertz(kilohertz * 1_000)
    }

    pub fn mhz(megahertz: u32) -> (r: Self)
        requires
            megahertz * 1_000_000 <= u32::MAX,
        ensures
            r.0 == megahertz * 1_000_000,
    {
        Hertz(megahertz * 1_000_000)
    }
}

/// Something that divides a frequency: a prescaler.
pub trait ClockDivider {
    /// Whether `divide` is defined on `hz`.
    spec fn divides(&self, hz: Hertz) -> bool;

    spec fn spec_divide(&self, hz: Hertz) -> Hertz;

    fn divide(&self, hz: Hertz) -> (r: Hertz)
        requires
            self.divides(hz),
        ensures
            r == self.spec_divide(hz),
    ;
}

/// Something that multiplies a frequency: a PLL factor.
pub trait ClockMultiplier {
    /// Whether `multiply` is defined on `hz`: the product fits.
    spec fn multiplies(&self, hz: Hertz) -> bool;

    spec fn spec_multiply(&self, hz: Hertz) -> Hertz;

    fn multiply(&self, hz: Hertz) -> (r: Hertz)
        requires
            self.multiplies(hz),
        ensures
            r == self.spec_multiply(hz),
    ;
}

impl ClockMultiplier for u32 {
    open spec fn multiplies(&self, hz: Hertz) -> bool {
        hz.0 * *self <= u32::MAX
    }

    open spec fn spec_multiply(&self, hz: Hertz) -> Hertz {
        Hertz((hz.0 * *self) as u32)
    }

    fn multiply(&self, hz: Hertz) -> (r: Hertz) {
        Hertz::hz(hz.0 * *self)
    }
}

impl ClockDivider for u32 {
    open spec fn divides(&self, hz: Hertz) -> bool {
        *self != 0
    }

    open spec fn spec_divide(&self, hz: Hertz) -> Hertz {
        Hertz(hz.0 / *self)
    }

    fn divide(&self, hz: Hertz) -> (r: Hertz) {
        Hertz::hz(hz.0 / *self)
    }
}

impl Hertz {
    /// This frequency divided by `d`.
    pub fn div<D: ClockDivider>(self, d: &D) -> (r: Hertz)
        requires
            d.divides(self),
        ensures
            r == d.spec_divide(self),
    {
        d.divide(self)
    }

    /// This frequency multiplied by `m`.
    pub fn mul<M: ClockMultiplier>(self, m: &M) -> (r: Hertz)
        requires
            m.multiplies(self),
        ensures
            r == m.spec_multiply(self),
    {
        m.multiply(self)
    }

    pub fn as_ref(&self) -> (r: &u32)
        ensures
            *r == self.0,
    {
        &self.0
    }
}

} // verus!
