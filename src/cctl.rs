//! Clock tree configuration: sources, PLL, bus prescalers, and the
//! frequencies and register fields they give.
use vstd::prelude::*;
use crate::time::{ClockDivider, ClockMultiplier, Hertz};

verus! {

#[derive(Clone, Copy, Debug, PartialEq, Eq, Structural)]
pub enum ClockSrc {
    IRC8M,
    PLL,
    HXTAL(Hertz),
}

#[derive(Clone, Copy, Debug, PartialEq, Eq, Structural)]
pub enum PLLSource {
    IRC8MDiv2,
    HXTAL(Hertz, PLLPreDiv),
    IRC48M(PLLPreDiv),
}

#[derive(Clone, Copy, Debug, PartialEq, Eq, Structural)]
pub enum PLLConfig {
    Off,
    On(PLLSource, PLLMul),
}

/// A PLL multiplication factor, from 2 to 63.
#[derive(Clone, Copy, Debug, PartialEq, Eq, Structural)]
pub struct PLLMul(u8);

impl PLLMul {
    #[verifier::type_invariant]
    closed spec fn inv(&self) -> bool {
        1 < self.0 < 64
    }

    pub closed spec fn spec_factor(&self) -> u8 {
        self.0
    }

    pub fn factor(mf: u8) -> (r: Self)
        requires
            1 < mf < 64,
        ensures
            r.spec_factor() == mf,
    {
        PLLMul(mf)
    }

    pub fn value(&self) -> (r: u8)
        ensures
            r == self.spec_factor(),
            1 < r < 64,
    {
        proof {
            use_type_invariant(self);
        }
        self.0
    }
}

impl ClockMultiplier for PLLMul {
    open spec fn multiplies(&self, hz: Hertz) -> bool {
        hz.0 * self.spec_factor() <= u32::MAX
    }

    open spec fn spec_multiply(&self, hz: Hertz) -> Hertz {
        Hertz((hz.0 * self.spec_factor()) as u32)
    }

    fn multiply(&self, hz: Hertz) -> (r: Hertz) {
        Hertz::hz(hz.0 * self.value() as u32)
    }
}

#[derive(Clone, Copy, Debug, PartialEq, Eq, Structural)]
pub enum PLLPreDiv {
    Div1,
    Div2,
}

impl ClockDivider for PLLPreDiv {
    open spec fn divides(&self, hz: Hertz) -> bool {
        true
    }

    open spec fn spec_divide(&self, hz: Hertz) -> Hertz {
        match *self {
            PLLPreDiv::Div1 => hz,
            PLLPreDiv::Div2 => Hertz(hz.0 / 2),
        }
    }

    fn divide(&self, hz: Hertz) -> (r: Hertz) {
        match self {
            PLLPreDiv::Div1 => hz,
            PLLPreDiv::Div2 => Hertz::hz(hz.0 / 2),
        }
    }
}

#[derive(Clone, Copy, Debug, PartialEq, Eq, Structural)]
pub enum AHBPreDiv {
    Div1,
    Div2,
    Div4,
    Div8,
    Div16,
    Div64,
    Div128,
    Div256,
    Div512,
}

pub open spec fn ahb_divisor(d: AHBPreDiv) -> u32 {
    match d {
        AHBPreDiv::Div1 => 1,
        AHBPreDiv::Div2 => 2,
        AHBPreDiv::Div4 => 4,
        AHBPreDiv::Div8 => 8,
        AHBPreDiv::Div16 => 16,
        AHBPreDiv::Div64 => 64,
        AHBPreDiv::Div128 => 128,
        AHBPreDiv::Div256 => 256,
        AHBPreDiv::Div512 => 512,
    }
}

/// The prescaler field value: 0 for no division, else 0b1000 and up.
pub open spec fn ahb_bits(d: AHBPreDiv) -> u8 {
    match d {
        AHBPreDiv::Div1 => 0b0000,
        AHBPreDiv::Div2 => 0b1000,
        AHBPreDiv::Div4 => 0b1001,
        AHBPreDiv::Div8 => 0b1010,
        AHBPreDiv::Div16 => 0b1011,
        AHBPreDiv::Div64 => 0b1100,
        AHBPreDiv::Div128 => 0b1101,
        AHBPreDiv::Div256 => 0b1110,
        AHBPreDiv::Div512 => 0b1111,
    }
}

impl AHBPreDiv {
    /// The divided frequency and the prescaler field value.
    pub fn operate(&self, hz: Hertz) -> (r: (Hertz, u8))
        ensures
            r.0 == Hertz(hz.0 / ahb_divisor(*self)),
            r.1 == ahb_bits(*self),
    {
        match self {
            AHBPreDiv::Div1 => (hz, 0b0000),
            AHBPreDiv::Div2 => (Hertz::hz(hz.0 / 2), 0b1000),
            AHBPreDiv::Div4 => (Hertz::hz(hz.0 / 4), 0b1001),
            AHBPreDiv::Div8 => (Hertz::hz(hz.0 / 8), 0b1010),
            AHBPreDiv::Div16 => (Hertz::hz(hz.0 / 16), 0b1011),
            AHBPreDiv::Div64 => (Hertz::hz(hz.0 / 64), 0b1100),
            AHBPreDiv::Div128 => (Hertz::hz(hz.0 / 128), 0b1101),
            AHBPreDiv::Div256 => (Hertz::hz(hz.0 / 256), 0b1110),
            AHBPreDiv::Div512 => (Hertz::hz(hz.0 / 512), 0b1111),
        }
    }
}

impl ClockDivider for AHBPreDiv {
    open spec fn divides(&self, hz: Hertz) -> bool {
        true
    }

    open spec fn spec_divide(&self, hz: Hertz) -> Hertz {
        Hertz(hz.0 / ahb_divisor(*self))
    }

    fn divide(&self, hz: Hertz) -> (r: Hertz) {
        let (hz, _bits) = self.operate(hz);
        hz
    }
}

#[derive(Clone, Copy, Debug, PartialEq, Eq, Structural)]
pub enum APBPreDiv {
    Div1,
    Div2,
    Div4,
    Div8,
    Div16,
}

pub open spec fn apb_divisor(d: APBPreDiv) -> u32 {
    match d {
        APBPreDiv::Div1 => 1,
        APBPreDiv::Div2 => 2,
        APBPreDiv::Div4 => 4,
        APBPreDiv::Div8 => 8,
        APBPreDiv::Div16 => 16,
    }
}

/// The prescaler field value: 0 for no division, else 0b100 and up.
pub open spec fn apb_bits(d: APBPreDiv) -> u8 {
    match d {
        APBPreDiv::Div1 => 0b000,
        APBPreDiv::Div2 => 0b100,
        APBPreDiv::Div4 => 0b101,
        APBPreDiv::Div8 => 0b110,
        APBPreDiv::Div16 => 0b111,
    }
}

impl APBPreDiv {
    /// The divided frequency and the prescaler field value.
    pub fn operate(&self, hz: Hertz) -> (r: (Hertz, u8))
        ensures
            r.0 == Hertz(hz.0 / apb_divisor(*self)),
            r.1 == apb_bits(*self),
    {
        match self {
            APBPreDiv::Div1 => (hz, 0b000),
            APBPreDiv::Div2 => (Hertz::hz(hz.0 / 2), 0b100),
            APBPreDiv::Div4 => (Hertz::hz(hz.0 / 4), 0b101),
            APBPreDiv::Div8 => (Hertz::hz(hz.0 / 8), 0b110),
            APBPreDiv::Div16 => (Hertz::hz(hz.0 / 16), 0b111),
        }
    }
}

impl ClockDivider for APBPreDiv {
    open spec fn divides(&self, hz: Hertz) -> bool {
        true
    }

    open spec fn spec_divide(&self, hz: Hertz) -> Hertz {
        Hertz(hz.0 / apb_divisor(*self))
    }

    fn divide(&self, hz: Hertz) -> (r: Hertz) {
        let (hz, _bits) = self.operate(hz);
        hz
    }
}

#[derive(Clone, Copy, Debug, PartialEq, Eq, Structural)]
pub enum LXTALConfig {
    Off,
    Enable(Hertz),
}

#[derive(Clone, Copy, Debug, PartialEq, Eq, Structural)]
pub struct Config {
    pub pll: PLLConfig,
    pub ck_sys: ClockSrc,
    pub ahb_prediv: AHBPreDiv,
    pub apb1_prediv: APBPreDiv,
    pub apb2_prediv: APBPreDiv,
    pub lxtal: LXTALConfig,
}

impl Default for Config {
    fn default() -> (r: Self)
        ensures
            r == (Config {
                pll: PLLConfig::Off,
                ck_sys: ClockSrc::IRC8M,
                ahb_prediv: AHBPreDiv::Div1,
                apb1_prediv: APBPreDiv::Div1,
                apb2_prediv: APBPreDiv::Div1,
                lxtal: LXTALConfig::Off,
            }),
    {
        Config {
            pll: PLLConfig::Off,
            ck_sys: ClockSrc::IRC8M,
            ahb_prediv: AHBPreDiv::Div1,
            apb1_prediv: APBPreDiv::Div1,
            apb2_prediv: APBPreDiv::Div1,
            lxtal: LXTALConfig::Off,
        }
    }
}

/// A peripheral with its own bus clock gate.
pub trait CCTLPeripherial {
    fn frequency() -> Hertz;

    fn enable();

    fn disable();
}

/// The frequencies of the clock tree once configured.
#[derive(Clone, Copy, Debug, PartialEq, Eq, Structural)]
pub struct Clocks {
    pub sys: Hertz,
    pub ahb: Hertz,
    pub apb1: Hertz,
    pub apb2: Hertz,
    pub rtc: Hertz,
}

/// The PLL output frequency, before any bound on it.
pub open spec fn spec_pll_hz(pll: PLLConfig) -> int {
    match pll {
        PLLConfig::Off => 0,
        PLLConfig::On(src, mul) => {
            let input: int = match src {
                PLLSource::IRC8MDiv2 => 4_000_000,
                PLLSource::HXTAL(hz, prediv) => prediv.spec_divide(hz).0 as int,
                PLLSource::IRC48M(prediv) => prediv.spec_divide(Hertz(48_000_000)).0 as int,
            };
            input * mul.spec_factor()
        },
    }
}

/// The system clock frequency.
pub open spec fn spec_sys_hz(config: Config) -> int {
    match config.ck_sys {
        ClockSrc::IRC8M => 8_000_000,
        ClockSrc::HXTAL(hz) => hz.0 as int,
        ClockSrc::PLL => spec_pll_hz(config.pll),
    }
}

pub open spec fn spec_ahb_hz(config: Config) -> int {
    spec_sys_hz(config) / ahb_divisor(config.ahb_prediv) as int
}

pub open spec fn spec_apb1_hz(config: Config) -> int {
    spec_ahb_hz(config) / apb_divisor(config.apb1_prediv) as int
}

pub open spec fn spec_apb2_hz(config: Config) -> int {
    spec_ahb_hz(config) / apb_divisor(config.apb2_prediv) as int
}

/// A configuration the chip can run: the PLL product fits 32 bits, the
/// system clock is at most 180 MHz and the APB1 bus at most 90 MHz.
pub open spec fn spec_config_valid(config: Config) -> bool {
    &&& spec_pll_hz(config.pll) <= u32::MAX
    &&& spec_sys_hz(config) <= 180_000_000
    &&& spec_apb1_hz(config) <= 90_000_000
}

/// Flash wait states needed at an AHB frequency of at most 180 MHz.
pub open spec fn spec_wait_states(ahb: int) -> u8 {
    if ahb <= 36_000_000 {
        0
    } else if ahb <= 73_000_000 {
        1
    } else if ahb <= 108_000_000 {
        2
    } else if ahb <= 144_000_000 {
        3
    } else {
        4
    }
}

pub fn flash_wait_states(ahb: Hertz) -> (r: u8)
    requires
        ahb.0 <= 180_000_000,
    ensures
        r == spec_wait_states(ahb.0 as int),
{
    if ahb.0 <= 36_000_000 {
        0
    } else if ahb.0 <= 73_000_000 {
        1
    } else if ahb.0 <= 108_000_000 {
        2
    } else if ahb.0 <= 144_000_000 {
        3
    } else {
        4
    }
}

/// The PLL multiplication field for a factor: factors 2 to 16 encode as
/// factor - 2, larger ones as factor - 1.
pub open spec fn spec_pll_mf(mul: PLLMul) -> u32 {
    if mul.spec_factor() <= 16 {
        (mul.spec_factor() - 2) as u32
    } else {
        (mul.spec_factor() - 1) as u32
    }
}

pub fn pll_mf(mul: PLLMul) -> (r: u32)
    ensures
        r == spec_pll_mf(mul),
{
    let f = mul.value();
    if f <= 16 {
        (f - 2) as u32
    } else {
        (f - 1) as u32
    }
}

/// Everything the clock initialisation writes, computed from a config.
#[derive(Clone, Copy, Debug, PartialEq, Eq, Structural)]
pub struct ClockSetup {
    pub clocks: Clocks,
    /// The PLL is turned on, with this multiplication field and source
    /// (external when `pll_external`).
    pub pll_on: bool,
    pub pll_mf: u32,
    pub pll_external: bool,
    /// The high-speed crystal is turned on.
    pub hxtal_on: bool,
    /// System clock switch: 0 internal 8 MHz, 1 crystal, 2 PLL.
    pub system_source: u8,
    pub ahb_bits: u8,
    pub apb1_bits: u8,
    pub apb2_bits: u8,
    /// The core needs its high-drive mode (AHB at 70 MHz or more).
    pub high_drive: bool,
    pub flash_wait_states: u8,
}

pub fn config_valid(config: &Config) -> (r: bool)
    ensures
        r == spec_config_valid(*config),
{
    let pll_hz: u64 = match config.pll {
        PLLConfig::Off => 0,
        PLLConfig::On(src, mul) => {
            let input: u32 = match src {
                PLLSource::IRC8MDiv2 => 4_000_000,
                PLLSource::HXTAL(hz, prediv) => prediv.divide(hz).0,
                PLLSource::IRC48M(prediv) => prediv.divide(Hertz::mhz(48)).0,
            };
            let factor = mul.value();
            assert(input as u64 * factor as u64 <= 0xFFFF_FFFFu64 * 64) by (nonlinear_arith)
                requires
                    factor < 64,
            ;
            (input as u64) * (factor as u64)
        },
    };
    if pll_hz > 0xFFFF_FFFF {
        return false;
    }
    let sys: u64 = match config.ck_sys {
        ClockSrc::IRC8M => 8_000_000,
        ClockSrc::HXTAL(hz) => hz.0 as u64,
        ClockSrc::PLL => pll_hz,
    };
    if sys > 180_000_000 {
        return false;
    }
    let (ahb, _) = config.ahb_prediv.operate(Hertz::hz(sys as u32));
    let (apb1, _) = config.apb1_prediv.operate(ahb);
    apb1.0 <= 90_000_000
}

/// Computes the clock tree for a valid config.
pub fn compute_clocks(config: &Config) -> (r: ClockSetup)
    requires
        spec_config_valid(*config),
    ensures
        r.clocks == (Clocks {
            sys: Hertz(spec_sys_hz(*config) as u32),
            ahb: Hertz(spec_ahb_hz(*config) as u32),
            apb1: Hertz(spec_apb1_hz(*config) as u32),
            apb2: Hertz(spec_apb2_hz(*config) as u32),
            rtc: Hertz(0),
        }),
        r.pll_on == config.pll is On,
        config.pll is On ==> r.pll_mf == spec_pll_mf(config.pll->On_1),
        config.pll is On ==> r.pll_external == !(config.pll->On_0 is IRC8MDiv2),
        r.hxtal_on == config.ck_sys is HXTAL,
        r.system_source == match config.ck_sys {
            ClockSrc::IRC8M => 0u8,
            ClockSrc::HXTAL(_) => 1,
            ClockSrc::PLL => 2,
        },
        r.ahb_bits == ahb_bits(config.ahb_prediv),
        r.apb1_bits == apb_bits(config.apb1_prediv),
        r.apb2_bits == apb_bits(config.apb2_prediv),
        r.high_drive == (spec_ahb_hz(*config) >= 70_000_000),
        r.flash_wait_states == spec_wait_states(spec_ahb_hz(*config)),
{
    let mut pll_on = false;
    let mut pll_mf_value: u32 = 0;
    let mut pll_external = false;
    let pll_hz = match config.pll {
        PLLConfig::Off => Hertz::hz(0),
        PLLConfig::On(src, mul) => {
            pll_on = true;
            pll_mf_value = pll_mf(mul);
            let input = match src {
                PLLSource::IRC8MDiv2 => Hertz::mhz(4),
                PLLSource::HXTAL(hz, prediv) => {
                    pll_external = true;
                    prediv.divide(hz)
                },
                PLLSource::IRC48M(prediv) => {
                    pll_external = true;
                    prediv.divide(Hertz::mhz(48))
                },
            };
            mul.multiply(input)
        },
    };
    let (sys, system_source, hxtal_on) = match config.ck_sys {
        ClockSrc::IRC8M => (Hertz::mhz(8), 0u8, false),
        ClockSrc::HXTAL(hz) => (hz, 1u8, true),
        ClockSrc::PLL => (pll_hz, 2u8, false),
    };
    let (ahb, ahb_bits) = config.ahb_prediv.operate(sys);
    let (apb1, apb1_bits) = config.apb1_prediv.operate(ahb);
    let (apb2, apb2_bits) = config.apb2_prediv.operate(ahb);
    assert(ahb.0 <= sys.0) by (nonlinear_arith)
        requires
            ahb.0 == sys.0 / ahb_divisor(config.ahb_prediv),
            ahb_divisor(config.ahb_prediv) >= 1,
    ;
    let flash = flash_wait_states(ahb);
    ClockSetup {
        clocks: Clocks { sys, ahb, apb1, apb2, rtc: Hertz::hz(0) },
        pll_on,
        pll_mf: pll_mf_value,
        pll_external,
        hxtal_on,
        system_source,
        ahb_bits,
        apb1_bits,
        apb2_bits,
        high_drive: ahb.0 >= 70_000_000,
        flash_wait_states: flash,
    }
}

} // verus!
