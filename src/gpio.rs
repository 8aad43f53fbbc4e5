//! Pin modes, levels and speeds, and the port control register fields.
use vstd::prelude::*;
use crate::time::Hertz;

verus! {

#[derive(Clone, Copy, Debug, PartialEq, Eq, Structural)]
pub enum Pull {
    Floating,
    Up,
    Down,
}

#[derive(Clone, Copy, Debug, PartialEq, Eq, Structural)]
pub enum Speed {
    Low,
    Medium,
    High,
    VeryHigh,
}

/// The slowest output speed class that can follow a signal of `hz`.
pub open spec fn speed_for(hz: Hertz) -> Speed {
    if hz.0 <= 10_000_000 {
        Speed::Low
    } else if hz.0 <= 20_000_000 {
        Speed::Medium
    } else if hz.0 <= 50_000_000 {
        Speed::High
    } else {
        Speed::VeryHigh
    }
}

impl From<Hertz> for Speed {
    fn from(value: Hertz) -> (r: Speed) {
        if value.0 <= 10_000_000 {
            Speed::Low
        } else if value.0 <= 20_000_000 {
            Speed::Medium
        } else if value.0 <= 50_000_000 {
            Speed::High
        } else {
            Speed::VeryHigh
        }
    }
}

impl vstd::std_specs::convert::FromSpecImpl<Hertz> for Speed {
    open spec fn obeys_from_spec() -> bool {
        true
    }

    open spec fn from_spec(v: Hertz) -> Speed {
        speed_for(v)
    }
}

#[derive(Clone, Copy, Debug, PartialEq, Eq, Structural)]
pub enum OutputType {
    GPIOPushPull,
    GPIOOpenDrain,
    AFPushPull,
    AFOpenDrain,
}

#[derive(Clone, Copy, Debug, PartialEq, Eq, Structural)]
pub enum Level {
    Low,
    High,
}

impl From<bool> for Level {
    fn from(val: bool) -> (r: Level) {
        if val {
            Level::High
        } else {
            Level::Low
        }
    }
}

impl vstd::std_specs::convert::FromSpecImpl<bool> for Level {
    open spec fn obeys_from_spec() -> bool {
        true
    }

    open spec fn from_spec(v: bool) -> Level {
        if v {
            Level::High
        } else {
            Level::Low
        }
    }
}

impl From<Level> for bool {
    fn from(level: Level) -> (r: bool) {
        match level {
            Level::High => true,
            Level::Low => false,
        }
    }
}

impl vstd::std_specs::convert::FromSpecImpl<Level> for bool {
    open spec fn obeys_from_spec() -> bool {
        true
    }

    open spec fn from_spec(v: Level) -> bool {
        v == Level::High
    }
}

/// Writes the four-bit mode field `pos` (0 to 7) of a port control
/// register value, keeping the other fields.
pub fn set_mode(reg: u32, mode: u32, pos: u8) -> (r: u32)
    requires
        pos < 8,
        mode < 16,
    ensures
        (r >> (4 * pos) as u32) & 0xF == mode,
        r & !(0xFu32 << (4 * pos) as u32) == reg & !(0xFu32 << (4 * pos) as u32),
{
    let shift: u32 = 4 * (pos as u32);
    let r = (reg & !(0x0Fu32 << shift)) | (mode << shift);
    assert((((reg & !(0x0Fu32 << shift)) | (mode << shift)) >> shift) & 0xF == mode) by (bit_vector)
        requires
            shift <= 28,
            mode < 16,
    ;
    assert(((reg & !(0x0Fu32 << shift)) | (mode << shift)) & !(0xFu32 << shift) == reg & !(0xFu32
        << shift)) by (bit_vector)
        requires
            shift <= 28,
            mode < 16,
    ;
    r
}

/// The mode field for an input with the given pull: floating input, or
/// pulled input (the pull direction goes to the output latch).
pub fn input_mode(pull: Pull) -> (r: u32)
    ensures
        r == if pull == Pull::Floating {
            0b0100u32
        } else {
            0b1000u32
        },
{
    match pull {
        Pull::Floating => 0b0100,
        Pull::Up => 0b1000,
        Pull::Down => 0b1000,
    }
}

/// The output latch register after configuring pin `pin` as an input with
/// `pull`: a pull-up sets the pin's bit, a pull-down clears it, a floating
/// input leaves the latch as it was.
pub fn input_latch(octl: u32, pin: u8, pull: Pull) -> (r: u32)
    requires
        pin < 16,
    ensures
        r == match pull {
            Pull::Floating => octl,
            Pull::Up => octl | (1u32 << pin as u32),
            Pull::Down => octl & !(1u32 << pin as u32),
        },
{
    let v = 1u32 << (pin as u32);
    match pull {
        Pull::Floating => octl,
        Pull::Up => octl | v,
        Pull::Down => octl & !v,
    }
}

pub open spec fn output_type_bits(t: OutputType) -> u32 {
    match t {
        OutputType::GPIOPushPull => 0b0000,
        OutputType::GPIOOpenDrain => 0b0100,
        OutputType::AFPushPull => 0b1000,
        OutputType::AFOpenDrain => 0b1100,
    }
}

pub open spec fn speed_bits(s: Speed) -> u32 {
    match s {
        Speed::Low => 0b01,
        Speed::Medium => 0b10,
        Speed::High => 0b11,
        Speed::VeryHigh => 0b11,
    }
}

/// The mode field for an output: its type in the upper two bits, its
/// speed in the lower two.
pub fn output_mode(out_type: OutputType, speed: Speed) -> (r: u32)
    ensures
        r == output_type_bits(out_type) + speed_bits(speed),
        r < 16,
{
    let t: u32 = match out_type {
        OutputType::GPIOPushPull => 0b0000,
        OutputType::GPIOOpenDrain => 0b0100,
        OutputType::AFPushPull => 0b1000,
        OutputType::AFOpenDrain => 0b1100,
    };
    let s: u32 = match speed {
        Speed::Low => 0b01,
        Speed::Medium => 0b10,
        Speed::High | Speed::VeryHigh => 0b11,
    };
    t + s
}

/// Which port control register holds a pin's mode field, and where.
#[derive(Clone, Copy, Debug, PartialEq, Eq, Structural)]
pub struct ModeField {
    /// The upper register (pins 8 to 15) rather than the lower one.
    pub upper: bool,
    pub pos: u8,
}

pub fn mode_field(pin: u8) -> (r: ModeField)
    requires
        pin < 16,
    ensures
        r.upper == (pin > 7),
        r.pos == if pin > 7 {
            (pin - 8) as u8
        } else {
            pin
        },
        r.pos < 8,
{
    if pin <= 7 {
        ModeField { upper: false, pos: pin }
    } else {
        ModeField { upper: true, pos: pin - 8 }
    }
}

/// A pin of any port, known by its port and its number within the port.
#[derive(Clone, Copy, Debug, PartialEq, Eq, Structural)]
pub struct AnyPin {
    pin_port: u8,
}

impl AnyPin {
    pub closed spec fn spec_pin_port(&self) -> u8 {
        self.pin_port
    }

    pub fn new(port: u8, pin: u8) -> (r: Self)
        requires
            port < 16,
            pin < 16,
        ensures
            r.spec_pin_port() == port * 16 + pin,
    {
        AnyPin { pin_port: port * 16 + pin }
    }

    pub fn pin_port(&self) -> (r: u8)
        ensures
            r == self.spec_pin_port(),
    {
        self.pin_port
    }

    /// The pin number within its port.
    pub fn pin(&self) -> (r: u8)
        ensures
            r == self.spec_pin_port() % 16,
    {
        self.pin_port % 16
    }

    /// The port number.
    pub fn port(&self) -> (r: u8)
        ensures
            r == self.spec_pin_port() / 16,
    {
        self.pin_port / 16
    }
}

#[derive(Clone, Copy, Debug, PartialEq, Eq, Structural)]
pub enum GPIOPort {
    A,
    B,
    C,
    D,
    E,
    F,
    G,
}

/// A GPIO port peripheral.
pub trait GPIO {
    fn port(&self) -> GPIOPort;
}

} // verus!
