//! SPI bus settings: prescaler choice, error flags and transfer sizes.
use vstd::prelude::*;
use crate::time::{ClockDivider, Hertz};

verus! {

#[derive(Clone, Copy, Debug, PartialEq, Eq, Structural)]
pub enum Error {
    BufLen,
    Overrun,
    DMAError(crate::dma::Error),
}

impl From<crate::dma::Error> for Error {
    fn from(err: crate::dma::Error) -> (r: Error) {
        Error::DMAError(err)
    }
}

impl vstd::std_specs::convert::FromSpecImpl<crate::dma::Error> for Error {
    open spec fn obeys_from_spec() -> bool {
        true
    }

    open spec fn from_spec(err: crate::dma::Error) -> Error {
        Error::DMAError(err)
    }
}

#[derive(Clone, Copy, Debug, PartialEq, Eq, Structural)]
pub enum Endian {
    MSB,
    LSB,
}

/// Bus clock prescaler: division by 2 to 256.
#[derive(Clone, Copy, Debug, PartialEq, Eq, Structural)]
pub enum Prescaler {
    DIV2,
    DIV4,
    DIV8,
    DIV16,
    DIV32,
    DIV64,
    DIV128,
    DIV256,
}

pub open spec fn prescaler_bits(p: Prescaler) -> u8 {
    match p {
        Prescaler::DIV2 => 0,
        Prescaler::DIV4 => 1,
        Prescaler::DIV8 => 2,
        Prescaler::DIV16 => 3,
        Prescaler::DIV32 => 4,
        Prescaler::DIV64 => 5,
        Prescaler::DIV128 => 6,
        Prescaler::DIV256 => 7,
    }
}

pub open spec fn prescaler_divisor(p: Prescaler) -> u32 {
    match p {
        Prescaler::DIV2 => 2,
        Prescaler::DIV4 => 4,
        Prescaler::DIV8 => 8,
        Prescaler::DIV16 => 16,
        Prescaler::DIV32 => 32,
        Prescaler::DIV64 => 64,
        Prescaler::DIV128 => 128,
        Prescaler::DIV256 => 256,
    }
}

impl Prescaler {
    /// Decodes the three-bit prescaler field.
    pub fn from_bits(bits: u8) -> (r: Self)
        requires
            bits < 8,
        ensures
            prescaler_bits(r) == bits,
    {
        match bits {
            0 => Prescaler::DIV2,
            1 => Prescaler::DIV4,
            2 => Prescaler::DIV8,
            3 => Prescaler::DIV16,
            4 => Prescaler::DIV32,
            5 => Prescaler::DIV64,
            6 => Prescaler::DIV128,
            _ => Prescaler::DIV256,
        }
    }

    /// The three-bit prescaler field value.
    pub fn bits(&self) -> (r: u8)
        ensures
            r == prescaler_bits(*self),
    {
        match self {
            Prescaler::DIV2 => 0,
            Prescaler::DIV4 => 1,
            Prescaler::DIV8 => 2,
            Prescaler::DIV16 => 3,
            Prescaler::DIV32 => 4,
            Prescaler::DIV64 => 5,
            Prescaler::DIV128 => 6,
            Prescaler::DIV256 => 7,
        }
    }
}

impl From<Prescaler> for u8 {
    fn from(p: Prescaler) -> (r: u8) {
        p.bits()
    }
}

impl vstd::std_specs::convert::FromSpecImpl<Prescaler> for u8 {
    open spec fn obeys_from_spec() -> bool {
        true
    }

    open spec fn from_spec(p: Prescaler) -> u8 {
        prescaler_bits(p)
    }
}

impl ClockDivider for Prescaler {
    open spec fn divides(&self, hz: Hertz) -> bool {
        true
    }

    open spec fn spec_divide(&self, hz: Hertz) -> Hertz {
        Hertz(hz.0 / prescaler_divisor(*self))
    }

    fn divide(&self, hz: Hertz) -> (r: Hertz) {
        match self {
            Prescaler::DIV2 => Hertz(hz.0 / 2),
            Prescaler::DIV4 => Hertz(hz.0 / 4),
            Prescaler::DIV8 => Hertz(hz.0 / 8),
            Prescaler::DIV16 => Hertz(hz.0 / 16),
            Prescaler::DIV32 => Hertz(hz.0 / 32),
            Prescaler::DIV64 => Hertz(hz.0 / 64),
            Prescaler::DIV128 => Hertz(hz.0 / 128),
            Prescaler::DIV256 => Hertz(hz.0 / 256),
        }
    }
}

/// The prescaler for a clock-to-target ratio: the smallest power of two
/// at least the ratio, except that ratios 6 to 8 take division by 8 and a
/// ratio of 5 has no prescaler.
pub open spec fn prescaler_for(ratio: u32) -> Prescaler {
    if ratio <= 2 {
        Prescaler::DIV2
    } else if ratio <= 4 {
        Prescaler::DIV4
    } else if ratio <= 8 {
        Prescaler::DIV8
    } else if ratio <= 16 {
        Prescaler::DIV16
    } else if ratio <= 32 {
        Prescaler::DIV32
    } else if ratio <= 64 {
        Prescaler::DIV64
    } else if ratio <= 128 {
        Prescaler::DIV128
    } else {
        Prescaler::DIV256
    }
}

/// Picks the prescaler that brings the bus clock `pclk` down to about
/// `target`.
pub fn compute_baud_rate(pclk: Hertz, target: Hertz) -> (r: Prescaler)
    requires
        target.0 > 0,
        1 <= pclk.0 / target.0 <= 256,
        pclk.0 / target.0 != 5,
    ensures
        r == prescaler_for(pclk.0 / target.0),
{
    let ratio = pclk.0 / target.0;
    if ratio <= 2 {
        Prescaler::DIV2
    } else if ratio <= 4 {
        Prescaler::DIV4
    } else if ratio <= 8 {
        Prescaler::DIV8
    } else if ratio <= 16 {
        Prescaler::DIV16
    } else if ratio <= 32 {
        Prescaler::DIV32
    } else if ratio <= 64 {
        Prescaler::DIV64
    } else if ratio <= 128 {
        Prescaler::DIV128
    } else {
        Prescaler::DIV256
    }
}

/// A transmit underrun or a receive overrun is an overrun error.
pub fn check_error_flags(txurerr: bool, rxorerr: bool) -> (r: Result<(), Error>)
    ensures
        r == if txurerr || rxorerr {
            Err::<(), Error>(Error::Overrun)
        } else {
            Ok(())
        },
{
    if txurerr {
        return Err(Error::Overrun);
    }
    if rxorerr {
        return Err(Error::Overrun);
    }
    Ok(())
}

/// The DMA item count for a buffer of `len` words: it must fit 16 bits.
pub fn buffer_count(len: usize) -> (r: Result<u16, Error>)
    ensures
        len <= u16::MAX ==> r == Ok::<u16, Error>(len as u16),
        len > u16::MAX ==> r == Err::<u16, Error>(Error::BufLen),
{
    if len <= 0xFFFF {
        Ok(len as u16)
    } else {
        Err(Error::BufLen)
    }
}

/// The item count of a full-duplex transfer: both buffers must have the
/// same length, which must fit 16 bits.
pub fn transfer_count(tx_len: usize, rx_len: usize) -> (r: Result<u16, Error>)
    ensures
        tx_len == rx_len && tx_len <= u16::MAX ==> r == Ok::<u16, Error>(tx_len as u16),
        tx_len != rx_len || tx_len > u16::MAX ==> r == Err::<u16, Error>(Error::BufLen),
{
    if tx_len != rx_len {
        return Err(Error::BufLen);
    }
    buffer_count(tx_len)
}

/// Data frame format: eight or sixteen bits.
#[derive(Clone, Copy, Debug, PartialEq, Eq, Structural)]
pub enum FrameFormat {
    EightBit,
    SixteenBit,
}

#[derive(Clone, Copy, Debug, PartialEq, Eq, Structural)]
pub enum WordSize {
    Bit8,
    Bit16,
}

impl WordSize {
    /// The frame format that carries words of this size.
    pub fn ff16(&self) -> (r: FrameFormat)
        ensures
            r == if *self == WordSize::Bit8 {
                FrameFormat::EightBit
            } else {
                FrameFormat::SixteenBit
            },
    {
        match self {
            WordSize::Bit8 => FrameFormat::EightBit,
            WordSize::Bit16 => FrameFormat::SixteenBit,
        }
    }
}

/// A word type the bus can move.
pub trait Word {
    spec fn spec_word_size() -> WordSize;

    fn word_size() -> (r: WordSize)
        ensures
            r == Self::spec_word_size(),
    ;
}

impl Word for u8 {
    open spec fn spec_word_size() -> WordSize {
        WordSize::Bit8
    }

    fn word_size() -> (r: WordSize) {
        WordSize::Bit8
    }
}

impl Word for u16 {
    open spec fn spec_word_size() -> WordSize {
        WordSize::Bit16
    }

    fn word_size() -> (r: WordSize) {
        WordSize::Bit16
    }
}

} // verus!
