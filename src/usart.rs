//! UART settings, the baud divisor, and the interrupt-driven buffered UART.
use vstd::prelude::*;
use crate::ring_buffer::RingBuffer;
use crate::time::Hertz;
use crate::waker::{Poll, WakerSlot, registered, signalled, slot_accepts};

verus! {

#[derive(Clone, Copy, Debug, PartialEq, Eq, Structural)]
pub enum Error {
    Overrun,
}

#[derive(Clone, Copy, Debug, PartialEq, Eq, Structural)]
pub enum DataBits {
    DataBits5,
    DataBits6,
    DataBits7,
    DataBits8,
}

impl DataBits {
    /// The word-length field value.
    pub fn bits(&self) -> (r: u8)
        ensures
            r == match *self {
                DataBits::DataBits5 => 0u8,
                DataBits::DataBits6 => 1,
                DataBits::DataBits7 => 2,
                DataBits::DataBits8 => 3,
            },
    {
        match self {
            DataBits::DataBits5 => 0b00,
            DataBits::DataBits6 => 0b01,
            DataBits::DataBits7 => 0b10,
            DataBits::DataBits8 => 0b11,
        }
    }
}

#[derive(Clone, Copy, Debug, PartialEq, Eq, Structural)]
pub enum Parity {
    ParityNone,
    ParityEven,
    ParityOdd,
}

#[derive(Clone, Copy, Debug, PartialEq, Eq, Structural)]
pub enum StopBits {
    /// 1 stop bit
    STOP1,
    /// 2 stop bits
    STOP2,
}

#[derive(Clone, Copy, Debug, PartialEq, Eq, Structural)]
pub enum Oversample {
    EightTimes,
    SixteenTimes,
}

#[derive(Clone, Copy, Debug, PartialEq, Eq, Structural)]
pub struct Config {
    pub baudrate: u32,
    pub data_bits: DataBits,
    pub stop_bits: StopBits,
    pub parity: Parity,
}

impl Default for Config {
    fn default() -> (r: Self)
        ensures
            r == (Config {
                baudrate: 115200,
                data_bits: DataBits::DataBits8,
                stop_bits: StopBits::STOP1,
                parity: Parity::ParityNone,
            }),
    {
        Config {
            baudrate: 115200,
            data_bits: DataBits::DataBits8,
            stop_bits: StopBits::STOP1,
            parity: Parity::ParityNone,
        }
    }
}

/// The baud divisor register value: the clock over the baud rate, rounded
/// to nearest, in sixteenths of a bit time (eighths when oversampling by
/// eight: the doubled sum keeps only its low 32 bits), truncated to 16 bits.
pub open spec fn spec_bauddiv(pclk: u32, baud: u32, oversample: Oversample) -> int {
    let sum = pclk + baud / 2;
    let div = match oversample {
        Oversample::SixteenTimes => sum / baud as int,
        Oversample::EightTimes => ((sum * 2) % 0x1_0000_0000) / baud as int,
    };
    div % 0x1_0000
}

pub fn calc_bauddiv(pclk: Hertz, baud: u32, oversample: Oversample) -> (r: u16)
    requires
        baud > 0,
        pclk.0 + baud / 2 <= u32::MAX,
    ensures
        r == spec_bauddiv(pclk.0, baud, oversample),
{
    let sum = pclk.0 + baud / 2;
    let div: u32 = match oversample {
        Oversample::SixteenTimes => sum / baud,
        Oversample::EightTimes => ((((sum as u64) * 2) % 0x1_0000_0000) as u32) / baud,
    };
    (div % 0x1_0000) as u16
}

/// The parity and stop-bit settings of the control registers.
#[derive(Clone, Copy, Debug, PartialEq, Eq, Structural)]
pub struct LineControl {
    pub parity_enable: bool,
    pub parity_odd: bool,
    pub stop_bits: u8,
}

pub fn line_control(config: &Config) -> (r: LineControl)
    ensures
        r.parity_enable == (config.parity != Parity::ParityNone),
        r.parity_odd == (config.parity == Parity::ParityOdd),
        r.stop_bits == (if config.stop_bits == StopBits::STOP1 {
            0u8
        } else {
            2u8
        }),
{
    let (parity_enable, parity_odd) = match config.parity {
        Parity::ParityNone => (false, false),
        Parity::ParityOdd => (true, true),
        Parity::ParityEven => (true, false),
    };
    let stop_bits = match config.stop_bits {
        StopBits::STOP1 => 0b00u8,
        StopBits::STOP2 => 0b10u8,
    };
    LineControl { parity_enable, parity_odd, stop_bits }
}

/// The status flags seen by one UART interrupt.
#[derive(Clone, Copy, Debug, PartialEq, Eq, Structural)]
pub struct UartStatus {
    /// A received byte waits in the data register.
    pub rbne: bool,
    /// The transmit data register is empty.
    pub tbe: bool,
    pub overrun: bool,
    pub noise: bool,
    pub framing: bool,
    pub parity: bool,
}

/// What the interrupt asks of the hardware and the executor.
#[derive(Clone, Copy, Debug, PartialEq, Eq, Structural)]
pub struct InterruptActions {
    /// The byte to write to the data register.
    pub transmit: Option<u8>,
    /// Turn the transmit-empty interrupt off: nothing is left to send.
    pub disable_tx_interrupt: bool,
    pub wake_rx: Option<u64>,
    pub wake_tx: Option<u64>,
    /// A received byte was lost because the receive buffer was full.
    pub rx_dropped: bool,
    /// A line error (overrun, noise, framing or parity) was flagged; it is
    /// reported and servicing goes on.
    pub line_error: bool,
}

/// A UART whose receive and transmit paths run through ring buffers: the
/// interrupt fills the receive ring and drains the transmit ring, tasks do
/// the reverse and park on one waker slot per direction.
pub struct UartBuffered {
    rx: RingBuffer,
    tx: RingBuffer,
    rx_waker: WakerSlot,
    tx_waker: WakerSlot,
    tx_interrupt: bool,
}

impl UartBuffered {
    pub closed spec fn spec_rx(&self) -> Seq<u8> {
        self.rx@
    }

    pub closed spec fn spec_tx(&self) -> Seq<u8> {
        self.tx@
    }

    pub closed spec fn spec_rx_capacity(&self) -> nat {
        self.rx.spec_capacity()
    }

    pub closed spec fn spec_tx_capacity(&self) -> nat {
        self.tx.spec_capacity()
    }

    pub closed spec fn spec_rx_run(&self) -> nat {
        self.rx.spec_readable_run()
    }

    pub closed spec fn spec_tx_run(&self) -> nat {
        self.tx.spec_writable_run()
    }

    pub closed spec fn spec_rx_waker(&self) -> Option<u64> {
        self.rx_waker@
    }

    pub closed spec fn spec_tx_waker(&self) -> Option<u64> {
        self.tx_waker@
    }

    /// Whether the transmit-empty interrupt is on.
    pub closed spec fn spec_tx_interrupt(&self) -> bool {
        self.tx_interrupt
    }

    pub closed spec fn wf(&self) -> bool {
        self.rx.wf() && self.tx.wf()
    }

    pub fn new(rx_capacity: usize, tx_capacity: usize) -> (r: Self)
        requires
            rx_capacity > 0,
            tx_capacity > 0,
        ensures
            r.wf(),
            r.spec_rx() == Seq::<u8>::empty(),
            r.spec_tx() == Seq::<u8>::empty(),
            r.spec_rx_capacity() == rx_capacity,
            r.spec_tx_capacity() == tx_capacity,
            r.spec_rx_waker() is None,
            r.spec_tx_waker() is None,
            !r.spec_tx_interrupt(),
    {
        UartBuffered {
            rx: RingBuffer::new(rx_capacity),
            tx: RingBuffer::new(tx_capacity),
            rx_waker: WakerSlot::new(),
            tx_waker: WakerSlot::new(),
            tx_interrupt: false,
        }
    }

    pub fn tx_interrupt_enabled(&self) -> (r: bool)
        ensures
            r == self.spec_tx_interrupt(),
    {
        self.tx_interrupt
    }

    /// Polls a read into `buf`. With bytes waiting it takes as many as fit
    /// in `buf` and lie in one run of the ring, and is ready with their
    /// count; with none it parks the waker and is pending.
    pub fn poll_read(&mut self, buf: &mut [u8], waker: u64) -> (r: Poll<Result<usize, Error>>)
        requires
            old(self).wf(),
            old(self).spec_rx().len() == 0 ==> slot_accepts(old(self).spec_rx_waker(), waker),
        ensures
            final(self).wf(),
            final(self).spec_tx() == old(self).spec_tx(),
            final(self).spec_tx_waker() == old(self).spec_tx_waker(),
            final(self).spec_tx_interrupt() == old(self).spec_tx_interrupt(),
            final(self).spec_rx_capacity() == old(self).spec_rx_capacity(),
            final(self).spec_tx_capacity() == old(self).spec_tx_capacity(),
            final(buf)@.len() == old(buf)@.len(),
            old(self).spec_rx().len() == 0 ==> {
                &&& r == Poll::<Result<usize, Error>>::Pending
                &&& final(self).spec_rx_waker() == registered(old(self).spec_rx_waker(), waker)
                &&& final(self).spec_rx() == old(self).spec_rx()
                &&& final(buf)@ == old(buf)@
            },
            old(self).spec_rx().len() > 0 ==> {
                let n = if old(buf)@.len() < old(self).spec_rx_run() {
                    old(buf)@.len()
                } else {
                    old(self).spec_rx_run()
                };
                &&& r == Poll::<Result<usize, Error>>::Ready(Ok(n as usize))
                &&& final(self).spec_rx_waker() == old(self).spec_rx_waker()
                &&& final(self).spec_rx() == old(self).spec_rx().subrange(
                    n as int,
                    old(self).spec_rx().len() as int,
                )
                &&& final(buf)@.subrange(0, n as int) == old(self).spec_rx().subrange(0, n as int)
                &&& final(buf)@.subrange(n as int, old(buf)@.len() as int) == old(
                    buf,
                )@.subrange(n as int, old(buf)@.len() as int)
            },
    {
        if self.rx.is_empty() {
            self.rx_waker.register(waker);
            Poll::Pending
        } else {
            let n = self.rx.pop_into(buf);
            Poll::Ready(Ok(n))
        }
    }

    /// Polls a write of `data`. With room in the transmit ring it copies as
    /// many bytes as fit in one run, turns the transmit-empty interrupt on,
    /// and is ready with their count; with the ring full it parks the waker
    /// and is pending.
    pub fn poll_write(&mut self, data: &[u8], waker: u64) -> (r: Poll<Result<usize, Error>>)
        requires
            old(self).wf(),
            old(self).spec_tx().len() == old(self).spec_tx_capacity() ==> slot_accepts(
                old(self).spec_tx_waker(),
                waker,
            ),
        ensures
            final(self).wf(),
            final(self).spec_rx() == old(self).spec_rx(),
            final(self).spec_rx_waker() == old(self).spec_rx_waker(),
            final(self).spec_rx_capacity() == old(self).spec_rx_capacity(),
            final(self).spec_tx_capacity() == old(self).spec_tx_capacity(),
            old(self).spec_tx().len() == old(self).spec_tx_capacity() ==> {
                &&& r == Poll::<Result<usize, Error>>::Pending
                &&& final(self).spec_tx_waker() == registered(old(self).spec_tx_waker(), waker)
                &&& final(self).spec_tx() == old(self).spec_tx()
                &&& final(self).spec_tx_interrupt() == old(self).spec_tx_interrupt()
            },
            old(self).spec_tx().len() < old(self).spec_tx_capacity() ==> {
                let n = if data@.len() < old(self).spec_tx_run() {
                    data@.len()
                } else {
                    old(self).spec_tx_run()
                };
                &&& r == Poll::<Result<usize, Error>>::Ready(Ok(n as usize))
                &&& final(self).spec_tx_waker() == old(self).spec_tx_waker()
                &&& final(self).spec_tx() == old(self).spec_tx() + data@.subrange(0, n as int)
                &&& final(self).spec_tx_interrupt()
            },
    {
        if self.tx.is_full() {
            self.tx_waker.register(waker);
            Poll::Pending
        } else {
            let n = self.tx.push_slice(data);
            self.tx_interrupt = true;
            Poll::Ready(Ok(n))
        }
    }

    /// Polls a flush: ready once the transmit ring is empty, else the waker
    /// is parked.
    pub fn poll_flush(&mut self, waker: u64) -> (r: Poll<Result<(), Error>>)
        requires
            old(self).wf(),
            old(self).spec_tx().len() > 0 ==> slot_accepts(old(self).spec_tx_waker(), waker),
        ensures
            final(self).wf(),
            final(self).spec_rx() == old(self).spec_rx(),
            final(self).spec_tx() == old(self).spec_tx(),
            final(self).spec_rx_waker() == old(self).spec_rx_waker(),
            final(self).spec_tx_interrupt() == old(self).spec_tx_interrupt(),
            final(self).spec_rx_capacity() == old(self).spec_rx_capacity(),
            final(self).spec_tx_capacity() == old(self).spec_tx_capacity(),
            old(self).spec_tx().len() == 0 ==> r == Poll::<Result<(), Error>>::Ready(Ok(()))
                && final(self).spec_tx_waker() == old(self).spec_tx_waker(),
            old(self).spec_tx().len() > 0 ==> r == Poll::<Result<(), Error>>::Pending
                && final(self).spec_tx_waker() == registered(old(self).spec_tx_waker(), waker),
    {
        if self.tx.is_empty() {
            Poll::Ready(Ok(()))
        } else {
            self.tx_waker.register(waker);
            Poll::Pending
        }
    }

    /// The UART interrupt. A received byte (`data`, valid when `rbne`) goes
    /// into the receive ring, dropped if it is full, and the reader is
    /// woken. When the transmit register is empty, the oldest byte to send
    /// is handed out to be written, or, with nothing left, the
    /// transmit-empty interrupt is turned off; either way the writer side
    /// is woken. Line errors are reported and do not stop servicing.
    pub fn on_interrupt(&mut self, status: UartStatus, data: u8) -> (r: InterruptActions)
        requires
            old(self).wf(),
        ensures
            final(self).wf(),
            final(self).spec_rx_capacity() == old(self).spec_rx_capacity(),
            final(self).spec_tx_capacity() == old(self).spec_tx_capacity(),
            r.line_error == (status.overrun || status.noise || status.framing || status.parity),
            status.rbne ==> {
                &&& final(self).spec_rx() == if old(self).spec_rx().len() < old(
                    self,
                ).spec_rx_capacity() {
                    old(self).spec_rx().push(data)
                } else {
                    old(self).spec_rx()
                }
                &&& r.rx_dropped == (old(self).spec_rx().len() == old(self).spec_rx_capacity())
                &&& r.wake_rx == signalled(old(self).spec_rx_waker()).0
                &&& final(self).spec_rx_waker() == signalled(old(self).spec_rx_waker()).1
            },
            !status.rbne ==> {
                &&& final(self).spec_rx() == old(self).spec_rx()
                &&& !r.rx_dropped
                &&& r.wake_rx is None
                &&& final(self).spec_rx_waker() == old(self).spec_rx_waker()
            },
            status.tbe && old(self).spec_tx().len() > 0 ==> {
                &&& r.transmit == Some(old(self).spec_tx()[0])
                &&& final(self).spec_tx() == old(self).spec_tx().drop_first()
                &&& !r.disable_tx_interrupt
                &&& final(self).spec_tx_interrupt() == old(self).spec_tx_interrupt()
            },
            status.tbe && old(self).spec_tx().len() == 0 ==> {
                &&& r.transmit is None
                &&& final(self).spec_tx() == old(self).spec_tx()
                &&& r.disable_tx_interrupt
                &&& !final(self).spec_tx_interrupt()
            },
            status.tbe ==> {
                &&& r.wake_tx == signalled(old(self).spec_tx_waker()).0
                &&& final(self).spec_tx_waker() == signalled(old(self).spec_tx_waker()).1
            },
            !status.tbe ==> {
                &&& r.transmit is None
                &&& !r.disable_tx_interrupt
                &&& r.wake_tx is None
                &&& final(self).spec_tx() == old(self).spec_tx()
                &&& final(self).spec_tx_waker() == old(self).spec_tx_waker()
                &&& final(self).spec_tx_interrupt() == old(self).spec_tx_interrupt()
            },
    {
        let line_error = status.overrun || status.noise || status.framing || status.parity;
        let mut rx_dropped = false;
        let mut wake_rx: Option<u64> = None;
        proof {
            self.rx.lemma_bounded();
        }
        if status.rbne {
            let pushed = self.rx.push_one(data);
            rx_dropped = !pushed;
            wake_rx = self.rx_waker.signal();
        }
        let mut transmit: Option<u8> = None;
        let mut disable_tx_interrupt = false;
        let mut wake_tx: Option<u64> = None;
        if status.tbe {
            transmit = self.tx.pop_one();
            if transmit.is_none() {
                disable_tx_interrupt = true;
                self.tx_interrupt = false;
            }
            wake_tx = self.tx_waker.signal();
        }
        InterruptActions { transmit, disable_tx_interrupt, wake_rx, wake_tx, rx_dropped, line_error }
    }
}

} // verus!
