//! DMA transfers: channel programming and the completion poll.
use vstd::prelude::*;
use crate::waker::{Poll, WakerSlot, registered, signalled, slot_accepts};

verus! {

#[derive(Clone, Copy, Debug, PartialEq, Eq, Structural)]
pub enum Error {
    TransferError,
}

/// Width of one transferred item.
#[derive(Clone, Copy, Debug, PartialEq, Eq, Structural)]
pub enum Width {
    Bits8,
    Bits16,
    Bits32,
}

pub open spec fn width_bits(w: Width) -> u8 {
    match w {
        Width::Bits8 => 0,
        Width::Bits16 => 1,
        Width::Bits32 => 2,
    }
}

impl Width {
    /// The two-bit field value of this width in a channel control word.
    pub fn into_p(&self) -> (r: u8)
        ensures
            r == width_bits(*self),
    {
        match self {
            Width::Bits8 => 0,
            Width::Bits16 => 1,
            Width::Bits32 => 2,
        }
    }
}

impl From<Width> for u8 {
    fn from(w: Width) -> (r: u8) {
        w.into_p()
    }
}

impl vstd::std_specs::convert::FromSpecImpl<Width> for u8 {
    open spec fn obeys_from_spec() -> bool {
        true
    }

    open spec fn from_spec(w: Width) -> u8 {
        width_bits(w)
    }
}

/// An item type a channel can move.
pub trait Word {
    spec fn spec_width() -> Width;

    fn width() -> (r: Width)
        ensures
            r == Self::spec_width(),
    ;
}

impl Word for u8 {
    open spec fn spec_width() -> Width {
        Width::Bits8
    }

    fn width() -> (r: Width) {
        Width::Bits8
    }
}

impl Word for u16 {
    open spec fn spec_width() -> Width {
        Width::Bits16
    }

    fn width() -> (r: Width) {
        Width::Bits16
    }
}

impl Word for u32 {
    open spec fn spec_width() -> Width {
        Width::Bits32
    }

    fn width() -> (r: Width) {
        Width::Bits32
    }
}

#[derive(Clone, Copy, Debug, PartialEq, Eq, Structural)]
pub enum Direction {
    PeripheralToMemory,
    MemoryToPeripheral,
}

/// Everything a channel is programmed with for one transfer. The
/// peripheral side never increments; the memory side does unless it is
/// held fixed to repeat one location.
#[derive(Clone, Copy, Debug, PartialEq, Eq, Structural)]
pub struct TransferRequest {
    pub direction: Direction,
    pub peripheral_address: u32,
    pub memory_address: u32,
    pub peripheral_width: Width,
    pub memory_width: Width,
    pub count: u16,
    pub memory_increment: bool,
    pub circular: bool,
}

/// Register values for one channel, written in this order after the
/// channel is disabled (control written as 0): count, memory address,
/// peripheral address, control.
#[derive(Clone, Copy, Debug, PartialEq, Eq, Structural)]
pub struct ChannelProgram {
    pub control: u32,
    pub count: u32,
    pub memory_address: u32,
    pub peripheral_address: u32,
}

/// Channel control bits: enable (0), transfer-complete interrupt (1),
/// error interrupt (3), direction from memory (4), circular (5), memory
/// increment (7), peripheral width (8-9), memory width (10-11).
pub open spec fn spec_control_word(req: TransferRequest) -> u32 {
    (1 + 2 + 8 + (if req.direction == Direction::MemoryToPeripheral {
        16int
    } else {
        0
    }) + (if req.circular {
        32int
    } else {
        0
    }) + (if req.memory_increment {
        128int
    } else {
        0
    }) + width_bits(req.peripheral_width) * 256 + width_bits(req.memory_width) * 1024) as u32
}

pub fn control_word(req: &TransferRequest) -> (r: u32)
    ensures
        r == spec_control_word(*req),
{
    let dir: u32 = match req.direction {
        Direction::MemoryToPeripheral => 16,
        Direction::PeripheralToMemory => 0,
    };
    let circ: u32 = if req.circular {
        32
    } else {
        0
    };
    let minc: u32 = if req.memory_increment {
        128
    } else {
        0
    };
    let pw = req.peripheral_width.into_p() as u32;
    let mw = req.memory_width.into_p() as u32;
    1 + 2 + 8 + dir + circ + minc + pw * 256 + mw * 1024
}

/// Byte offsets of one channel's registers from the controller base.
#[derive(Clone, Copy, Debug, PartialEq, Eq, Structural)]
pub struct ChannelRegisters {
    pub control: u32,
    pub count: u32,
    pub peripheral_address: u32,
    pub memory_address: u32,
}

/// Number of channels on one controller.
pub const CHANNEL_COUNT: u8 = 7;

pub fn channel_registers(ch: u8) -> (r: ChannelRegisters)
    requires
        ch < CHANNEL_COUNT,
    ensures
        r.control == 0x08 + 0x14 * ch,
        r.count == 0x0C + 0x14 * ch,
        r.peripheral_address == 0x10 + 0x14 * ch,
        r.memory_address == 0x14 + 0x14 * ch,
{
    let base = 0x14 * (ch as u32);
    ChannelRegisters {
        control: base + 0x08,
        count: base + 0x0C,
        peripheral_address: base + 0x10,
        memory_address: base + 0x14,
    }
}

/// One channel's status flags, as read from the controller.
#[derive(Clone, Copy, Debug, PartialEq, Eq, Structural)]
pub struct ChannelFlags {
    pub complete: bool,
    pub half: bool,
    pub error: bool,
}

pub open spec fn flag_bit(intf: u32, n: u32) -> bool {
    (intf >> n) & 1 == 1
}

/// Reads channel `ch`'s flags out of the controller's interrupt flag
/// register: four bits per channel (global, complete, half, error).
pub fn channel_flags(intf: u32, ch: u8) -> (r: ChannelFlags)
    requires
        ch < CHANNEL_COUNT,
    ensures
        r.complete == flag_bit(intf, (4 * ch + 1) as u32),
        r.half == flag_bit(intf, (4 * ch + 2) as u32),
        r.error == flag_bit(intf, (4 * ch + 3) as u32),
{
    let base = 4 * (ch as u32);
    ChannelFlags {
        complete: (intf >> (base + 1)) & 1 == 1,
        half: (intf >> (base + 2)) & 1 == 1,
        error: (intf >> (base + 3)) & 1 == 1,
    }
}

/// The value that, written to the flag clear register, clears all four
/// flags of channel `ch`.
pub fn flag_clear_mask(ch: u8) -> (r: u32)
    requires
        ch < CHANNEL_COUNT,
    ensures
        r == 0x0Fu32 << ((4 * ch) as u32),
{
    0x0Fu32 << (4 * (ch as u32))
}

/// The channel's program for `req`.
pub open spec fn spec_program(req: TransferRequest) -> ChannelProgram {
    ChannelProgram {
        control: spec_control_word(req),
        count: req.count as u32,
        memory_address: req.memory_address,
        peripheral_address: req.peripheral_address,
    }
}

/// What a poll of a transfer gives, and the channel's waker slot after it.
pub open spec fn spec_poll(slot: Option<u64>, flags: ChannelFlags, waker: u64) -> (
    Poll<Result<(), Error>>,
    Option<u64>,
) {
    if flags.complete {
        (Poll::Ready(Ok(())), slot)
    } else if flags.error {
        (Poll::Ready(Err(Error::TransferError)), slot)
    } else {
        (Poll::Pending, registered(slot, waker))
    }
}

/// Completion state of one channel: the task waiting on its transfer.
pub struct ChannelState {
    waker: WakerSlot,
}

impl ChannelState {
    pub closed spec fn spec_waker(&self) -> Option<u64> {
        self.waker@
    }

    pub fn new() -> (r: Self)
        ensures
            r.spec_waker() is None,
    {
        ChannelState { waker: WakerSlot::new() }
    }

    /// Starts a new transfer: forgets any parked waker and gives the
    /// register values to program. The caller must then keep the memory
    /// buffer alive and untouched until completion is observed or the
    /// channel is disabled.
    pub fn configure_transfer(&mut self, req: &TransferRequest) -> (r: ChannelProgram)
        ensures
            final(self).spec_waker() is None,
            r == spec_program(*req),
    {
        self.waker = WakerSlot::new();
        ChannelProgram {
            control: control_word(req),
            count: req.count as u32,
            memory_address: req.memory_address,
            peripheral_address: req.peripheral_address,
        }
    }

    /// Polls the transfer against the channel's flags, read in the same
    /// critical section: complete gives `Ok`, error gives `TransferError`
    /// (the caller then clears the channel's flags); with neither, the
    /// waker is parked and the poll is pending.
    pub fn poll(&mut self, flags: ChannelFlags, waker: u64) -> (r: Poll<Result<(), Error>>)
        requires
            !flags.complete && !flags.error ==> slot_accepts(old(self).spec_waker(), waker),
        ensures
            (r, final(self).spec_waker()) == spec_poll(old(self).spec_waker(), flags, waker),
    {
        if flags.complete {
            Poll::Ready(Ok(()))
        } else if flags.error {
            Poll::Ready(Err(Error::TransferError))
        } else {
            self.waker.register(waker);
            Poll::Pending
        }
    }

    /// The channel interrupt: takes the parked waker out to be woken. It
    /// decides nothing; the next poll reads the flags.
    pub fn on_interrupt(&mut self) -> (r: Option<u64>)
        ensures
            r == signalled(old(self).spec_waker()).0,
            final(self).spec_waker() == signalled(old(self).spec_waker()).1,
    {
        self.waker.signal()
    }
}

/// The request for a read from a peripheral register into memory.
pub fn read<S: Word, D: Word>(state: &mut ChannelState, src: u32, dest: u32, count: u16) -> (r:
    ChannelProgram)
    ensures
        final(state).spec_waker() is None,
        r == spec_program(
            TransferRequest {
                direction: Direction::PeripheralToMemory,
                peripheral_address: src,
                memory_address: dest,
                peripheral_width: S::spec_width(),
                memory_width: D::spec_width(),
                count,
                memory_increment: true,
                circular: false,
            },
        ),
{
    let req = TransferRequest {
        direction: Direction::PeripheralToMemory,
        peripheral_address: src,
        memory_address: dest,
        peripheral_width: S::width(),
        memory_width: D::width(),
        count,
        memory_increment: true,
        circular: false,
    };
    state.configure_transfer(&req)
}

/// Like `read`, but every item lands on the same memory location.
pub fn read_repeated<S: Word, D: Word>(state: &mut ChannelState, src: u32, dest: u32, count: u16) -> (r:
    ChannelProgram)
    ensures
        final(state).spec_waker() is None,
        r == spec_program(
            TransferRequest {
                direction: Direction::PeripheralToMemory,
                peripheral_address: src,
                memory_address: dest,
                peripheral_width: S::spec_width(),
                memory_width: D::spec_width(),
                count,
                memory_increment: false,
                circular: false,
            },
        ),
{
    let req = TransferRequest {
        direction: Direction::PeripheralToMemory,
        peripheral_address: src,
        memory_address: dest,
        peripheral_width: S::width(),
        memory_width: D::width(),
        count,
        memory_increment: false,
        circular: false,
    };
    state.configure_transfer(&req)
}

/// The request for a write from memory to a peripheral register.
pub fn write<S: Word, D: Word>(state: &mut ChannelState, src: u32, dest: u32, count: u16) -> (r:
    ChannelProgram)
    ensures
        final(state).spec_waker() is None,
        r == spec_program(
            TransferRequest {
                direction: Direction::MemoryToPeripheral,
                peripheral_address: dest,
                memory_address: src,
                peripheral_width: D::spec_width(),
                memory_width: S::spec_width(),
                count,
                memory_increment: true,
                circular: false,
            },
        ),
{
    let req = TransferRequest {
        direction: Direction::MemoryToPeripheral,
        peripheral_address: dest,
        memory_address: src,
        peripheral_width: D::width(),
        memory_width: S::width(),
        count,
        memory_increment: true,
        circular: false,
    };
    state.configure_transfer(&req)
}

/// Writes the one value at `value_address` to the peripheral `count`
/// times.
pub fn write_repeated<S: Word, D: Word>(
    state: &mut ChannelState,
    value_address: u32,
    dest: u32,
    count: u16,
) -> (r: ChannelProgram)
    ensures
        final(state).spec_waker() is None,
        r == spec_program(
            TransferRequest {
                direction: Direction::MemoryToPeripheral,
                peripheral_address: dest,
                memory_address: value_address,
                peripheral_width: D::spec_width(),
                memory_width: S::spec_width(),
                count,
                memory_increment: false,
                circular: false,
            },
        ),
{
    let req = TransferRequest {
        direction: Direction::MemoryToPeripheral,
        peripheral_address: dest,
        memory_address: value_address,
        peripheral_width: D::width(),
        memory_width: S::width(),
        count,
        memory_increment: false,
        circular: false,
    };
    state.configure_transfer(&req)
}

/// Arm, then check: a signal that comes while no waker is parked is
/// dropped, but the task does not miss the event. Its next poll either
/// sees the flag, or parks its waker so that the following signal wakes
/// it, and the poll after that sees the flag.
pub proof fn lemma_signal_then_register(
    slot: Option<u64>,
    waker: u64,
    quiet: ChannelFlags,
    done: ChannelFlags,
)
    requires
        slot_accepts(slot, waker),
        !quiet.complete && !quiet.error,
        done.complete,
    ensures
        ({
            let after_signal = signalled(slot).1;
            let (first, parked) = spec_poll(after_signal, quiet, waker);
            let (woken, emptied) = signalled(parked);
            let (second, _) = spec_poll(emptied, done, waker);
            &&& after_signal is None
            &&& spec_poll(after_signal, done, waker).0 == Poll::<Result<(), Error>>::Ready(Ok(()))
            &&& first == Poll::<Result<(), Error>>::Pending
            &&& woken == Some(waker)
            &&& second == Poll::<Result<(), Error>>::Ready(Ok(()))
        }),
{
}

} // verus!
