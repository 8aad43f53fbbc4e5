//! External interrupt lines: edge arming and the edge wait.
use vstd::prelude::*;
use crate::waker::{Poll, WakerSlot, registered, slot_accepts};

verus! {

/// Number of external interrupt lines.
pub const EXTI_COUNT: u8 = 16;

/// An external interrupt line of any number.
#[derive(Clone, Copy, Debug, PartialEq, Eq, Structural)]
pub struct AnyChannel {
    number: u8,
}

impl AnyChannel {
    pub closed spec fn spec_number(&self) -> u8 {
        self.number
    }

    pub fn new(number: u8) -> (r: Self)
        requires
            number < EXTI_COUNT,
        ensures
            r.spec_number() == number,
    {
        AnyChannel { number }
    }

    pub fn number(&self) -> (r: usize)
        ensures
            r == self.spec_number(),
    {
        self.number as usize
    }
}

/// The line configuration registers.
#[derive(Clone, Copy, Debug, PartialEq, Eq, Structural)]
pub struct ExtiRegisters {
    /// Interrupt enable.
    pub inten: u32,
    /// Rising edge enable.
    pub rten: u32,
    /// Falling edge enable.
    pub ften: u32,
}

pub open spec fn with_bit(reg: u32, mask: u32, on: bool) -> u32 {
    if on {
        reg | mask
    } else {
        reg & !mask
    }
}

/// The registers after arming line `pin` for the chosen edges: its
/// interrupt on, each edge detector on or off as asked, other lines kept.
/// Its pending flag is then cleared by writing `1 << pin`.
pub fn arm_line(regs: ExtiRegisters, pin: u8, rising: bool, falling: bool) -> (r: ExtiRegisters)
    requires
        pin < EXTI_COUNT,
    ensures
        r.inten == regs.inten | (1u32 << pin as u32),
        r.rten == with_bit(regs.rten, 1u32 << pin as u32, rising),
        r.ften == with_bit(regs.ften, 1u32 << pin as u32, falling),
{
    let v = 1u32 << (pin as u32);
    let rten = if rising {
        regs.rten | v
    } else {
        regs.rten & !v
    };
    let ften = if falling {
        regs.ften | v
    } else {
        regs.ften & !v
    };
    ExtiRegisters { inten: regs.inten | v, rten, ften }
}

/// Polls a wait for an edge on line `pin`: the line's interrupt handler
/// turns the line's interrupt off when the edge comes, so a cleared enable
/// bit means the edge was seen. The waker is parked first, then the bit
/// is checked.
pub fn poll_edge(slot: &mut WakerSlot, inten: u32, pin: u8, waker: u64) -> (r: Poll<()>)
    requires
        pin < EXTI_COUNT,
        slot_accepts(old(slot)@, waker),
    ensures
        final(slot)@ == registered(old(slot)@, waker),
        r == if inten & (1u32 << pin as u32) == 0 {
            Poll::Ready(())
        } else {
            Poll::<()>::Pending
        },
{
    slot.register(waker);
    let v = 1u32 << (pin as u32);
    if inten & v == 0 {
        Poll::Ready(())
    } else {
        Poll::Pending
    }
}

} // verus!
