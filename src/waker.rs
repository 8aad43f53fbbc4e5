//! The waker bridge: one parking slot per pending hardware event, and the
//! arm-then-check poll built on it.
use vstd::prelude::*;

verus! {

/// The outcome of polling an operation: done with a value, or not yet, in
/// which case the poller's waker has been parked.
#[derive(Debug, PartialEq, Eq, Structural)]
pub enum Poll<T> {
    Ready(T),
    Pending,
}

/// A single-slot parking place for one task's waker.
///
/// A waker is known here by the identity of the task it resumes. The task
/// side registers while polling; the interrupt side takes the registered
/// identity out with `signal` and wakes it after leaving its critical section.
pub struct WakerSlot {
    waker: Option<u64>,
}

impl View for WakerSlot {
    type V = Option<u64>;

    closed spec fn view(&self) -> Option<u64> {
        self.waker
    }
}

/// Whether a slot in state `slot` lets `waker` park: it is empty or already
/// holds that same waker.
pub open spec fn slot_accepts(slot: Option<u64>, waker: u64) -> bool {
    slot is None || slot == Some(waker)
}

/// The slot after `register(waker)`.
pub open spec fn registered(slot: Option<u64>, waker: u64) -> Option<u64> {
    Some(waker)
}

/// What `signal` hands out to be woken, and the slot after it.
pub open spec fn signalled(slot: Option<u64>) -> (Option<u64>, Option<u64>) {
    (slot, None)
}

impl WakerSlot {
    pub fn new() -> (r: Self)
        ensures
            r@ is None,
    {
        WakerSlot { waker: None }
    }

    /// Whether `register(waker)` is allowed: the slot is empty or holds the
    /// same waker. Two different tasks parking on one slot is a usage error.
    pub fn accepts(&self, waker: u64) -> (r: bool)
        ensures
            r == slot_accepts(self@, waker),
    {
        match self.waker {
            None => true,
            Some(w) => w == waker,
        }
    }

    pub fn is_registered(&self) -> (r: bool)
        ensures
            r == self@ is Some,
    {
        self.waker.is_some()
    }

    /// Parks `waker` on the slot. Registering the waker already parked
    /// changes nothing.
    pub fn register(&mut self, waker: u64)
        requires
            slot_accepts(old(self)@, waker),
        ensures
            final(self)@ == registered(old(self)@, waker),
    {
        self.waker = Some(waker);
    }

    /// Takes the parked waker out, leaving the slot empty. The caller wakes
    /// what is returned; with nothing parked the signal is dropped.
    pub fn signal(&mut self) -> (r: Option<u64>)
        ensures
            r == signalled(old(self)@).0,
            final(self)@ == signalled(old(self)@).1,
    {
        self.waker.take()
    }
}

/// Waits for a hardware flag that an interrupt reports: ready once the
/// flag is seen set, else the waker is parked for the interrupt's signal.
/// The flag must be read in the same critical section as this call.
pub fn poll_flag(slot: &mut WakerSlot, flag: bool, waker: u64) -> (r: Poll<()>)
    requires
        !flag ==> slot_accepts(old(slot)@, waker),
    ensures
        flag ==> r == Poll::Ready(()) && final(slot)@ == old(slot)@,
        !flag ==> r == Poll::<()>::Pending && final(slot)@ == registered(old(slot)@, waker),
{
    if flag {
        Poll::Ready(())
    } else {
        slot.register(waker);
        Poll::Pending
    }
}

/// Registering the same waker twice leaves the slot as one registration
/// does, and signalling an empty slot wakes nobody and leaves it empty.
pub proof fn lemma_register_idempotent_and_empty_signal(slot: Option<u64>, waker: u64)
    requires
        slot_accepts(slot, waker),
    ensures
        slot_accepts(registered(slot, waker), waker),
        registered(registered(slot, waker), waker) == registered(slot, waker),
        signalled(None).0 is None,
        signalled(None).1 is None,
{
}

} // verus!
