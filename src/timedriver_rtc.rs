//! Time driver on a 32-bit real-time counter, extended to 64 bits by
//! counting overflows.
use vstd::prelude::*;
use crate::alarm::{AlarmHandle, AlarmModel, AlarmTable, Callback, CapacityError, after_firing, fired_callbacks, min_deadline};

verus! {

/// Number of alarms the real-time-counter driver offers.
pub const RTC_ALARM_COUNT: u8 = 3;

/// The 64-bit time made of `period` counter overflows and the live value
/// of the 32-bit counter.
pub open spec fn composite_time(period: u32, counter: u32) -> u64 {
    (period as int * 0x1_0000_0000 + counter as int) as u64
}

/// Overflow tracking for a 32-bit hardware counter.
pub struct RtcState {
    period: u32,
    last_read_value: u32,
}

impl RtcState {
    /// Number of 2^32 periods elapsed since boot.
    pub closed spec fn spec_period(&self) -> u32 {
        self.period
    }

    /// The counter value seen at the last read.
    pub closed spec fn spec_last(&self) -> u32 {
        self.last_read_value
    }

    /// The time seen at the last read.
    pub open spec fn spec_time(&self) -> u64 {
        composite_time(self.spec_period(), self.spec_last())
    }

    pub fn new() -> (r: Self)
        ensures
            r.spec_period() == 0,
            r.spec_last() == 0,
    {
        RtcState { period: 0, last_read_value: 0 }
    }

    pub fn period(&self) -> (r: u32)
        ensures
            r == self.spec_period(),
    {
        self.period
    }

    /// Derives the current time from the overflow flag (read and cleared
    /// together) and the live counter, in one critical section.
    pub fn read_time(&mut self, overflow: bool, counter: u32) -> (r: u64)
        requires
            overflow ==> old(self).spec_period() < u32::MAX,
        ensures
            final(self).spec_period() == if overflow {
                (old(self).spec_period() + 1) as u32
            } else {
                old(self).spec_period()
            },
            final(self).spec_last() == counter,
            r == final(self).spec_time(),
            r == composite_time(final(self).spec_period(), counter),
    {
        if overflow {
            self.period = self.period + 1;
        }
        self.last_read_value = counter;
        (self.period as u64) * 0x1_0000_0000 + counter as u64
    }
}

/// The 32-bit counter value from its two 16-bit halves.
pub fn read_counter(high: u16, low: u16) -> (r: u32)
    ensures
        r == high as int * 0x1_0000 + low as int,
{
    (high as u32) * 0x1_0000 + low as u32
}

/// Two reads in sequence never go back in time, also across a counter
/// overflow, as long as the hardware shows each wrap by its flag.
pub proof fn lemma_read_time_monotonic(period: u32, last: u32, overflow: bool, counter: u32)
    requires
        overflow ==> period < u32::MAX,
        overflow || counter >= last,
    ensures
        composite_time(if overflow { (period + 1) as u32 } else { period }, counter)
            >= composite_time(period, last),
{
}

/// The two 16-bit halves of the hardware alarm register.
#[derive(Clone, Copy, Debug, PartialEq, Eq, Structural)]
pub struct AlarmRegister {
    pub high: u16,
    pub low: u16,
}

/// The hardware alarm register value for `deadline`: its low 32 bits,
/// split in halves.
pub fn alarm_register(deadline: u64) -> (r: AlarmRegister)
    ensures
        r.high == (deadline % 0x1_0000_0000) / 0x1_0000,
        r.low == deadline % 0x1_0000,
{
    let value = (deadline % 0x1_0000_0000) as u32;
    assert(deadline % 0x1_0000_0000 % 0x1_0000 == deadline % 0x1_0000) by (nonlinear_arith);
    AlarmRegister { high: (value / 0x1_0000) as u16, low: (value % 0x1_0000) as u16 }
}

/// Time driver on a 32-bit real-time counter with overflow tracking.
/// Hardware reads are handed in: the overflow flag (read and cleared) and
/// the live counter value.
pub struct RtcDriver {
    state: RtcState,
    alarms: AlarmTable,
}

impl RtcDriver {
    pub closed spec fn spec_state(&self) -> &RtcState {
        &self.state
    }

    pub closed spec fn spec_alarms(&self) -> AlarmModel {
        self.alarms@
    }

    pub closed spec fn wf(&self) -> bool {
        self.alarms.wf()
    }

    pub open spec fn spec_period(&self) -> u32 {
        self.spec_state().spec_period()
    }

    pub fn new() -> (r: Self)
        ensures
            r.wf(),
            r.spec_period() == 0,
            r.spec_state().spec_last() == 0,
            r.spec_alarms().allocated == 0,
            r.spec_alarms().slots.len() == RTC_ALARM_COUNT,
            forall|i: int|
                0 <= i < RTC_ALARM_COUNT ==> #[trigger] r.spec_alarms().slots[i]
                    == crate::alarm::inactive_alarm(),
    {
        RtcDriver { state: RtcState::new(), alarms: AlarmTable::new(RTC_ALARM_COUNT) }
    }

    /// The alarm table, to inspect.
    pub fn alarms(&self) -> (r: &AlarmTable)
        ensures
            r@ == self.spec_alarms(),
            self.wf() ==> r.wf(),
    {
        &self.alarms
    }

    /// Number of counter overflows seen so far.
    pub fn period(&self) -> (r: u32)
        ensures
            r == self.spec_period(),
    {
        self.state.period()
    }

    /// The current time from a hardware read.
    pub fn now(&mut self, overflow: bool, counter: u32) -> (r: u64)
        requires
            overflow ==> old(self).spec_period() < u32::MAX,
        ensures
            final(self).wf() == old(self).wf(),
            final(self).spec_alarms() == old(self).spec_alarms(),
            final(self).spec_period() == if overflow {
                (old(self).spec_period() + 1) as u32
            } else {
                old(self).spec_period()
            },
            final(self).spec_state().spec_last() == counter,
            r == composite_time(final(self).spec_period(), counter),
    {
        self.state.read_time(overflow, counter)
    }

    pub fn allocate_alarm(&mut self) -> (r: Result<AlarmHandle, CapacityError>)
        requires
            old(self).wf(),
        ensures
            final(self).wf(),
            final(self).spec_state() == old(self).spec_state(),
            final(self).spec_alarms().slots == old(self).spec_alarms().slots,
            old(self).spec_alarms().allocated < old(self).spec_alarms().slots.len() ==> {
                &&& r is Ok
                &&& r->Ok_0.spec_id() == old(self).spec_alarms().allocated
                &&& final(self).spec_alarms().allocated == old(self).spec_alarms().allocated + 1
            },
            old(self).spec_alarms().allocated == old(self).spec_alarms().slots.len() ==> {
                &&& r is Err
                &&& final(self).spec_alarms() == old(self).spec_alarms()
            },
    {
        self.alarms.allocate_alarm()
    }

    pub fn set_alarm_callback(&mut self, h: AlarmHandle, callback: Callback)
        requires
            old(self).wf(),
            (h.spec_id() as nat) < old(self).spec_alarms().allocated,
        ensures
            final(self).wf(),
            final(self).spec_state() == old(self).spec_state(),
            final(self).spec_alarms().allocated == old(self).spec_alarms().allocated,
            final(self).spec_alarms().slots == old(self).spec_alarms().slots.update(
                h.spec_id() as int,
                crate::alarm::AlarmState {
                    deadline: old(self).spec_alarms().slots[h.spec_id() as int].deadline,
                    callback: Some(callback),
                },
            ),
    {
        self.alarms.set_callback(h, callback);
    }

    /// Arms `h` for `timestamp` after reading the current time; refused
    /// (`false`, nothing armed) when the timestamp is not after it. When
    /// armed, the hardware alarm is then programmed from `alarm_register`.
    pub fn set_alarm(&mut self, h: AlarmHandle, timestamp: u64, overflow: bool, counter: u32) -> (r:
        bool)
        requires
            old(self).wf(),
            (h.spec_id() as nat) < old(self).spec_alarms().allocated,
            overflow ==> old(self).spec_period() < u32::MAX,
        ensures
            final(self).wf(),
            final(self).spec_period() == if overflow {
                (old(self).spec_period() + 1) as u32
            } else {
                old(self).spec_period()
            },
            final(self).spec_state().spec_last() == counter,
            r == (timestamp > composite_time(final(self).spec_period(), counter)),
            final(self).spec_alarms().allocated == old(self).spec_alarms().allocated,
            r ==> final(self).spec_alarms().slots == old(self).spec_alarms().slots.update(
                h.spec_id() as int,
                crate::alarm::AlarmState {
                    deadline: timestamp,
                    callback: old(self).spec_alarms().slots[h.spec_id() as int].callback,
                },
            ),
            !r ==> final(self).spec_alarms() == old(self).spec_alarms(),
    {
        let now = self.state.read_time(overflow, counter);
        self.alarms.set_alarm(h, timestamp, now)
    }

    /// The value to program into the hardware alarm: the nearest pending
    /// deadline across all alarms.
    pub fn next_alarm(&self) -> (r: AlarmRegister)
        ensures
            r.high == (min_deadline(self.spec_alarms().slots) % 0x1_0000_0000) / 0x1_0000,
            r.low == min_deadline(self.spec_alarms().slots) % 0x1_0000,
    {
        alarm_register(self.alarms.next_deadline())
    }

    /// The counter interrupt (alarm or overflow): reads the time, then
    /// every alarm due at it is disarmed and its callback handed out.
    /// The hardware alarm is then reprogrammed from `next_alarm`.
    pub fn on_interrupt(&mut self, overflow: bool, counter: u32) -> (r: Vec<Callback>)
        requires
            old(self).wf(),
            overflow ==> old(self).spec_period() < u32::MAX,
        ensures
            final(self).wf(),
            final(self).spec_period() == if overflow {
                (old(self).spec_period() + 1) as u32
            } else {
                old(self).spec_period()
            },
            final(self).spec_state().spec_last() == counter,
            final(self).spec_alarms().allocated == old(self).spec_alarms().allocated,
            final(self).spec_alarms().slots == after_firing(
                old(self).spec_alarms().slots,
                composite_time(final(self).spec_period(), counter),
            ),
            r@ == fired_callbacks(
                old(self).spec_alarms().slots,
                composite_time(final(self).spec_period(), counter),
            ),
    {
        let now = self.state.read_time(overflow, counter);
        self.alarms.fire_due(now)
    }
}

} // verus!
