//! Time driver on a periodic interrupt that counts ticks.
use vstd::prelude::*;
use crate::alarm::{AlarmHandle, AlarmModel, AlarmTable, Callback, CapacityError, after_firing, fired_callbacks};

verus! {

/// Number of alarms the SysTick driver offers.
pub const SYSTICK_ALARM_COUNT: u8 = 4;

/// Time driver on a free-running periodic interrupt: each interrupt adds
/// one tick, and the alarms whose deadline has come fire.
pub struct SystickDriver {
    ticks: u64,
    alarms: AlarmTable,
}

impl SystickDriver {
    pub closed spec fn spec_now(&self) -> u64 {
        self.ticks
    }

    pub closed spec fn spec_alarms(&self) -> AlarmModel {
        self.alarms@
    }

    pub closed spec fn wf(&self) -> bool {
        self.alarms.wf()
    }

    pub fn new() -> (r: Self)
        ensures
            r.wf(),
            r.spec_now() == 0,
            r.spec_alarms().allocated == 0,
            r.spec_alarms().slots.len() == SYSTICK_ALARM_COUNT,
            forall|i: int|
                0 <= i < SYSTICK_ALARM_COUNT ==> #[trigger] r.spec_alarms().slots[i]
                    == crate::alarm::inactive_alarm(),
    {
        SystickDriver { ticks: 0, alarms: AlarmTable::new(SYSTICK_ALARM_COUNT) }
    }

    /// The alarm table, to inspect.
    pub fn alarms(&self) -> (r: &AlarmTable)
        ensures
            r@ == self.spec_alarms(),
            self.wf() ==> r.wf(),
    {
        &self.alarms
    }

    pub fn now(&self) -> (r: u64)
        ensures
            r == self.spec_now(),
    {
        self.ticks
    }

    pub fn allocate_alarm(&mut self) -> (r: Result<AlarmHandle, CapacityError>)
        requires
            old(self).wf(),
        ensures
            final(self).wf(),
            final(self).spec_now() == old(self).spec_now(),
            final(self).spec_alarms().slots == old(self).spec_alarms().slots,
            old(self).spec_alarms().allocated < old(self).spec_alarms().slots.len() ==> {
                &&& r is Ok
                &&& r->Ok_0.spec_id() == old(self).spec_alarms().allocated
                &&& final(self).spec_alarms().allocated == old(self).spec_alarms().allocated + 1
            },
            old(self).spec_alarms().allocated == old(self).spec_alarms().slots.len() ==> {
                &&& r is Err
                &&& final(self).spec_alarms() == old(self).spec_alarms()
            },
    {
        self.alarms.allocate_alarm()
    }

    pub fn set_alarm_callback(&mut self, h: AlarmHandle, callback: Callback)
        requires
            old(self).wf(),
            (h.spec_id() as nat) < old(self).spec_alarms().allocated,
        ensures
            final(self).wf(),
            final(self).spec_now() == old(self).spec_now(),
            final(self).spec_alarms().allocated == old(self).spec_alarms().allocated,
            final(self).spec_alarms().slots == old(self).spec_alarms().slots.update(
                h.spec_id() as int,
                crate::alarm::AlarmState {
                    deadline: old(self).spec_alarms().slots[h.spec_id() as int].deadline,
                    callback: Some(callback),
                },
            ),
    {
        self.alarms.set_callback(h, callback);
    }

    /// Arms `h` for `timestamp`; refused (`false`, nothing armed) when the
    /// timestamp is not after the current time.
    pub fn set_alarm(&mut self, h: AlarmHandle, timestamp: u64) -> (r: bool)
        requires
            old(self).wf(),
            (h.spec_id() as nat) < old(self).spec_alarms().allocated,
        ensures
            final(self).wf(),
            r == (timestamp > old(self).spec_now()),
            final(self).spec_now() == old(self).spec_now(),
            final(self).spec_alarms().allocated == old(self).spec_alarms().allocated,
            r ==> final(self).spec_alarms().slots == old(self).spec_alarms().slots.update(
                h.spec_id() as int,
                crate::alarm::AlarmState {
                    deadline: timestamp,
                    callback: old(self).spec_alarms().slots[h.spec_id() as int].callback,
                },
            ),
            !r ==> final(self).spec_alarms() == old(self).spec_alarms(),
    {
        let now = self.ticks;
        self.alarms.set_alarm(h, timestamp, now)
    }

    /// The periodic interrupt: one more tick, then every alarm due at the
    /// new time is disarmed and its callback handed out to be run.
    pub fn on_tick(&mut self) -> (r: Vec<Callback>)
        requires
            old(self).wf(),
            old(self).spec_now() < u64::MAX,
        ensures
            final(self).wf(),
            final(self).spec_now() == old(self).spec_now() + 1,
            final(self).spec_alarms().allocated == old(self).spec_alarms().allocated,
            final(self).spec_alarms().slots == after_firing(
                old(self).spec_alarms().slots,
                final(self).spec_now(),
            ),
            r@ == fired_callbacks(old(self).spec_alarms().slots, final(self).spec_now()),
    {
        self.ticks = self.ticks + 1;
        let now = self.ticks;
        self.alarms.fire_due(now)
    }
}

/// The SysTick reload value that makes one tick last `cpu_hertz / tick_hz`
/// core cycles.
pub fn reload_value(cpu_hertz: u64, tick_hz: u64) -> (r: u32)
    requires
        tick_hz > 0,
        1 <= cpu_hertz / tick_hz <= u32::MAX,
    ensures
        r == cpu_hertz / tick_hz - 1,
{
    let f = (cpu_hertz / tick_hz) as u32;
    f - 1
}

} // verus!
