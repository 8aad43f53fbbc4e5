//! The alarm table: fixed-capacity deadline / callback slots behind opaque
//! handles, fired when time reaches their deadline.
use vstd::prelude::*;

verus! {

/// The deadline of a slot that is not armed. Such a slot never fires.
pub const INACTIVE: u64 = 0xFFFF_FFFF_FFFF_FFFF;

/// Opaque identity of a reserved alarm slot.
#[derive(Clone, Copy, Debug, PartialEq, Eq, Structural)]
pub struct AlarmHandle {
    id: u8,
}

impl AlarmHandle {
    pub fn id(&self) -> (r: u8)
        ensures
            r == self.spec_id(),
    {
        self.id
    }

    pub closed spec fn spec_id(&self) -> u8 {
        self.id
    }
}

/// The alarm table is full: no handle is left to hand out.
#[derive(Clone, Copy, Debug, PartialEq, Eq, Structural)]
pub struct CapacityError;

/// A type-erased callback: the function to run and the context it gets.
/// Both are tokens that the owner of the table knows how to invoke.
#[derive(Clone, Copy, Debug, PartialEq, Eq, Structural)]
pub struct Callback {
    pub func: usize,
    pub ctx: usize,
}

#[derive(Clone, Copy, Debug, PartialEq, Eq, Structural)]
pub struct AlarmState {
    pub deadline: u64,
    pub callback: Option<Callback>,
}

pub open spec fn inactive_alarm() -> AlarmState {
    AlarmState { deadline: INACTIVE, callback: None }
}

impl AlarmState {
    /// An inactive slot with no callback.
    pub fn new() -> (r: Self)
        ensures
            r == inactive_alarm(),
    {
        AlarmState { deadline: INACTIVE, callback: None }
    }
}

/// A slot fires at `now` when it is armed and its deadline has come.
pub open spec fn due(slot: AlarmState, now: u64) -> bool {
    slot.deadline != INACTIVE && slot.deadline <= now
}

/// The slot once it has been considered at `now`: a due slot is disarmed.
pub open spec fn after_check(slot: AlarmState, now: u64) -> AlarmState {
    if due(slot, now) {
        AlarmState { deadline: INACTIVE, callback: slot.callback }
    } else {
        slot
    }
}

/// The slots after firing at `now`.
pub open spec fn after_firing(slots: Seq<AlarmState>, now: u64) -> Seq<AlarmState> {
    Seq::new(slots.len(), |i: int| after_check(slots[i], now))
}

/// The callbacks that fire at `now`, in slot order, one per due slot that
/// has a callback.
pub open spec fn fired_callbacks(slots: Seq<AlarmState>, now: u64) -> Seq<Callback>
    decreases slots.len(),
{
    if slots.len() == 0 {
        Seq::empty()
    } else {
        let rest = fired_callbacks(slots.drop_last(), now);
        let s = slots.last();
        if due(s, now) && s.callback is Some {
            rest.push(s.callback->Some_0)
        } else {
            rest
        }
    }
}

/// The smallest deadline among `slots`, or `INACTIVE` when there is none.
pub open spec fn min_deadline(slots: Seq<AlarmState>) -> u64
    decreases slots.len(),
{
    if slots.len() == 0 {
        INACTIVE
    } else {
        let rest = min_deadline(slots.drop_last());
        if slots.last().deadline < rest {
            slots.last().deadline
        } else {
            rest
        }
    }
}

/// The abstract state of an alarm table: its slots, and how many of them
/// have been handed out (always the first ones).
pub ghost struct AlarmModel {
    pub slots: Seq<AlarmState>,
    pub allocated: nat,
}

/// A fixed-capacity table of deadline / callback pairs. Handles are handed
/// out in order and never reclaimed.
pub struct AlarmTable {
    slots: Vec<AlarmState>,
    allocated: usize,
}

impl View for AlarmTable {
    type V = AlarmModel;

    closed spec fn view(&self) -> AlarmModel {
        AlarmModel { slots: self.slots@, allocated: self.allocated as nat }
    }
}

impl AlarmTable {
    /// The table's invariant: at most 256 slots, the allocated ones first,
    /// and every slot not handed out is inactive without a callback.
    pub open spec fn wf(&self) -> bool {
        &&& self@.slots.len() <= 256
        &&& self@.allocated <= self@.slots.len()
        &&& forall|i: int|
            self@.allocated <= i < self@.slots.len() ==> #[trigger] self@.slots[i]
                == inactive_alarm()
    }

    pub open spec fn is_allocated(&self, h: AlarmHandle) -> bool {
        (h.spec_id() as nat) < self@.allocated
    }

    /// A table of `capacity` inactive slots, none handed out.
    pub fn new(capacity: u8) -> (r: Self)
        ensures
            r.wf(),
            r@.allocated == 0,
            r@.slots == Seq::new(capacity as nat, |i: int| inactive_alarm()),
    {
        let mut slots: Vec<AlarmState> = Vec::new();
        let mut i: u8 = 0;
        while i < capacity
            invariant
                i <= capacity,
                slots@ == Seq::new(i as nat, |j: int| inactive_alarm()),
            decreases capacity - i,
        {
            slots.push(AlarmState::new());
            i = i + 1;
            assert(slots@ =~= Seq::new(i as nat, |j: int| inactive_alarm()));
        }
        AlarmTable { slots, allocated: 0 }
    }

    pub fn capacity(&self) -> (r: usize)
        ensures
            r == self@.slots.len(),
    {
        self.slots.len()
    }

    pub fn allocated(&self) -> (r: usize)
        ensures
            r == self@.allocated,
    {
        self.allocated
    }

    /// The handle with index `id`, when that handle has been handed out.
    pub fn handle(&self, id: u8) -> (r: Option<AlarmHandle>)
        ensures
            (id as nat) < self@.allocated ==> r is Some && r->Some_0.spec_id() == id,
            (id as nat) >= self@.allocated ==> r is None,
    {
        if (id as usize) < self.allocated {
            Some(AlarmHandle { id })
        } else {
            None
        }
    }

    /// The slot of an allocated handle.
    pub fn slot(&self, h: AlarmHandle) -> (r: AlarmState)
        requires
            self.wf(),
            self.is_allocated(h),
        ensures
            r == self@.slots[h.spec_id() as int],
    {
        self.slots[h.id as usize]
    }

    /// Reserves the next unused slot. Fails once every slot is handed out;
    /// the table is then unchanged.
    pub fn allocate_alarm(&mut self) -> (r: Result<AlarmHandle, CapacityError>)
        requires
            old(self).wf(),
        ensures
            final(self).wf(),
            final(self)@.slots == old(self)@.slots,
            old(self)@.allocated < old(self)@.slots.len() ==> {
                &&& r is Ok
                &&& r->Ok_0.spec_id() == old(self)@.allocated
                &&& final(self)@.allocated == old(self)@.allocated + 1
                &&& final(self).is_allocated(r->Ok_0)
                &&& forall|h: AlarmHandle| old(self).is_allocated(h) ==> h != r->Ok_0
            },
            old(self)@.allocated == old(self)@.slots.len() ==> {
                &&& r is Err
                &&& final(self)@ == old(self)@
            },
    {
        if self.allocated < self.slots.len() {
            let h = AlarmHandle { id: self.allocated as u8 };
            self.allocated = self.allocated + 1;
            Ok(h)
        } else {
            Err(CapacityError)
        }
    }

    /// Stores the callback of an allocated handle.
    pub fn set_callback(&mut self, h: AlarmHandle, callback: Callback)
        requires
            old(self).wf(),
            old(self).is_allocated(h),
        ensures
            final(self).wf(),
            final(self)@.allocated == old(self)@.allocated,
            final(self)@.slots == old(self)@.slots.update(
                h.spec_id() as int,
                AlarmState {
                    deadline: old(self)@.slots[h.spec_id() as int].deadline,
                    callback: Some(callback),
                },
            ),
    {
        let i = h.id as usize;
        let deadline = self.slots[i].deadline;
        self.slots.set(i, AlarmState { deadline, callback: Some(callback) });
    }

    /// Arms an allocated handle for `timestamp`, given the current time.
    /// A deadline that is not in the future is refused (`false`) and the
    /// slot is left as it was.
    pub fn set_alarm(&mut self, h: AlarmHandle, timestamp: u64, now: u64) -> (r: bool)
        requires
            old(self).wf(),
            old(self).is_allocated(h),
        ensures
            final(self).wf(),
            r == (timestamp > now),
            final(self)@.allocated == old(self)@.allocated,
            r ==> final(self)@.slots == old(self)@.slots.update(
                h.spec_id() as int,
                AlarmState {
                    deadline: timestamp,
                    callback: old(self)@.slots[h.spec_id() as int].callback,
                },
            ),
            !r ==> final(self)@ == old(self)@,
    {
        if timestamp <= now {
            false
        } else {
            let i = h.id as usize;
            let callback = self.slots[i].callback;
            self.slots.set(i, AlarmState { deadline: timestamp, callback });
            true
        }
    }

    /// The nearest pending deadline across all slots, `INACTIVE` when none
    /// is armed. The hardware alarm is programmed from it.
    pub fn next_deadline(&self) -> (r: u64)
        ensures
            r == min_deadline(self@.slots),
    {
        let mut min: u64 = INACTIVE;
        let mut i: usize = 0;
        while i < self.slots.len()
            invariant
                i <= self.slots@.len(),
                min == min_deadline(self.slots@.subrange(0, i as int)),
            decreases self.slots@.len() - i,
        {
            assert(self.slots@.subrange(0, i as int + 1).drop_last() =~= self.slots@.subrange(
                0,
                i as int,
            ));
            let d = self.slots[i].deadline;
            if d < min {
                min = d;
            }
            i = i + 1;
        }
        assert(self.slots@.subrange(0, i as int) =~= self.slots@);
        min
    }

    /// Fires every due slot at `now`: each is disarmed before its callback
    /// is handed out, so a callback that re-arms its own handle does not
    /// race with itself. Returns the callbacks to run, in slot order.
    pub fn fire_due(&mut self, now: u64) -> (r: Vec<Callback>)
        requires
            old(self).wf(),
        ensures
            final(self).wf(),
            final(self)@.allocated == old(self)@.allocated,
            final(self)@.slots == after_firing(old(self)@.slots, now),
            r@ == fired_callbacks(old(self)@.slots, now),
    {
        let ghost old_slots = self.slots@;
        let mut fired: Vec<Callback> = Vec::new();
        let mut i: usize = 0;
        while i < self.slots.len()
            invariant
                self.slots@.len() == old_slots.len(),
                i <= old_slots.len(),
                self.allocated == old(self).allocated,
                old_slots == old(self)@.slots,
                fired@ == fired_callbacks(old_slots.subrange(0, i as int), now),
                forall|j: int|
                    0 <= j < i ==> #[trigger] self.slots@[j] == after_check(old_slots[j], now),
                forall|j: int| i <= j < old_slots.len() ==> #[trigger] self.slots@[j] == old_slots[j],
            decreases old_slots.len() - i,
        {
            assert(old_slots.subrange(0, i as int + 1).drop_last() =~= old_slots.subrange(
                0,
                i as int,
            ));
            let s = self.slots[i];
            if s.deadline != INACTIVE && s.deadline <= now {
                self.slots.set(i, AlarmState { deadline: INACTIVE, callback: s.callback });
                match s.callback {
                    Some(c) => fired.push(c),
                    None => {},
                }
            }
            i = i + 1;
        }
        assert(old_slots.subrange(0, i as int) =~= old_slots);
        assert(self.slots@ =~= after_firing(old_slots, now));
        fired
    }
}

/// Firing leaves every slot that was due disarmed.
pub proof fn lemma_fired_slots_disarmed(slots: Seq<AlarmState>, now: u64, i: int)
    requires
        0 <= i < slots.len(),
        due(slots[i], now),
    ensures
        after_firing(slots, now)[i].deadline == INACTIVE,
        after_firing(slots, now)[i].callback == slots[i].callback,
{
}

/// No callback fires from a table whose slots are all inactive.
pub proof fn lemma_nothing_fires_when_inactive(slots: Seq<AlarmState>, now: u64)
    requires
        forall|j: int| 0 <= j < slots.len() ==> #[trigger] slots[j].deadline == INACTIVE,
    ensures
        fired_callbacks(slots, now) == Seq::<Callback>::empty(),
    decreases slots.len(),
{
    if slots.len() > 0 {
        let rest = slots.drop_last();
        assert forall|j: int| 0 <= j < rest.len() implies #[trigger] rest[j].deadline
            == INACTIVE by {
            assert(rest[j] == slots[j]);
        }
        lemma_nothing_fires_when_inactive(rest, now);
    }
}

/// With one slot armed for `deadline` and the others inactive, nothing
/// fires before the deadline; once time reaches it the callback fires
/// exactly once, the slot is inactive again right away, and it does not
/// fire at any later time unless armed anew.
pub proof fn lemma_fires_exactly_once(
    slots: Seq<AlarmState>,
    i: int,
    callback: Callback,
    before: u64,
    now: u64,
    later: u64,
)
    requires
        0 <= i < slots.len(),
        slots[i].deadline != INACTIVE,
        slots[i].callback == Some(callback),
        forall|j: int| 0 <= j < slots.len() && j != i ==> #[trigger] slots[j].deadline == INACTIVE,
        before < slots[i].deadline <= now,
    ensures
        fired_callbacks(slots, before) == Seq::<Callback>::empty(),
        after_firing(slots, before) == slots,
        fired_callbacks(slots, now) == seq![callback],
        after_firing(slots, now)[i].deadline == INACTIVE,
        fired_callbacks(after_firing(slots, now), later) == Seq::<Callback>::empty(),
    decreases slots.len(),
{
    let fired = after_firing(slots, now);
    assert forall|j: int| 0 <= j < fired.len() implies #[trigger] fired[j].deadline
        == INACTIVE by {}
    lemma_nothing_fires_when_inactive(fired, later);
    assert(after_firing(slots, before) =~= slots);
    lemma_single_due(slots, i, callback, before, now);
}

proof fn lemma_single_due(slots: Seq<AlarmState>, i: int, callback: Callback, before: u64, now: u64)
    requires
        0 <= i < slots.len(),
        slots[i].deadline != INACTIVE,
        slots[i].callback == Some(callback),
        forall|j: int| 0 <= j < slots.len() && j != i ==> #[trigger] slots[j].deadline == INACTIVE,
        before < slots[i].deadline <= now,
    ensures
        fired_callbacks(slots, before) == Seq::<Callback>::empty(),
        fired_callbacks(slots, now) == seq![callback],
    decreases slots.len(),
{
    let rest = slots.drop_last();
    if i == slots.len() - 1 {
        assert forall|j: int| 0 <= j < rest.len() implies #[trigger] rest[j].deadline
            == INACTIVE by {
            assert(rest[j] == slots[j]);
        }
        lemma_nothing_fires_when_inactive(rest, now);
        lemma_nothing_fires_when_inactive(rest, before);
        assert(Seq::<Callback>::empty().push(callback) =~= seq![callback]);
    } else {
        assert forall|j: int| 0 <= j < rest.len() && j != i implies #[trigger] rest[j].deadline
            == INACTIVE by {
            assert(rest[j] == slots[j]);
        }
        assert(rest[i] == slots[i]);
        lemma_single_due(rest, i, callback, before, now);
    }
}

} // verus!
