//! Time driver backed by per-CPU APIC-timer alarm slots.
//!
//! Alarm slots are kept per CPU. Each CPU's APIC timer ISR calls
//! [`on_timer_tick`], which only walks the calling CPU's slots.
//! [`schedule_wake`](ApicTimeDriver::schedule_wake) runs in the context of a
//! polling task; tasks don't migrate, so the slot it writes is the one the
//! same CPU's timer will read.
//!
//! Time itself is global (TSC read; invariant TSC across cores).

use super::cpu_local::{slot, slot_of, MAX_CPUS};
use super::vector_alloc::CpuId;
use vstd::prelude::*;

verus! {

/// Alarms that a CPU can have pending.
pub const MAX_ALARMS: usize = 8;

// ── core::task::Waker ───────────────────────────────────────────────────

/// `core::task::Waker`, a handle that wakes a task.
#[verifier::external_type_specification]
#[verifier::external_body]
pub struct ExWaker(core::task::Waker);

/// What a waker holds: the task that it wakes.
pub uninterp spec fn task_of(waker: core::task::Waker) -> int;

/// `Waker::clone`: the clone wakes the same task.
#[verifier::external_body]
fn clone_waker(waker: &core::task::Waker) -> (r: core::task::Waker)
    ensures
        task_of(r) == task_of(*waker),
{
    waker.clone()
}

/// `Waker::will_wake`: `true` only if both wake the same task. It may be
/// `false` even then, so nothing is claimed of that answer.
#[verifier::external_body]
fn will_wake(a: &core::task::Waker, b: &core::task::Waker) -> (r: bool)
    ensures
        r ==> task_of(*a) == task_of(*b),
{
    a.will_wake(b)
}

/// Whether `r` is what [`Waker::will_wake`](core::task::Waker::will_wake) gave
/// for a waker that is held and one that is to wait.
pub closed spec fn recognised(held: core::task::Waker, waker: core::task::Waker, r: bool) -> bool {
    call_ensures(will_wake, (&held, &waker), r)
}

/// A waker that is recognised wakes the same task.
pub proof fn recognised_wakes_the_task(held: core::task::Waker, waker: core::task::Waker)
    requires
        recognised(held, waker, true),
    ensures
        task_of(held) == task_of(waker),
{
}

// ── One CPU's alarms ────────────────────────────────────────────────────

/// A task to be woken at a time.
pub struct Alarm {
    pub at: u64,
    pub waker: Option<core::task::Waker>,
}

/// Where an alarm goes.
#[derive(Debug, Clone, Copy, PartialEq, Eq, Structural)]
pub enum Place {
    /// The task has an alarm there, which is moved to the new time.
    Move(usize),
    /// A slot that is free.
    Take(usize),
    /// Nowhere: all slots are taken by other tasks.
    Full,
}

/// Where an alarm goes, given which slots are taken and which of those are
/// known to be the task's own: to the first of its own, else to the first that
/// is free.
pub open spec fn placed(taken: Seq<bool>, own: Seq<bool>, place: Place) -> bool {
    match place {
        Place::Move(i) => {
            &&& i < taken.len()
            &&& taken[i as int] && own[i as int]
            &&& forall|j: int| 0 <= j < i ==> !(taken[j] && #[trigger] own[j])
        },
        Place::Take(i) => {
            &&& i < taken.len()
            &&& !taken[i as int]
            &&& forall|j: int| 0 <= j < i ==> #[trigger] taken[j]
            &&& forall|j: int| 0 <= j < taken.len() ==> !(taken[j] && #[trigger] own[j])
        },
        Place::Full => {
            &&& forall|j: int| 0 <= j < taken.len() ==> #[trigger] taken[j]
            &&& forall|j: int| 0 <= j < taken.len() ==> !(taken[j] && #[trigger] own[j])
        },
    }
}

/// There is one place for an alarm.
pub proof fn place_is_unique(taken: Seq<bool>, own: Seq<bool>, a: Place, b: Place)
    requires
        taken.len() == own.len(),
        placed(taken, own, a),
        placed(taken, own, b),
    ensures
        a == b,
{
    match (a, b) {
        (Place::Move(i), Place::Move(j)) => {
            if i < j {
                assert(!(taken[i as int] && own[i as int]));
            }
            if j < i {
                assert(!(taken[j as int] && own[j as int]));
            }
        },
        (Place::Take(i), Place::Take(j)) => {
            if i < j {
                assert(taken[i as int]);
            }
            if j < i {
                assert(taken[j as int]);
            }
        },
        (Place::Move(i), _) => {
            assert(!(taken[i as int] && own[i as int]));
        },
        (_, Place::Move(i)) => {
            assert(!(taken[i as int] && own[i as int]));
        },
        (Place::Take(i), _) => {
            assert(taken[i as int]);
        },
        (_, Place::Take(i)) => {
            assert(taken[i as int]);
        },
        (Place::Full, Place::Full) => {},
    }
}

/// Find the place for an alarm. `taken` says which slots are taken, `own`
/// which of them are the task's own.
pub fn place_alarm(taken: &[bool], own: &[bool]) -> (place: Place)
    requires
        taken@.len() == own@.len(),
    ensures
        placed(taken@, own@, place),
{
    let n: usize = taken.len();
    let mut empty: Option<usize> = None;
    let mut i: usize = 0;
    while i < n
        invariant
            i <= n,
            n == taken@.len(),
            n == own@.len(),
            forall|j: int| 0 <= j < i ==> !(taken@[j] && #[trigger] own@[j]),
            match empty {
                Some(e) => e < i && !taken@[e as int] && forall|j: int|
                    0 <= j < e ==> #[trigger] taken@[j],
                None => forall|j: int| 0 <= j < i ==> #[trigger] taken@[j],
            },
        decreases n - i,
    {
        if taken[i] {
            if own[i] {
                return Place::Move(i);
            }
        } else if empty.is_none() {
            empty = Some(i);
        }
        i += 1;
    }
    match empty {
        Some(e) => Place::Take(e),
        None => Place::Full,
    }
}

/// Which slots are taken.
pub open spec fn taken_slots(slots: Seq<Option<Alarm>>) -> Seq<bool> {
    slots.map_values(|s: Option<Alarm>| s is Some)
}

/// Whether the alarm in slot `i` is that of `task`.
pub open spec fn alarm_of(slots: Seq<Option<Alarm>>, i: int, task: int) -> bool {
    slots[i] matches Some(Alarm { waker: Some(w), .. }) && task_of(w) == task
}

/// Whether `own` is what asking a slot whether it is the alarm of `waker`
/// gave. A slot without a waker is nobody's.
pub open spec fn asked_of(slot: Option<Alarm>, waker: core::task::Waker, own: bool) -> bool {
    match slot {
        Some(Alarm { waker: Some(w), .. }) => recognised(w, waker, own),
        _ => !own,
    }
}

/// What putting an alarm in its place makes of the slots, and whether the task
/// is to be woken right away instead.
pub open spec fn put(
    before: Seq<Option<Alarm>>,
    after: Seq<Option<Alarm>>,
    place: Place,
    at: u64,
    task: int,
    wake: bool,
) -> bool {
    match place {
        Place::Move(i) => !wake && after == before.update(
            i as int,
            Some(Alarm { at, waker: before[i as int]->0.waker }),
        ),
        Place::Take(i) => {
            &&& !wake
            &&& after.len() == before.len()
            &&& after[i as int] is Some
            &&& after[i as int]->0.at == at
            &&& alarm_of(after, i as int, task)
            &&& forall|j: int| 0 <= j < before.len() && j != i ==> #[trigger] after[j] == before[j]
        },
        Place::Full => wake && after == before,
    }
}

/// What scheduling makes of the slots, and whether the task is to be woken
/// right away instead. `own` are the slots that are known to be the task's.
pub open spec fn scheduled(
    before: Seq<Option<Alarm>>,
    after: Seq<Option<Alarm>>,
    own: Seq<bool>,
    at: u64,
    task: int,
    now: u64,
    wake: bool,
) -> bool {
    if at <= now {
        wake && after == before
    } else {
        exists|place: Place| #[trigger]
            placed(taken_slots(before), own, place) && put(before, after, place, at, task, wake)
    }
}

/// The slots after a timer tick: those that have expired are free.
pub open spec fn ticked(slots: Seq<Option<Alarm>>, now: u64) -> Seq<Option<Alarm>> {
    slots.map_values(
        |s: Option<Alarm>|
            match s {
                Some(alarm) => if alarm.at <= now {
                    None
                } else {
                    s
                },
                None => s,
            },
    )
}

/// The wakers of the slots that have expired, in the order of the slots.
pub open spec fn expired(slots: Seq<Option<Alarm>>, now: u64) -> Seq<core::task::Waker>
    decreases slots.len(),
{
    if slots.len() == 0 {
        Seq::empty()
    } else {
        let before = expired(slots.drop_last(), now);
        match slots.last() {
            Some(Alarm { at, waker: Some(w) }) => if at <= now {
                before.push(w)
            } else {
                before
            },
            _ => before,
        }
    }
}

/// The alarm slots of one CPU.
pub struct AlarmSlots {
    slots: [Option<Alarm>; MAX_ALARMS],
}

impl View for AlarmSlots {
    type V = Seq<Option<Alarm>>;

    closed spec fn view(&self) -> Seq<Option<Alarm>> {
        self.slots@
    }
}

impl AlarmSlots {
    /// A CPU has a fixed number of slots.
    pub proof fn has_every_slot(self)
        ensures
            self@.len() == MAX_ALARMS,
    {
    }

    /// No alarm pending.
    pub fn new() -> (r: Self)
        ensures
            r@ == Seq::new(MAX_ALARMS as nat, |i: int| None::<Alarm>),
    {
        let r = AlarmSlots { slots: [None, None, None, None, None, None, None, None] };
        assert(r@ =~= Seq::new(MAX_ALARMS as nat, |i: int| None::<Alarm>));
        r
    }

    /// Schedule a wake at `at`, `now` being the time. Returns whether the
    /// caller has to wake the task right away: the time has come, or all slots
    /// are full (busy-poll).
    ///
    /// Every pending alarm is asked whether it is the task's own. That answer
    /// may be "no" for one that is: then the task gets a second alarm.
    pub fn schedule(&mut self, at: u64, waker: &core::task::Waker, now: u64) -> (wake: bool)
        ensures
            final(self)@.len() == old(self)@.len(),
            exists|own: Seq<bool>|
                {
                    &&& own.len() == old(self)@.len()
                    &&& at > now ==> forall|i: int|
                        0 <= i < own.len() ==> asked_of(old(self)@[i], *waker, #[trigger] own[i])
                    &&& forall|i: int|
                        0 <= i < own.len() && #[trigger] own[i] ==> alarm_of(
                            old(self)@,
                            i,
                            task_of(*waker),
                        )
                    &&& #[trigger] scheduled(
                        old(self)@,
                        final(self)@,
                        own,
                        at,
                        task_of(*waker),
                        now,
                        wake,
                    )
                },
    {
        let mut taken: [bool; MAX_ALARMS] = [false; MAX_ALARMS];
        let mut own: [bool; MAX_ALARMS] = [false; MAX_ALARMS];
        let ghost before = self@;
        if at <= now {
            proof {
                let none = Seq::new(before.len(), |i: int| false);
                assert(scheduled(before, self@, none, at, task_of(*waker), now, true));
            }
            return true;
        }
        let mut i: usize = 0;
        while i < MAX_ALARMS
            invariant
                i <= MAX_ALARMS,
                self@ == before,
                before.len() == MAX_ALARMS,
                before == self.slots@,
                forall|j: int| 0 <= j < i ==> #[trigger] taken@[j] == (before[j] is Some),
                forall|j: int| i <= j < MAX_ALARMS ==> !#[trigger] own@[j],
                forall|j: int| 0 <= j < i ==> asked_of(before[j], *waker, #[trigger] own@[j]),
                forall|j: int|
                    0 <= j < MAX_ALARMS && #[trigger] own@[j] ==> alarm_of(
                        before,
                        j,
                        task_of(*waker),
                    ),
            decreases MAX_ALARMS - i,
        {
            match &self.slots[i] {
                Some(alarm) => {
                    taken[i] = true;
                    match &alarm.waker {
                        Some(w) => {
                            own[i] = will_wake(w, waker);
                        },
                        None => {},
                    }
                },
                None => {
                    taken[i] = false;
                },
            }
            i += 1;
        }
        let place = place_alarm(&taken, &own);
        assert(taken@ =~= taken_slots(before));
        match place {
            Place::Move(k) => {
                let held = self.slots[k].take();
                match held {
                    Some(alarm) => {
                        self.slots[k] = Some(Alarm { at, waker: alarm.waker });
                    },
                    None => {},
                }
                assert(self@ =~= before.update(
                    k as int,
                    Some(Alarm { at, waker: before[k as int]->0.waker }),
                ));
                assert(scheduled(before, self@, own@, at, task_of(*waker), now, false));
                false
            },
            Place::Take(k) => {
                self.slots[k] = Some(Alarm { at, waker: Some(clone_waker(waker)) });
                assert(placed(taken_slots(before), own@, place));
                assert(scheduled(before, self@, own@, at, task_of(*waker), now, false));
                false
            },
            Place::Full => {
                assert(scheduled(before, self@, own@, at, task_of(*waker), now, true));
                true
            },
        }
    }

    /// Free the slots that have expired by `now` and return their wakers, to
    /// be woken.
    pub fn tick(&mut self, now: u64) -> (wakers: Vec<core::task::Waker>)
        ensures
            final(self)@ == ticked(old(self)@, now),
            wakers@ == expired(old(self)@, now),
    {
        let ghost before = self@;
        let mut wakers: Vec<core::task::Waker> = Vec::new();
        let mut i: usize = 0;
        assert(before.take(0) =~= Seq::<Option<Alarm>>::empty());
        while i < MAX_ALARMS
            invariant
                i <= MAX_ALARMS,
                before == old(self)@,
                before.len() == MAX_ALARMS,
                self@.len() == MAX_ALARMS,
                self@ == self.slots@,
                forall|j: int| 0 <= j < i ==> #[trigger] self@[j] == ticked(before, now)[j],
                forall|j: int| i <= j < MAX_ALARMS ==> #[trigger] self@[j] == before[j],
                wakers@ == expired(before.take(i as int), now),
            decreases MAX_ALARMS - i,
        {
            let ghost had = self@;
            proof {
                assert(had[i as int] == before[i as int]);
                assert(before.take(i + 1).drop_last() =~= before.take(i as int));
                assert(before.take(i + 1).last() == before[i as int]);
            }
            let due: bool = match &self.slots[i] {
                Some(alarm) => alarm.at <= now,
                None => false,
            };
            if due {
                let held = self.slots[i].take();
                match held {
                    Some(alarm) => {
                        match alarm.waker {
                            Some(waker) => {
                                wakers.push(waker);
                            },
                            None => {},
                        }
                    },
                    None => {},
                }
                assert(forall|j: int|
                    0 <= j < MAX_ALARMS && j != i ==> #[trigger] self@[j] == had[j]);
            }
            i += 1;
        }
        assert(self@ =~= ticked(before, now));
        assert(before.take(MAX_ALARMS as int) =~= before);
        wakers
    }
}

// ── No wake is lost ─────────────────────────────────────────────────────

/// After a wake was scheduled, the task is woken right away or has an alarm
/// pending at that time; the alarms of other slots are as they were.
pub proof fn scheduled_wake_is_kept(
    before: Seq<Option<Alarm>>,
    after: Seq<Option<Alarm>>,
    own: Seq<bool>,
    at: u64,
    task: int,
    now: u64,
    wake: bool,
)
    requires
        scheduled(before, after, own, at, task, now, wake),
        own.len() == before.len(),
        forall|i: int| 0 <= i < own.len() && #[trigger] own[i] ==> alarm_of(before, i, task),
    ensures
        wake ==> after == before,
        !wake ==> exists|i: int|
            0 <= i < after.len() && #[trigger] alarm_of(after, i, task) && after[i]->0.at == at
                && forall|j: int|
                0 <= j < after.len() && j != i ==> #[trigger] after[j] == before[j],
{
    if !wake {
        let place = choose|place: Place|
            #[trigger] placed(taken_slots(before), own, place) && put(
                before,
                after,
                place,
                at,
                task,
                wake,
            );
        match place {
            Place::Move(i) => {
                assert(own[i as int]);
                assert(alarm_of(before, i as int, task));
                assert(alarm_of(after, i as int, task));
            },
            Place::Take(i) => {
                assert(alarm_of(after, i as int, task));
            },
            Place::Full => {},
        }
    }
}

/// Scheduling again moves the alarm that a task is known to have: no slot is
/// taken for a second one, and no other alarm changes.
pub proof fn known_alarm_is_moved(
    before: Seq<Option<Alarm>>,
    after: Seq<Option<Alarm>>,
    own: Seq<bool>,
    at: u64,
    task: int,
    now: u64,
    wake: bool,
    i: int,
)
    requires
        scheduled(before, after, own, at, task, now, wake),
        own.len() == before.len(),
        at > now,
        0 <= i < before.len(),
        before[i] is Some,
        own[i],
    ensures
        !wake,
        taken_slots(after) == taken_slots(before),
        exists|k: int|
            {
                &&& 0 <= k <= i
                &&& #[trigger] own[k]
                &&& before[k] is Some
                &&& after == before.update(k, Some(Alarm { at, waker: before[k]->0.waker }))
            },
{
    let taken = taken_slots(before);
    let place = choose|place: Place|
        #[trigger] placed(taken, own, place) && put(before, after, place, at, task, wake);
    assert(taken[i] && own[i]);
    match place {
        Place::Move(k) => {
            assert(own[k as int] && taken[k as int]);
            assert(k as int <= i);
            assert(taken_slots(after) =~= taken);
        },
        _ => {},
    }
}

/// Whether no task has two alarms pending.
pub open spec fn one_alarm_each(slots: Seq<Option<Alarm>>) -> bool {
    forall|i: int, j: int, task: int|
        0 <= i < j < slots.len() && #[trigger] alarm_of(slots, i, task) ==> !#[trigger] alarm_of(
            slots,
            j,
            task,
        )
}

/// No task ever has two alarms pending, as long as its own is recognised
/// whenever it schedules again.
pub proof fn alarms_are_not_doubled(
    before: Seq<Option<Alarm>>,
    after: Seq<Option<Alarm>>,
    own: Seq<bool>,
    at: u64,
    task: int,
    now: u64,
    wake: bool,
)
    requires
        scheduled(before, after, own, at, task, now, wake),
        own.len() == before.len(),
        forall|i: int| 0 <= i < own.len() ==> #[trigger] own[i] == alarm_of(before, i, task),
        one_alarm_each(before),
    ensures
        one_alarm_each(after),
{
    if at > now {
        let taken = taken_slots(before);
        let place = choose|place: Place|
            #[trigger] placed(taken, own, place) && put(before, after, place, at, task, wake);
        match place {
            Place::Move(k) => {
                assert(taken[k as int] && own[k as int]);
                assert forall|i: int, t: int| 0 <= i < after.len() && #[trigger]
                    alarm_of(after, i, t) implies alarm_of(before, i, t) by {
                    assert(alarm_of(before, k as int, task));
                }
            },
            Place::Take(k) => {
                assert forall|i: int| 0 <= i < before.len() implies !#[trigger] alarm_of(
                    before,
                    i,
                    task,
                ) by {
                    assert(!(taken[i] && own[i]));
                }
                assert forall|i: int, t: int|
                    0 <= i < after.len() && i != k && #[trigger] alarm_of(after, i, t)
                        implies alarm_of(before, i, t) by {
                    assert(after[i] == before[i]);
                }
                assert forall|i: int, j: int, t: int|
                    0 <= i < j < after.len() && #[trigger] alarm_of(after, i, t)
                        implies !#[trigger] alarm_of(after, j, t) by {
                    if i == k || j == k {
                        assert(alarm_of(after, k as int, t) ==> t == task);
                    }
                }
            },
            Place::Full => {},
        }
    }
}

/// A pending alarm stays until its time has come; the first tick after that
/// wakes its task and frees the slot.
pub proof fn alarm_fires_when_due(slots: Seq<Option<Alarm>>, i: int, task: int, now: u64)
    requires
        0 <= i < slots.len(),
        alarm_of(slots, i, task),
    ensures
        now < slots[i]->0.at ==> ticked(slots, now)[i] == slots[i],
        slots[i]->0.at <= now ==> {
            &&& ticked(slots, now)[i] is None
            &&& exists|k: int|
                0 <= k < expired(slots, now).len() && task_of(#[trigger] expired(slots, now)[k])
                    == task
        },
    decreases slots.len(),
{
    if slots[i]->0.at <= now {
        let rest = slots.drop_last();
        let all = expired(slots, now);
        if i < rest.len() {
            assert(rest[i] == slots[i]);
            assert(alarm_of(rest, i, task));
            alarm_fires_when_due(rest, i, task, now);
            let some = expired(rest, now);
            let k = choose|k: int|
                0 <= k < some.len() && task_of(#[trigger] some[k]) == task;
            assert(all[k] == some[k]);
        } else {
            assert(slots.last() == slots[i]);
            assert(task_of(all[all.len() - 1]) == task);
        }
    }
}

/// A tick wakes no task whose time has not come.
pub proof fn only_due_alarms_fire(slots: Seq<Option<Alarm>>, now: u64, k: int)
    requires
        0 <= k < expired(slots, now).len(),
    ensures
        exists|i: int|
            0 <= i < slots.len() && #[trigger] slots[i] is Some && slots[i]->0.at <= now
                && slots[i]->0.waker == Some(expired(slots, now)[k]),
    decreases slots.len(),
{
    if slots.len() > 0 {
        let rest = slots.drop_last();
        let some = expired(rest, now);
        let last = slots.len() - 1;
        assert(slots.last() == slots[last]);
        if k < some.len() {
            only_due_alarms_fire(rest, now, k);
            let i = choose|i: int|
                0 <= i < rest.len() && #[trigger] rest[i] is Some && rest[i]->0.at <= now
                    && rest[i]->0.waker == Some(some[k]);
            assert(slots[i] == rest[i]);
            assert(expired(slots, now)[k] == some[k]);
        } else {
            assert(slots[last] is Some);
        }
    }
}

// ── Every CPU's alarms ──────────────────────────────────────────────────

/// The time driver: the TSC calibration value, and one table of alarm slots
/// per CPU.
pub struct ApicTimeDriver {
    tsc_per_us: u64,
    tables: [AlarmSlots; MAX_CPUS],
}

impl ApicTimeDriver {
    /// TSC ticks per microsecond.
    pub closed spec fn tsc_per_us(&self) -> u64 {
        self.tsc_per_us
    }

    /// The alarm slots of every CPU.
    pub closed spec fn alarms(&self) -> Seq<Seq<Option<Alarm>>> {
        Seq::new(MAX_CPUS as nat, |i: int| self.tables@[i]@)
    }

    /// There is a table for every CPU, with the same number of slots.
    pub proof fn has_every_table(self)
        ensures
            self.alarms().len() == MAX_CPUS,
            forall|cpu: int|
                0 <= cpu < MAX_CPUS ==> (#[trigger] self.alarms()[cpu]).len() == MAX_ALARMS,
    {
    }

    /// Not calibrated yet (one tick per microsecond), and no alarm pending.
    pub fn new() -> (driver: Self)
        ensures
            driver.tsc_per_us() == 1,
            driver.alarms() == Seq::new(
                MAX_CPUS as nat,
                |cpu: int| Seq::new(MAX_ALARMS as nat, |i: int| None::<Alarm>),
            ),
    {
        let driver = ApicTimeDriver {
            tsc_per_us: 1,
            tables: [
                AlarmSlots::new(),
                AlarmSlots::new(),
                AlarmSlots::new(),
                AlarmSlots::new(),
                AlarmSlots::new(),
                AlarmSlots::new(),
                AlarmSlots::new(),
                AlarmSlots::new(),
            ],
        };
        assert(driver.alarms() =~= Seq::new(
            MAX_CPUS as nat,
            |cpu: int| Seq::new(MAX_ALARMS as nat, |i: int| None::<Alarm>),
        ));
        driver
    }

    /// The time in microseconds, from the time stamp counter.
    pub fn now(&self, tsc: u64) -> (now: u64)
        requires
            self.tsc_per_us() > 0,
        ensures
            now == tsc / self.tsc_per_us(),
    {
        tsc / self.tsc_per_us
    }

    /// Schedule a wake on `cpu` at `at`, the time stamp counter being `tsc`.
    /// Returns whether the caller has to wake the task right away.
    pub fn schedule_wake(
        &mut self,
        cpu: CpuId,
        tsc: u64,
        at: u64,
        waker: &core::task::Waker,
    ) -> (wake: bool)
        requires
            old(self).tsc_per_us() > 0,
            slot(cpu) < MAX_CPUS,
        ensures
            final(self).tsc_per_us() == old(self).tsc_per_us(),
            final(self).alarms().len() == old(self).alarms().len(),
            forall|i: int|
                0 <= i < MAX_CPUS && i != slot(cpu) ==> #[trigger] final(self).alarms()[i] == old(self).alarms()[i],
            exists|own: Seq<bool>|
                {
                    &&& own.len() == MAX_ALARMS
                    &&& at > tsc / old(self).tsc_per_us() ==> forall|i: int|
                        0 <= i < own.len() ==> asked_of(
                            old(self).alarms()[slot(cpu)][i],
                            *waker,
                            #[trigger] own[i],
                        )
                    &&& forall|i: int|
                        0 <= i < own.len() && #[trigger] own[i] ==> alarm_of(
                            old(self).alarms()[slot(cpu)],
                            i,
                            task_of(*waker),
                        )
                    &&& #[trigger] scheduled(
                        old(self).alarms()[slot(cpu)],
                        final(self).alarms()[slot(cpu)],
                        own,
                        at,
                        task_of(*waker),
                        tsc / old(self).tsc_per_us(),
                        wake,
                    )
                },
    {
        let now: u64 = self.now(tsc);
        let i: usize = slot_of(cpu);
        let ghost before = self.alarms();
        assert(before[i as int] == self.tables@[i as int]@);
        let wake: bool = self.tables[i].schedule(at, waker, now);
        assert(self.alarms()[i as int] == self.tables@[i as int]@);
        wake
    }
}

/// Set the TSC calibration value. Call once during init from BSP; the same
/// value is propagated to APs.
pub fn set_tsc_per_us(driver: &mut ApicTimeDriver, tsc_per_us: u64)
    ensures
        final(driver).tsc_per_us() == tsc_per_us,
        final(driver).alarms() == old(driver).alarms(),
{
    driver.tsc_per_us = tsc_per_us;
    assert(driver.alarms() =~= old(driver).alarms());
}

/// Called from each CPU's APIC timer interrupt handler. Frees the calling
/// CPU's alarm slots that have expired and returns their wakers, to be woken.
pub fn on_timer_tick(driver: &mut ApicTimeDriver, cpu: CpuId, tsc: u64) -> (wakers: Vec<
    core::task::Waker,
>)
    requires
        old(driver).tsc_per_us() > 0,
        slot(cpu) < MAX_CPUS,
    ensures
        final(driver).tsc_per_us() == old(driver).tsc_per_us(),
        final(driver).alarms() == old(driver).alarms().update(
            slot(cpu),
            ticked(old(driver).alarms()[slot(cpu)], tsc / old(driver).tsc_per_us()),
        ),
        wakers@ == expired(old(driver).alarms()[slot(cpu)], tsc / old(driver).tsc_per_us()),
{
    let now: u64 = driver.now(tsc);
    let i: usize = slot_of(cpu);
    let ghost before = driver.alarms();
    assert(before[i as int] == driver.tables@[i as int]@);
    let wakers = driver.tables[i].tick(now);
    assert(driver.alarms() =~= before.update(slot(cpu), ticked(before[slot(cpu)], now)));
    wakers
}

/// A time driver without alarms: the clock runs at a thousand TSC ticks per
/// unit, and a task that waits is woken right away (busy-poll).
pub struct TscTimeDriver;

impl TscTimeDriver {
    /// The time, from the time stamp counter.
    pub fn now(&self, tsc: u64) -> (now: u64)
        ensures
            now == tsc / 1000,
    {
        tsc / 1000
    }

    /// Whether the caller has to wake the task right away: always.
    pub fn schedule_wake(&self, at: u64) -> (wake: bool)
        ensures
            wake,
    {
        true
    }
}

// ── What the driver comes to ────────────────────────────────────────────

/// The time is the whole number of microseconds that the counter has counted.
pub proof fn time_is_in_microseconds(driver: &ApicTimeDriver, tsc: u64, now: u64)
    requires
        driver.tsc_per_us() > 0,
        call_ensures(ApicTimeDriver::now, (driver, tsc), now),
    ensures
        now * driver.tsc_per_us() <= tsc < (now + 1) * driver.tsc_per_us(),
{
    let rate = driver.tsc_per_us() as int;
    let t = tsc as int;
    assert((t / rate) * rate <= t < (t / rate + 1) * rate) by (nonlinear_arith)
        requires
            rate > 0,
            t >= 0,
    ;
}

/// The plain driver counts a thousand ticks for one, and has every task woken.
pub proof fn plain_time_is_in_thousands(driver: &TscTimeDriver, tsc: u64, now: u64, at: u64, r: bool)
    ensures
        call_ensures(TscTimeDriver::now, (driver, tsc), now) ==> now * 1000 <= tsc < (now + 1)
            * 1000,
        call_ensures(TscTimeDriver::schedule_wake, (driver, at), r) ==> r,
{
}

/// The place of an alarm: the lowest slot that is known to be the task's own;
/// only where there is none the lowest that is free; and only where there is
/// neither none at all.
pub proof fn alarm_goes_to_the_lowest(taken: &[bool], own: &[bool], place: Place)
    requires
        taken@.len() == own@.len(),
        call_ensures(place_alarm, (taken, own), place),
    ensures
        match place {
            Place::Move(i) => {
                &&& i < taken@.len() && taken@[i as int] && own@[i as int]
                &&& forall|j: int| 0 <= j < i ==> !(#[trigger] taken@[j] && own@[j])
            },
            Place::Take(i) => {
                &&& i < taken@.len() && !taken@[i as int]
                &&& forall|j: int| 0 <= j < i ==> #[trigger] taken@[j]
                &&& forall|j: int| 0 <= j < taken@.len() ==> !(#[trigger] taken@[j] && own@[j])
            },
            Place::Full => forall|j: int|
                0 <= j < taken@.len() ==> #[trigger] taken@[j] && !own@[j],
        },
{
    assert forall|j: int| 0 <= j < taken@.len() implies (#[trigger] taken@[j]) == taken@[j] && (
    own@[j] == own@[j]) by {}
}

/// What becomes of a wake that is asked for. One that is due is made at once,
/// and so is one for which there is no room; then nothing changes. Any other
/// leaves the task an alarm at that very time, in a slot that was its own or in
/// the lowest that was free, and leaves every other slot alone.
pub proof fn wake_is_made_or_kept(at: u64, waker: &core::task::Waker, now: u64, wake: bool)
    ensures
        forall|slots: &mut AlarmSlots| #[trigger]
            call_ensures(AlarmSlots::schedule, (slots, at, waker, now), wake) ==> {
                let before = (*slots)@;
                let after = (*final(slots))@;
                &&& at <= now ==> wake
                &&& wake ==> after == before
                &&& wake && at > now ==> forall|i: int| 0 <= i < 8 ==> #[trigger] before[i] is Some
                &&& !wake ==> exists|k: int|
                    {
                        &&& 0 <= k < 8
                        &&& #[trigger] alarm_of(after, k, task_of(*waker))
                        &&& after[k]->0.at == at
                        &&& forall|j: int|
                            0 <= j < 8 && j != k ==> #[trigger] after[j] == before[j]
                        &&& before[k] is Some ==> alarm_of(before, k, task_of(*waker))
                        &&& before[k] is None ==> forall|j: int|
                            0 <= j < k ==> #[trigger] before[j] is Some
                    }
            },
{
    assert forall|slots: &mut AlarmSlots| #[trigger]
        call_ensures(AlarmSlots::schedule, (slots, at, waker, now), wake) implies {
        let before = (*slots)@;
        let after = (*final(slots))@;
        &&& at <= now ==> wake
        &&& wake ==> after == before
        &&& wake && at > now ==> forall|i: int| 0 <= i < 8 ==> #[trigger] before[i] is Some
        &&& !wake ==> exists|k: int|
            {
                &&& 0 <= k < 8
                &&& #[trigger] alarm_of(after, k, task_of(*waker))
                &&& after[k]->0.at == at
                &&& forall|j: int| 0 <= j < 8 && j != k ==> #[trigger] after[j] == before[j]
                &&& before[k] is Some ==> alarm_of(before, k, task_of(*waker))
                &&& before[k] is None ==> forall|j: int| 0 <= j < k ==> #[trigger] before[j] is Some
            }
    } by {
        let before = (*slots)@;
        let after = (*final(slots))@;
        let task = task_of(*waker);
        (*slots).has_every_slot();
        let own = choose|own: Seq<bool>|
            {
                &&& own.len() == before.len()
                &&& at > now ==> forall|i: int|
                    0 <= i < own.len() ==> asked_of(before[i], *waker, #[trigger] own[i])
                &&& forall|i: int|
                    0 <= i < own.len() && #[trigger] own[i] ==> alarm_of(before, i, task)
                &&& #[trigger] scheduled(before, after, own, at, task, now, wake)
            };
        assert(scheduled(before, after, own, at, task, now, wake));
        if at > now {
            let taken = taken_slots(before);
            let place = choose|place: Place|
                #[trigger] placed(taken, own, place) && put(before, after, place, at, task, wake);
            match place {
                Place::Move(k) => {
                    assert(own[k as int]);
                    assert(alarm_of(before, k as int, task));
                    assert(alarm_of(after, k as int, task));
                },
                Place::Take(k) => {
                    assert(alarm_of(after, k as int, task));
                    assert forall|j: int| 0 <= j < k implies #[trigger] before[j] is Some by {
                        assert(taken[j]);
                    }
                },
                Place::Full => {
                    assert forall|i: int| 0 <= i < 8 implies #[trigger] before[i] is Some by {
                        assert(taken[i]);
                    }
                },
            }
        }
    }
}

/// What a tick does to each slot by itself: one that is due is freed, and every
/// other is left alone.
pub proof fn tick_frees_what_is_due(now: u64, wakers: Vec<core::task::Waker>)
    ensures
        forall|slots: &mut AlarmSlots| #[trigger]
            call_ensures(AlarmSlots::tick, (slots, now), wakers) ==> {
                let before = (*slots)@;
                let after = (*final(slots))@;
                &&& after.len() == before.len()
                &&& forall|i: int|
                    0 <= i < before.len() ==> match #[trigger] before[i] {
                        Some(alarm) => if alarm.at <= now {
                            after[i] is None
                        } else {
                            after[i] == before[i]
                        },
                        None => after[i] is None,
                    }
                &&& wakers@ == expired(before, now)
            },
{
}

/// Who is woken is added up slot by slot: each alarm that is due, and has a
/// waker, adds that waker once, and nothing else adds any.
pub proof fn wakers_add_up(slots: Seq<Option<Alarm>>, slot: Option<Alarm>, now: u64)
    ensures
        expired(Seq::empty(), now).len() == 0,
        expired(slots.push(slot), now).len() == expired(slots, now).len() + if slot is Some
            && slot->0.at <= now && slot->0.waker is Some {
            1int
        } else {
            0
        },
        forall|k: int|
            0 <= k < expired(slots, now).len() ==> #[trigger] expired(slots.push(slot), now)[k]
                == expired(slots, now)[k],
        slot is Some && slot->0.at <= now && slot->0.waker is Some ==> expired(
            slots.push(slot),
            now,
        ).last() == slot->0.waker->0,
{
    assert(slots.push(slot).drop_last() =~= slots);
}

/// A tick of one CPU's timer concerns that CPU's alarms alone, by the time that
/// its counter tells.
pub proof fn tick_concerns_one_cpu(
    cpu: CpuId,
    tsc: u64,
    now: u64,
    wakers: Vec<core::task::Waker>,
)
    requires
        slot(cpu) < 8,
    ensures
        forall|driver: &mut ApicTimeDriver| #[trigger]
            call_ensures(on_timer_tick, (driver, cpu, tsc), wakers) && (*driver).tsc_per_us() > 0
                && now * (*driver).tsc_per_us() <= tsc < (now + 1) * (*driver).tsc_per_us() ==> {
                let before = (*driver).alarms()[slot(cpu)];
                let after = (*final(driver)).alarms()[slot(cpu)];
                &&& (*final(driver)).tsc_per_us() == (*driver).tsc_per_us()
                &&& wakers@ == expired(before, now)
                &&& after.len() == before.len()
                &&& forall|i: int|
                    0 <= i < 8 ==> match #[trigger] before[i] {
                        Some(alarm) => if alarm.at <= now {
                            after[i] is None
                        } else {
                            after[i] == before[i]
                        },
                        None => after[i] is None,
                    }
                &&& forall|i: int|
                    0 <= i < 8 && i != slot(cpu) ==> #[trigger] (*final(driver)).alarms()[i]
                        == (*driver).alarms()[i]
            },
{
    assert forall|driver: &mut ApicTimeDriver| #[trigger]
        call_ensures(on_timer_tick, (driver, cpu, tsc), wakers) && (*driver).tsc_per_us() > 0 && now
            * (*driver).tsc_per_us() <= tsc < (now + 1) * (*driver).tsc_per_us() implies {
        let before = (*driver).alarms()[slot(cpu)];
        let after = (*final(driver)).alarms()[slot(cpu)];
        &&& wakers@ == expired(before, now)
        &&& after.len() == before.len()
        &&& forall|i: int|
            0 <= i < 8 ==> match #[trigger] before[i] {
                Some(alarm) => if alarm.at <= now {
                    after[i] is None
                } else {
                    after[i] == before[i]
                },
                None => after[i] is None,
            }
        &&& forall|i: int|
            0 <= i < 8 && i != slot(cpu) ==> #[trigger] (*final(driver)).alarms()[i]
                == (*driver).alarms()[i]
    } by {
        (*driver).has_every_table();
        quotient_is_so(tsc as int, (*driver).tsc_per_us() as int, now as int);
    }
}

proof fn quotient_is_so(t: int, rate: int, q: int)
    by (nonlinear_arith)
    requires
        rate > 0,
        t >= 0,
        q * rate <= t < (q + 1) * rate,
    ensures
        t / rate == q,
{
}

/// A wake that is asked for on one CPU is made or kept there, by the time that
/// the counter tells, and concerns no other CPU.
pub proof fn wake_concerns_one_cpu(
    cpu: CpuId,
    tsc: u64,
    now: u64,
    at: u64,
    waker: &core::task::Waker,
    wake: bool,
)
    requires
        slot(cpu) < 8,
    ensures
        forall|driver: &mut ApicTimeDriver| #[trigger]
            call_ensures(ApicTimeDriver::schedule_wake, (driver, cpu, tsc, at, waker), wake)
                && (*driver).tsc_per_us() > 0 && now * (*driver).tsc_per_us() <= tsc < (now + 1)
                * (*driver).tsc_per_us() ==> {
                let before = (*driver).alarms()[slot(cpu)];
                let after = (*final(driver)).alarms()[slot(cpu)];
                &&& (*final(driver)).tsc_per_us() == (*driver).tsc_per_us()
                &&& at <= now ==> wake
                &&& wake ==> after == before
                &&& wake && at > now ==> forall|i: int| 0 <= i < 8 ==> #[trigger] before[i] is Some
                &&& !wake ==> exists|k: int|
                    {
                        &&& 0 <= k < 8
                        &&& #[trigger] alarm_of(after, k, task_of(*waker))
                        &&& after[k]->0.at == at
                        &&& forall|j: int|
                            0 <= j < 8 && j != k ==> #[trigger] after[j] == before[j]
                    }
                &&& forall|i: int|
                    0 <= i < 8 && i != slot(cpu) ==> #[trigger] (*final(driver)).alarms()[i]
                        == (*driver).alarms()[i]
            },
{
    assert forall|driver: &mut ApicTimeDriver| #[trigger]
        call_ensures(ApicTimeDriver::schedule_wake, (driver, cpu, tsc, at, waker), wake)
            && (*driver).tsc_per_us() > 0 && now * (*driver).tsc_per_us() <= tsc < (now + 1)
            * (*driver).tsc_per_us() implies {
        let before = (*driver).alarms()[slot(cpu)];
        let after = (*final(driver)).alarms()[slot(cpu)];
        &&& at <= now ==> wake
        &&& wake ==> after == before
        &&& wake && at > now ==> forall|i: int| 0 <= i < 8 ==> #[trigger] before[i] is Some
        &&& !wake ==> exists|k: int|
            {
                &&& 0 <= k < 8
                &&& #[trigger] alarm_of(after, k, task_of(*waker))
                &&& after[k]->0.at == at
                &&& forall|j: int| 0 <= j < 8 && j != k ==> #[trigger] after[j] == before[j]
            }
    } by {
        (*driver).has_every_table();
        (*final(driver)).has_every_table();
        quotient_is_so(tsc as int, (*driver).tsc_per_us() as int, now as int);
        let before = (*driver).alarms()[slot(cpu)];
        let after = (*final(driver)).alarms()[slot(cpu)];
        let task = task_of(*waker);
        let own = choose|own: Seq<bool>|
            {
                &&& own.len() == MAX_ALARMS
                &&& at > now ==> forall|i: int|
                    0 <= i < own.len() ==> asked_of(before[i], *waker, #[trigger] own[i])
                &&& forall|i: int|
                    0 <= i < own.len() && #[trigger] own[i] ==> alarm_of(before, i, task)
                &&& #[trigger] scheduled(before, after, own, at, task, now, wake)
            };
        assert(scheduled(before, after, own, at, task, now, wake));
        scheduled_wake_is_kept(before, after, own, at, task, now, wake);
        if wake && at > now {
            let place = choose|place: Place|
                #[trigger] placed(taken_slots(before), own, place) && put(
                    before,
                    after,
                    place,
                    at,
                    task,
                    wake,
                );
            assert forall|i: int| 0 <= i < 8 implies #[trigger] before[i] is Some by {
                assert(taken_slots(before)[i]);
            }
        }
        if !wake {
            let k = choose|k: int|
                0 <= k < after.len() && #[trigger] alarm_of(after, k, task) && after[k]->0.at == at
                    && forall|j: int|
                    0 <= j < after.len() && j != k ==> #[trigger] after[j] == before[j];
            assert(alarm_of(after, k, task));
        }
    }
}

/// A driver begins with no alarm, at one tick per microsecond, and takes the
/// rate that it is told, leaving its alarms alone.
pub proof fn driver_takes_the_rate(driver: ApicTimeDriver, rate: u64, slots: AlarmSlots)
    ensures
        call_ensures(ApicTimeDriver::new, (), driver) ==> {
            &&& driver.tsc_per_us() == 1
            &&& driver.alarms().len() == 8
            &&& forall|c: int, i: int|
                0 <= c < 8 && 0 <= i < 8 ==> #[trigger] driver.alarms()[c][i] is None
        },
        forall|d: &mut ApicTimeDriver| #[trigger]
            call_ensures(set_tsc_per_us, (d, rate), ()) ==> (*final(d)).tsc_per_us() == rate
                && (*final(d)).alarms() == (*d).alarms(),
        call_ensures(AlarmSlots::new, (), slots) ==> slots@.len() == 8 && forall|i: int|
            0 <= i < 8 ==> #[trigger] slots@[i] is None,
{
}

/// Whether every waker of the task of `waker` is recognised as such.
pub open spec fn is_recognised(waker: core::task::Waker) -> bool {
    forall|w: core::task::Waker, r: bool| #[trigger]
        recognised(w, waker, r) && task_of(w) == task_of(waker) ==> r
}

/// A task that has an alarm pending, and is recognised, and asks for another
/// wake that is not due yet, has its alarm moved: no further slot is taken.
pub proof fn pending_alarm_is_moved(at: u64, waker: &core::task::Waker, now: u64, wake: bool, i: int)
    requires
        at > now,
        0 <= i < 8,
        is_recognised(*waker),
    ensures
        forall|slots: &mut AlarmSlots| #[trigger]
            call_ensures(AlarmSlots::schedule, (slots, at, waker, now), wake) && alarm_of(
                (*slots)@,
                i,
                task_of(*waker),
            ) ==> {
                &&& !wake
                &&& forall|j: int|
                    0 <= j < 8 ==> (#[trigger] (*final(slots))@[j] is Some <==> (*slots)@[j] is Some)
                &&& exists|k: int|
                    0 <= k <= i && #[trigger] alarm_of((*final(slots))@, k, task_of(*waker))
                        && (*final(slots))@[k]->0.at == at
            },
{
    assert forall|slots: &mut AlarmSlots| #[trigger]
        call_ensures(AlarmSlots::schedule, (slots, at, waker, now), wake) && alarm_of(
            (*slots)@,
            i,
            task_of(*waker),
        ) implies {
        &&& !wake
        &&& forall|j: int|
            0 <= j < 8 ==> (#[trigger] (*final(slots))@[j] is Some <==> (*slots)@[j] is Some)
        &&& exists|k: int|
            0 <= k <= i && #[trigger] alarm_of((*final(slots))@, k, task_of(*waker)) && (*final(
                slots))@[k]->0.at == at
    } by {
        let before = (*slots)@;
        let after = (*final(slots))@;
        let task = task_of(*waker);
        (*slots).has_every_slot();
        let own = choose|own: Seq<bool>|
            {
                &&& own.len() == before.len()
                &&& at > now ==> forall|j: int|
                    0 <= j < own.len() ==> asked_of(before[j], *waker, #[trigger] own[j])
                &&& forall|j: int|
                    0 <= j < own.len() && #[trigger] own[j] ==> alarm_of(before, j, task)
                &&& #[trigger] scheduled(before, after, own, at, task, now, wake)
            };
        assert(scheduled(before, after, own, at, task, now, wake));
        moved_if_recognised(before, after, own, at, *waker, now, wake, i);
    }
}

proof fn moved_if_recognised(
    before: Seq<Option<Alarm>>,
    after: Seq<Option<Alarm>>,
    own: Seq<bool>,
    at: u64,
    waker: core::task::Waker,
    now: u64,
    wake: bool,
    i: int,
)
    requires
        at > now,
        before.len() == 8,
        own.len() == 8,
        0 <= i < 8,
        is_recognised(waker),
        alarm_of(before, i, task_of(waker)),
        forall|j: int| 0 <= j < own.len() ==> asked_of(before[j], waker, #[trigger] own[j]),
        forall|j: int| 0 <= j < own.len() && #[trigger] own[j] ==> alarm_of(before, j, task_of(waker)),
        scheduled(before, after, own, at, task_of(waker), now, wake),
    ensures
        !wake,
        forall|j: int| 0 <= j < 8 ==> (#[trigger] after[j] is Some <==> before[j] is Some),
        exists|k: int|
            0 <= k <= i && #[trigger] alarm_of(after, k, task_of(waker)) && after[k]->0.at == at,
{
    let task = task_of(waker);
    assert(asked_of(before[i], waker, own[i]));
    let w = before[i]->0.waker->0;
    assert(recognised(w, waker, own[i]));
    assert(own[i]);
    known_alarm_is_moved(before, after, own, at, task, now, wake, i);
    let k = choose|k: int|
        {
            &&& 0 <= k <= i
            &&& #[trigger] own[k]
            &&& before[k] is Some
            &&& after == before.update(k, Some(Alarm { at, waker: before[k]->0.waker }))
        };
    assert(alarm_of(before, k, task));
    assert(alarm_of(after, k, task));
}

/// The same on a CPU of the driver.
pub proof fn pending_alarm_is_moved_on_its_cpu(
    cpu: CpuId,
    tsc: u64,
    now: u64,
    at: u64,
    waker: &core::task::Waker,
    wake: bool,
    i: int,
)
    requires
        slot(cpu) < 8,
        at > now,
        0 <= i < 8,
        is_recognised(*waker),
    ensures
        forall|driver: &mut ApicTimeDriver| #[trigger]
            call_ensures(ApicTimeDriver::schedule_wake, (driver, cpu, tsc, at, waker), wake)
                && (*driver).tsc_per_us() > 0 && now * (*driver).tsc_per_us() <= tsc < (now + 1)
                * (*driver).tsc_per_us() && alarm_of(
                (*driver).alarms()[slot(cpu)],
                i,
                task_of(*waker),
            ) ==> !wake && forall|j: int|
                0 <= j < 8 ==> (#[trigger] (*final(driver)).alarms()[slot(cpu)][j] is Some
                    <==> (*driver).alarms()[slot(cpu)][j] is Some),
{
    assert forall|driver: &mut ApicTimeDriver| #[trigger]
        call_ensures(ApicTimeDriver::schedule_wake, (driver, cpu, tsc, at, waker), wake)
            && (*driver).tsc_per_us() > 0 && now * (*driver).tsc_per_us() <= tsc < (now + 1)
            * (*driver).tsc_per_us() && alarm_of(
            (*driver).alarms()[slot(cpu)],
            i,
            task_of(*waker),
        ) implies !wake && forall|j: int|
        0 <= j < 8 ==> (#[trigger] (*final(driver)).alarms()[slot(cpu)][j] is Some <==> (
        *driver).alarms()[slot(cpu)][j] is Some) by {
        (*driver).has_every_table();
        quotient_is_so(tsc as int, (*driver).tsc_per_us() as int, now as int);
        let before = (*driver).alarms()[slot(cpu)];
        let after = (*final(driver)).alarms()[slot(cpu)];
        let task = task_of(*waker);
        let own = choose|own: Seq<bool>|
            {
                &&& own.len() == MAX_ALARMS
                &&& at > now ==> forall|j: int|
                    0 <= j < own.len() ==> asked_of(before[j], *waker, #[trigger] own[j])
                &&& forall|j: int|
                    0 <= j < own.len() && #[trigger] own[j] ==> alarm_of(before, j, task)
                &&& #[trigger] scheduled(before, after, own, at, task, now, wake)
            };
        assert(scheduled(before, after, own, at, task, now, wake));
        moved_if_recognised(before, after, own, at, *waker, now, wake, i);
    }
}

} // verus!
