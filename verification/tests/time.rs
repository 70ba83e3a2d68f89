use embclox::hal::time::{
    on_timer_tick, place_alarm, set_tsc_per_us, AlarmSlots, ApicTimeDriver, Place, TscTimeDriver,
};
use embclox::hal::vector_alloc::CpuId;
use std::sync::{Arc, Mutex};
use std::task::{Wake, Waker};

struct Task {
    woken: Mutex<u32>,
}

impl Wake for Task {
    fn wake(self: Arc<Self>) {
        *self.woken.lock().unwrap() += 1;
    }
}

fn task() -> (Arc<Task>, Waker) {
    let task = Arc::new(Task { woken: Mutex::new(0) });
    (task.clone(), Waker::from(task))
}

fn woken(task: &Arc<Task>) -> u32 {
    *task.woken.lock().unwrap()
}

#[test]
fn alarms_go_to_their_own_slot_first() {
    let t = true;
    let f = false;
    assert_eq!(place_alarm(&[f, t, t], &[f, f, t]), Place::Move(2));
    assert_eq!(place_alarm(&[t, f, f], &[f, f, f]), Place::Take(1));
    assert_eq!(place_alarm(&[t, t], &[f, f]), Place::Full);
    assert_eq!(place_alarm(&[t, t], &[t, t]), Place::Move(0));
    // A slot that is free is nobody's own.
    assert_eq!(place_alarm(&[f], &[t]), Place::Take(0));
    assert_eq!(place_alarm(&[], &[]), Place::Full);
}

#[test]
fn due_alarms_wake_their_tasks() {
    let mut slots = AlarmSlots::new();
    let (a, wa) = task();
    let (b, wb) = task();
    assert!(!slots.schedule(10, &wa, 0));
    assert!(!slots.schedule(20, &wb, 0));
    assert!(slots.tick(9).is_empty());
    for waker in slots.tick(10) {
        waker.wake();
    }
    assert_eq!((woken(&a), woken(&b)), (1, 0));
    for waker in slots.tick(100) {
        waker.wake();
    }
    assert_eq!((woken(&a), woken(&b)), (1, 1));
    assert!(slots.tick(1000).is_empty());
}

#[test]
fn past_alarms_wake_right_away() {
    let mut slots = AlarmSlots::new();
    let (_a, wa) = task();
    assert!(slots.schedule(5, &wa, 5));
    assert!(slots.schedule(4, &wa, 5));
    assert!(slots.tick(1000).is_empty());
}

#[test]
fn a_task_has_one_alarm() {
    let mut slots = AlarmSlots::new();
    let (_a, wa) = task();
    assert!(!slots.schedule(10, &wa, 0));
    // The clone wakes the same task, so its alarm is moved.
    assert!(!slots.schedule(30, &wa.clone(), 0));
    assert!(slots.tick(29).is_empty());
    let due = slots.tick(30);
    assert_eq!(due.len(), 1);
    assert!(due[0].will_wake(&wa));
}

#[test]
fn full_slots_make_the_task_poll() {
    let mut slots = AlarmSlots::new();
    let mut tasks = vec![];
    for i in 0..8 {
        let (t, w) = task();
        assert!(!slots.schedule(100 + i, &w, 0));
        tasks.push((t, w));
    }
    let (_ninth, w) = task();
    assert!(slots.schedule(50, &w, 0));
    // One slot comes free.
    assert_eq!(slots.tick(100).len(), 1);
    assert!(!slots.schedule(150, &w, 100));
    assert_eq!(slots.tick(150).len(), 8);
}

#[test]
fn alarms_are_kept_per_cpu() {
    let mut driver = ApicTimeDriver::new();
    assert_eq!(driver.now(5), 5);
    set_tsc_per_us(&mut driver, 1000);
    assert_eq!(driver.now(5_999), 5);
    let (_a, wa) = task();
    assert!(!driver.schedule_wake(CpuId::Ap(7), 0, 10, &wa));
    assert!(on_timer_tick(&mut driver, CpuId::Bsp, 50_000).is_empty());
    assert!(on_timer_tick(&mut driver, CpuId::Ap(7), 9_999).is_empty());
    assert_eq!(on_timer_tick(&mut driver, CpuId::Ap(7), 10_000).len(), 1);
    assert!(driver.schedule_wake(CpuId::Bsp, 10_000, 10, &wa));
}

#[test]
fn tsc_clock_without_alarms() {
    assert_eq!(TscTimeDriver.now(123_456), 123);
    assert!(TscTimeDriver.schedule_wake(99));
}

#[test]
fn scheduling_again_moves_the_alarm() {
    let mut slots = AlarmSlots::new();
    let mut tasks = Vec::new();
    for i in 0..8 {
        let (task, waker) = task();
        assert!(!slots.schedule(100 + i, &waker, 0));
        tasks.push((task, waker));
    }
    // All slots are taken, but a task that has one moves its alarm, under any
    // clone of its waker.
    let again = tasks[3].1.clone();
    assert!(!slots.schedule(500, &again, 0));
    let due = slots.tick(200);
    assert_eq!(due.len(), 7);
    assert!(due.iter().all(|w| !w.will_wake(&again)));
    assert!(slots.tick(499).is_empty());
    let due = slots.tick(500);
    assert_eq!(due.len(), 1);
    assert!(due[0].will_wake(&again));
}
