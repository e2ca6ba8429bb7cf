use std::cell::Cell;
use std::rc::Rc;

use bsp_raspi3b1_2::duration::Duration;
use bsp_raspi3b1_2::errors::Errcode;
use bsp_raspi3b1_2::timer::Counter;
use bsp_raspi3b1_2::timer::TimeManager;
use bsp_raspi3b1_2::timer::Timeout;
use bsp_raspi3b1_2::timer::TimeoutCallback;

/// A callback that counts its firings.
#[derive(Clone)]
struct FireCounter {
    fired: Rc<Cell<u32>>,
}

impl FireCounter {
    fn new() -> (FireCounter, Rc<Cell<u32>>) {
        let cell = Rc::new(Cell::new(0));
        (FireCounter { fired: cell.clone() }, cell)
    }
}

impl TimeoutCallback for FireCounter {
    fn call(&self) {
        self.fired.set(self.fired.get() + 1);
    }
}

/// One nanosecond per tick: tick counts and nanosecond counts coincide.
const FREQ_1GHZ: u32 = 1_000_000_000;

fn nanos(n: u64) -> Duration {
    Duration::from_nanos(n)
}

#[test]
fn to_duration_splits_seconds_and_nanos() {
    let d = Counter(2_500_000_000).to_duration(FREQ_1GHZ);
    assert_eq!(d, Duration::new(2, 500_000_000));
    let d = Counter(1500).to_duration(1000);
    assert_eq!(d, Duration::new(1, 500_000_000));
    let d = Counter(0).to_duration(1000);
    assert_eq!(d, Duration::zero());
}

#[test]
fn from_duration_exact() {
    // 1 ms at 1 MHz is exactly 1000 ticks.
    let c = Counter::from_duration(Duration::from_millis(1), 1_000_000).unwrap();
    assert_eq!(c, Counter(1000));
    let c = Counter::from_duration(Duration::from_secs(2), 19_200_000).unwrap();
    assert_eq!(c, Counter(38_400_000));
}

#[test]
fn from_duration_sub_tick_floors_to_zero() {
    // At 1 MHz one tick is 1 us; half a microsecond floors to zero ticks.
    let c = Counter::from_duration(Duration::new(0, 500), 1_000_000).unwrap();
    assert_eq!(c, Counter(0));
}

#[test]
fn from_duration_out_of_range_is_typed_error() {
    // u64::MAX seconds at 1 GHz cannot be a 64-bit tick count.
    let r = Counter::from_duration(Duration::new(u64::MAX, 0), FREQ_1GHZ);
    assert_eq!(r, Err(Errcode::DurationTooLarge));
}

#[test]
fn round_trip_loses_less_than_one_tick() {
    // 19.2 MHz: one tick is about 52 ns.
    let freq = 19_200_000;
    let d = Duration::new(0, 123_456_789);
    let c = Counter::from_duration(d, freq).unwrap();
    let back = d.as_nanos() - Counter(c.0).to_duration(freq).as_nanos();
    assert!(back * (freq as u128) < 1_000_000_000 + freq as u128);
    // And the round trip never gains time.
    assert!(Counter(c.0).to_duration(freq).as_nanos() <= d.as_nanos());
}

#[test]
fn refresh_advances_periodic_by_exactly_its_period() {
    let (cb, _) = FireCounter::new();
    let mut t = Timeout { due_time: nanos(1000), period: Some(nanos(300)), callback: cb };
    t.refresh();
    assert_eq!(t.due_time, nanos(1300));
    t.refresh();
    assert_eq!(t.due_time, nanos(1600));
}

#[test]
fn refresh_leaves_one_shot_unchanged() {
    let (cb, _) = FireCounter::new();
    let mut t = Timeout { due_time: nanos(1000), period: None, callback: cb };
    t.refresh();
    assert_eq!(t.due_time, nanos(1000));
}

#[test]
fn comparator_always_armed_at_global_minimum() {
    // Timeouts due at ticks {50, 20, 80}: the comparator model always
    // holds 20, never 50 or 80.
    let mut tm: TimeManager<FireCounter> = TimeManager::init(FREQ_1GHZ);
    let now = Duration::zero();
    let (cb, _) = FireCounter::new();
    tm.schedule(now, nanos(50), None, cb.clone());
    assert_eq!(tm.armed, Some(nanos(50)));
    tm.schedule(now, nanos(20), None, cb.clone());
    assert_eq!(tm.armed, Some(nanos(20)));
    tm.schedule(now, nanos(80), None, cb.clone());
    assert_eq!(tm.armed, Some(nanos(20)));
    assert_eq!(tm.peek_next_due_time(), Some(nanos(20)));
}

#[test]
fn schedule_returns_comparator_ticks() {
    let mut tm: TimeManager<FireCounter> = TimeManager::init(FREQ_1GHZ);
    let (cb, _) = FireCounter::new();
    let arm = tm.schedule(nanos(5), nanos(15), None, cb);
    assert_eq!(arm, Some(Counter(20)));
}

#[test]
fn timer_catch_up_fires_all_due_exactly_once() {
    // Timeouts due at ticks {10, 10, 25}, serviced by one comparator
    // event at uptime 30: all three fire exactly once, and with no
    // periodic timeout left nothing is re-armed.
    let mut tm: TimeManager<FireCounter> = TimeManager::init(FREQ_1GHZ);
    let now = Duration::zero();
    let (cb_a, fired_a) = FireCounter::new();
    let (cb_b, fired_b) = FireCounter::new();
    let (cb_c, fired_c) = FireCounter::new();
    tm.schedule(now, nanos(10), None, cb_a);
    tm.schedule(now, nanos(10), None, cb_b);
    tm.schedule(now, nanos(25), None, cb_c);
    let arm = tm.service(nanos(30));
    assert_eq!(fired_a.get(), 1);
    assert_eq!(fired_b.get(), 1);
    assert_eq!(fired_c.get(), 1);
    assert_eq!(arm, None);
    assert_eq!(tm.armed, None);
    assert_eq!(tm.peek_next_due_time(), None);
}

#[test]
fn timer_catch_up_rearms_periodic_in_the_future_only() {
    // One periodic timeout due at 10 with period 7, serviced at uptime
    // 30: it fires at 10, 17, 24 (three times, via the bounded catch-up
    // loop) and is re-armed for 31 — never for a past deadline.
    let mut tm: TimeManager<FireCounter> = TimeManager::init(FREQ_1GHZ);
    let (cb, fired) = FireCounter::new();
    tm.schedule(Duration::zero(), nanos(10), Some(nanos(7)), cb);
    let arm = tm.service(nanos(30));
    assert_eq!(fired.get(), 3);
    assert_eq!(tm.armed, Some(nanos(31)));
    assert_eq!(arm, Some(Counter(31)));
}

#[test]
fn fire_due_reports_fired_count_and_keeps_later_timeouts() {
    let mut tm: TimeManager<FireCounter> = TimeManager::init(FREQ_1GHZ);
    let now = Duration::zero();
    let (cb, fired) = FireCounter::new();
    tm.schedule(now, nanos(10), None, cb.clone());
    tm.schedule(now, nanos(40), None, cb.clone());
    let n = tm.fire_due(nanos(20));
    assert_eq!(n, 1);
    assert_eq!(fired.get(), 1);
    assert_eq!(tm.peek_next_due_time(), Some(nanos(40)));
}

#[test]
fn peek_next_due_time_empty() {
    let tm: TimeManager<FireCounter> = TimeManager::init(FREQ_1GHZ);
    assert_eq!(tm.peek_next_due_time(), None);
}

#[test]
fn duration_arithmetic() {
    let a = Duration::new(1, 600_000_000);
    let b = Duration::new(2, 700_000_000);
    let sum = a.checked_add(&b).unwrap();
    assert_eq!(sum, Duration::new(4, 300_000_000));
    assert!(a.lt(&b));
    assert!(a.le(&b));
    assert!(!b.le(&a));
    assert!(a.le(&a));
    assert_eq!(Duration::from_millis(1500), Duration::new(1, 500_000_000));
    assert_eq!(Duration::from_micros(7), Duration::new(0, 7000));
    assert_eq!(Duration::from_secs(3).as_nanos(), 3_000_000_000);
    assert!(Duration::zero().is_zero());
    assert!(!a.is_zero());
}

#[test]
fn duration_saturating_add_caps_at_max() {
    let a = Duration::new(u64::MAX, 999_999_999);
    let b = Duration::new(1, 0);
    let s = a.saturating_add(&b);
    assert_eq!(s, Duration::new(u64::MAX, 999_999_999));
    let c = Duration::new(1, 1).checked_add(&Duration::new(u64::MAX, 999_999_999));
    assert_eq!(c, None);
}

#[test]
fn service_on_empty_queue_stays_idle() {
    let mut tm: TimeManager<FireCounter> = TimeManager::init(FREQ_1GHZ);
    let arm = tm.service(nanos(100));
    assert_eq!(arm, None);
    assert_eq!(tm.armed, None);
}

#[test]
fn service_before_anything_is_due_rearms_at_minimum() {
    let mut tm: TimeManager<FireCounter> = TimeManager::init(FREQ_1GHZ);
    let (cb, fired) = FireCounter::new();
    tm.schedule(Duration::zero(), nanos(50), None, cb.clone());
    tm.schedule(Duration::zero(), nanos(20), None, cb.clone());
    let arm = tm.service(nanos(5));
    assert_eq!(fired.get(), 0);
    assert_eq!(arm, Some(Counter(20)));
    assert_eq!(tm.armed, Some(nanos(20)));
}
