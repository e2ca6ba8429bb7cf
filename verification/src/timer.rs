//! The monotonic counter and the software timer manager.
//!
//! The CPU's architectural timer gives one free-running 64-bit tick counter
//! and a single comparator. [`Counter`] converts between ticks and wall-clock
//! [`Duration`]s at the boot-time counter frequency; [`TimeManager`]
//! multiplexes any number of software [`Timeout`]s onto the one comparator by
//! always keeping it armed at the globally nearest due time.

use vstd::prelude::*;

use aarch64_cpu::registers::CNTPCT_EL0;
use aarch64_cpu::registers::CNTP_CTL_EL0;
use aarch64_cpu::registers::CNTP_CVAL_EL0;
use tock_registers::interfaces::ReadWriteable;
use tock_registers::interfaces::Readable;
use tock_registers::interfaces::Writeable;

use crate::duration::Duration;
use crate::duration::max_duration_nanos;
use crate::duration::spec_saturating_add;
use crate::errors::Errcode;
use crate::irq::IrqHandler;

verus! {

/// Relies on `aarch64_cpu::registers::CNTPCT_EL0.get`: reads the
/// free-running physical count register of the architectural timer. The
/// value depends on the moment of the read; nothing is assumed of it.
/// The read is not preceded by an instruction-synchronization barrier, so
/// out-of-order execution may deliver a count a few cycles stale; every
/// contract built on it tolerates that, since none constrains the value.
#[verifier::external_body]
fn counter_register_read() -> u64 {
    CNTPCT_EL0.get()
}

/// Relies on `aarch64_cpu::registers::CNTP_CVAL_EL0.set`: programs the
/// compare value of the architectural physical timer.
#[verifier::external_body]
fn comparator_write(ticks: u64) {
    CNTP_CVAL_EL0.set(ticks);
}

/// Relies on `aarch64_cpu::registers::CNTP_CTL_EL0.modify`: enables the
/// physical timer and unmasks its interrupt line.
#[verifier::external_body]
fn comparator_enable() {
    CNTP_CTL_EL0.modify(CNTP_CTL_EL0::ENABLE::SET + CNTP_CTL_EL0::IMASK::CLEAR);
}

/// Relies on `aarch64_cpu::registers::CNTP_CTL_EL0.modify`: disables the
/// physical timer and masks its interrupt line, de-asserting a pending
/// comparator condition.
#[verifier::external_body]
fn comparator_disable() {
    CNTP_CTL_EL0.modify(CNTP_CTL_EL0::ENABLE::CLEAR + CNTP_CTL_EL0::IMASK::SET);
}

/// Relies on `aarch64_cpu::registers::CNTPCT_EL0.get`: spins until the
/// free-running physical count register has reached `target`. That the
/// counter makes progress is a hardware fact no contract of this crate can
/// express, so the spin stands with the register access it repeats.
#[verifier::external_body]
fn wait_counter_reaches(target: u64) {
    while CNTPCT_EL0.get() < target {}
}

/// A reading of the free-running hardware tick counter, or a tick distance.
#[derive(Clone, Copy, Debug, PartialEq, Eq, Structural)]
pub struct Counter(pub u64);

/// The tick count a duration of `nanos` nanoseconds floors to, at `freq`
/// ticks per second.
pub open spec fn ticks_of_nanos(nanos: int, freq: int) -> int {
    nanos * freq / 1_000_000_000
}

/// The nanosecond count `ticks` converts to at `freq` ticks per second:
/// whole seconds, then the sub-second remainder scaled to nanoseconds.
pub open spec fn nanos_of_ticks(ticks: int, freq: int) -> int {
    (ticks / freq) * 1_000_000_000 + (ticks % freq) * 1_000_000_000 / freq
}

impl Counter {
    /// The wall-clock duration of this many ticks at `freq` ticks per second.
    pub fn to_duration(self, freq: u32) -> (d: Duration)
        requires
            1 <= freq,
        ensures
            d@ == nanos_of_ticks(self.0 as int, freq as int),
            d.secs == self.0 as int / freq as int,
            d.wf(),
            d@ < max_duration_nanos(),
    {
        let freq64: u64 = freq as u64;
        let secs: u64 = self.0 / freq64;
        let sub: u64 = self.0 % freq64;
        proof {
            assert(sub * 1_000_000_000 <= 0xFFFF_FFFFu64 * 1_000_000_000) by (nonlinear_arith)
                requires
                    0 <= sub <= 0xFFFF_FFFFu64,
            ;
            assert(sub * 1_000_000_000 / (freq64 as int) < 1_000_000_000) by (nonlinear_arith)
                requires
                    0 <= sub < freq64,
                    1 <= freq64,
            ;
        }
        let nanos: u64 = sub * 1_000_000_000 / freq64;
        proof {
            vstd::arithmetic::div_mod::lemma_fundamental_div_mod(self.0 as int, freq64 as int);
            vstd::arithmetic::div_mod::lemma_mod_bound(self.0 as int, freq64 as int);
            if freq64 >= 2 {
                assert(2 * secs <= freq64 * secs) by (nonlinear_arith)
                    requires
                        2 <= freq64,
                        0 <= secs,
                ;
            }
        }
        Duration::new(secs, nanos as u32)
    }

    /// The tick count a wall-clock duration floors to at `freq` ticks per
    /// second. Sub-tick durations floor to zero; a duration whose tick count
    /// does not fit the 64-bit counter is a typed error, never a wrapped
    /// value.
    pub fn from_duration(d: Duration, freq: u32) -> (r: Result<Counter, Errcode>)
        requires
            1 <= freq,
            d.wf(),
        ensures
            ticks_of_nanos(d@, freq as int) <= u64::MAX ==> (r matches Ok(c) && c.0
                == ticks_of_nanos(d@, freq as int)),
            ticks_of_nanos(d@, freq as int) > u64::MAX ==> r == Err::<Counter, Errcode>(
                Errcode::DurationTooLarge,
            ),
    {
        let total: u128 = d.as_nanos();
        proof {
            assert(total <= max_duration_nanos());
            assert(total * freq <= 0x4000_0000_0000_0000_0000_0000_0000_0000u128)
                by (nonlinear_arith)
                requires
                    0 <= total <= max_duration_nanos(),
                    0 <= freq <= 0xFFFF_FFFFu32,
            ;
        }
        let scaled: u128 = total * (freq as u128);
        let ticks: u128 = scaled / 1_000_000_000u128;
        if ticks > u64::MAX as u128 {
            Err(Errcode::DurationTooLarge)
        } else {
            Ok(Counter(#[verifier::truncate] (ticks as u64)))
        }
    }
}

/// Round trip within one tick: for any well-formed duration of `n`
/// nanoseconds, converting to ticks at `freq` ticks per second and back
/// loses time but less than one tick period. With `back` the nanosecond
/// count after the round trip, `back <= n` and
/// `(n - back) * freq < 1_000_000_000 + freq`: the loss stays below
/// `1e9 / freq + 1` nanoseconds.
pub proof fn lemma_tick_round_trip(d: Duration, freq: u32)
    requires
        1 <= freq,
        d.wf(),
    ensures
        nanos_of_ticks(ticks_of_nanos(d@, freq as int), freq as int) <= d@,
        (d@ - nanos_of_ticks(ticks_of_nanos(d@, freq as int), freq as int)) * freq
            < 1_000_000_000 + freq,
{
    let n = d@;
    let f = freq as int;
    let g = 1_000_000_000 as int;
    let t = ticks_of_nanos(n, f);
    let q = t / f;
    let s = t % f;
    let b2 = s * g / f;
    let back = nanos_of_ticks(t, f);
    assert(back == q * g + b2);

    let r1 = (n * f) % g;
    vstd::arithmetic::div_mod::lemma_fundamental_div_mod(n * f, g);
    vstd::arithmetic::div_mod::lemma_mod_bound(n * f, g);
    vstd::arithmetic::div_mod::lemma_fundamental_div_mod(t, f);
    vstd::arithmetic::div_mod::lemma_mod_bound(t, f);
    let r3 = (s * g) % f;
    vstd::arithmetic::div_mod::lemma_fundamental_div_mod(s * g, f);
    vstd::arithmetic::div_mod::lemma_mod_bound(s * g, f);

    assert(back * f == g * t - r3) by (nonlinear_arith)
        requires
            back == q * g + b2,
            t == f * q + s,
            s * g == f * b2 + r3,
    ;
    assert((n - back) * f == r1 + r3) by (nonlinear_arith)
        requires
            n * f == g * t + r1,
            back * f == g * t - r3,
    ;
    assert(back <= n) by (nonlinear_arith)
        requires
            back * f <= n * f,
            1 <= f,
    ;
}

/// Busy-waits for (at least) the given duration: one counter read to fix the
/// start, then a pure spin on the raw counter register. A duration whose
/// tick count overflows the counter is skipped, as documented for conversion
/// failures. Never yields.
pub fn spin_for(duration: Duration, freq: u32)
    requires
        1 <= freq,
        duration.wf(),
{
    let start: u64 = counter_register_read();
    let delta: Counter = match Counter::from_duration(duration, freq) {
        Ok(v) => v,
        Err(_) => {
            return ;
        },
    };
    let target: u64 = start.saturating_add(delta.0);
    wait_counter_reaches(target);
}

/// Programs the hardware comparator to fire at the absolute due time,
/// converting it to ticks first. A due time beyond the counter's range is a
/// typed error and leaves the comparator untouched: the caller skips the
/// arming.
pub fn set_timeout_irq(due_time: Duration, freq: u32) -> (r: Result<Counter, Errcode>)
    requires
        due_time.wf(),
        1 <= freq,
    ensures
        ticks_of_nanos(due_time@, freq as int) <= u64::MAX ==> (r matches Ok(c) && c.0
            == ticks_of_nanos(due_time@, freq as int)),
        ticks_of_nanos(due_time@, freq as int) > u64::MAX ==> r == Err::<Counter, Errcode>(
            Errcode::DurationTooLarge,
        ),
{
    match Counter::from_duration(due_time, freq) {
        Ok(target) => {
            comparator_write(target.0);
            comparator_enable();
            Ok(target)
        },
        Err(e) => Err(e),
    }
}

/// Concludes a pending timeout interrupt: disables the comparator and masks
/// its line, so the interrupt signal is de-asserted before the due timeouts
/// are serviced.
pub fn conclude_timeout_irq() {
    comparator_disable();
}

/// The callback capability carried by a [`Timeout`]: a callable with no
/// arguments, owned by the timeout, invoked on firing and never retained
/// elsewhere.
pub trait TimeoutCallback {
    /// Invoked once for each firing of the owning timeout.
    fn call(&self);
}

/// One scheduled timeout: an absolute due time, an optional repeat period,
/// and the callback to invoke on firing.
pub struct Timeout<C> {
    pub due_time: Duration,
    pub period: Option<Duration>,
    pub callback: C,
}

/// The refresh of one timeout, as a value: a periodic timeout advanced by
/// exactly its period, a one-shot timeout unchanged.
pub open spec fn spec_refreshed<C>(t: Timeout<C>) -> Timeout<C> {
    match t.period {
        Some(p) => Timeout {
            due_time: spec_saturating_add(t.due_time, p),
            period: t.period,
            callback: t.callback,
        },
        None => t,
    }
}

impl<C> Timeout<C> {
    /// Times are canonical, and a period, if present, is positive: the
    /// service loop is bounded exactly because every pass strictly advances
    /// or removes each due timeout.
    pub open spec fn wf(&self) -> bool {
        &&& self.due_time.wf()
        &&& (self.period matches Some(p) ==> p.wf() && p@ > 0)
    }

    /// Advances a fired periodic timeout by exactly its period — due time
    /// plus period, not "now" plus period, so periodic timeouts never drift
    /// — saturating at the largest representable time. A one-shot timeout
    /// is unchanged.
    pub fn refresh(&mut self)
        requires
            old(self).wf(),
        ensures
            final(self).wf(),
            *final(self) == spec_refreshed(*old(self)),
            final(self).period == old(self).period,
            final(self).callback == old(self).callback,
            match old(self).period {
                Some(p) => old(self).due_time@ + p@ <= max_duration_nanos()
                    ==> final(self).due_time@ == old(self).due_time@ + p@,
                None => final(self).due_time == old(self).due_time,
            },
    {
        let period = self.period;
        match period {
            Some(p) => {
                self.due_time = self.due_time.saturating_add(&p);
            },
            None => {},
        }
    }
}

/// Every timeout of the queue is well-formed.
pub open spec fn queue_wf<C>(q: Seq<Timeout<C>>) -> bool {
    forall|i: int| 0 <= i < q.len() ==> (#[trigger] q[i]).wf()
}

/// One service pass over a queue at time `now`, element by element in
/// order: a timeout not yet due is kept unchanged; a due periodic one is
/// refreshed and kept; a due one-shot one is removed.
pub open spec fn fire_pass<C>(q: Seq<Timeout<C>>, now: int) -> Seq<Timeout<C>>
    decreases q.len(),
{
    if q.len() == 0 {
        q
    } else {
        let rest = fire_pass(q.drop_first(), now);
        if q[0].due_time@ > now {
            seq![q[0]] + rest
        } else if q[0].period is Some {
            seq![spec_refreshed(q[0])] + rest
        } else {
            rest
        }
    }
}

/// How many timeouts of `q` are due at `now`: what one service pass fires.
pub open spec fn due_count<C>(q: Seq<Timeout<C>>, now: int) -> int
    decreases q.len(),
{
    if q.len() == 0 {
        0
    } else {
        (if q[0].due_time@ <= now {
            1int
        } else {
            0int
        }) + due_count(q.drop_first(), now)
    }
}

/// Total lateness of `q` at `now`: the termination measure of the catch-up
/// loop. Every service pass strictly shrinks it while anything is due.
pub open spec fn lateness<C>(q: Seq<Timeout<C>>, now: int) -> int
    decreases q.len(),
{
    if q.len() == 0 {
        0
    } else {
        (if q[0].due_time@ <= now {
            now - q[0].due_time@ + 1
        } else {
            0
        }) + lateness(q.drop_first(), now)
    }
}

/// A service pass distributes over concatenation, as do its fired count
/// and lateness.
proof fn lemma_fire_pass_append<C>(a: Seq<Timeout<C>>, b: Seq<Timeout<C>>, now: int)
    ensures
        fire_pass(a + b, now) == fire_pass(a, now) + fire_pass(b, now),
        due_count(a + b, now) == due_count(a, now) + due_count(b, now),
    decreases a.len(),
{
    if a.len() == 0 {
        assert(a + b =~= b);
        assert(fire_pass(a, now) + fire_pass(b, now) =~= fire_pass(b, now));
    } else {
        lemma_fire_pass_append(a.drop_first(), b, now);
        assert((a + b).drop_first() =~= a.drop_first() + b);
        assert((a + b)[0] == a[0]);
        if a[0].due_time@ > now {
            assert(seq![a[0]] + (fire_pass(a.drop_first(), now) + fire_pass(b, now)) =~= (seq![
                a[0],
            ] + fire_pass(a.drop_first(), now)) + fire_pass(b, now));
        } else if a[0].period is Some {
            assert(seq![spec_refreshed(a[0])] + (fire_pass(a.drop_first(), now) + fire_pass(
                b,
                now,
            )) =~= (seq![spec_refreshed(a[0])] + fire_pass(a.drop_first(), now)) + fire_pass(
                b,
                now,
            ));
        }
    }
}

/// What one service pass does to a single-timeout queue, spelled out.
proof fn lemma_fire_pass_single<C>(t: Timeout<C>, now: int)
    ensures
        fire_pass(seq![t], now) == (if t.due_time@ > now {
            seq![t]
        } else if t.period is Some {
            seq![spec_refreshed(t)]
        } else {
            Seq::<Timeout<C>>::empty()
        }),
        due_count(seq![t], now) == (if t.due_time@ <= now {
            1int
        } else {
            0int
        }),
{
    let s = seq![t];
    let e = Seq::<Timeout<C>>::empty();
    assert(s.drop_first() =~= e);
    assert(fire_pass(e, now) == e);
    assert(due_count(e, now) == 0);
    if t.due_time@ > now {
        assert(fire_pass(s, now) == seq![s[0]] + fire_pass(s.drop_first(), now));
        assert(seq![s[0]] + e =~= s);
    } else if t.period is Some {
        assert(fire_pass(s, now) == seq![spec_refreshed(s[0])] + fire_pass(s.drop_first(), now));
        assert(seq![spec_refreshed(t)] + e =~= seq![spec_refreshed(t)]);
    } else {
        assert(fire_pass(s, now) == fire_pass(s.drop_first(), now));
    }
}

/// A service pass keeps every queued timeout well-formed.
proof fn lemma_fire_pass_wf<C>(q: Seq<Timeout<C>>, now: int)
    requires
        queue_wf(q),
    ensures
        queue_wf(fire_pass(q, now)),
    decreases q.len(),
{
    if q.len() != 0 {
        assert(q[0].wf());
        assert forall|i: int| 0 <= i < q.drop_first().len() implies (#[trigger] q.drop_first()[i]).wf() by {
            assert(q.drop_first()[i] == q[i + 1]);
        }
        lemma_fire_pass_wf(q.drop_first(), now);
        let rest = fire_pass(q.drop_first(), now);
        if q[0].due_time@ > now {
            assert forall|i: int|
                0 <= i < (seq![q[0]] + rest).len() implies (#[trigger] (seq![q[0]] + rest)[i]).wf() by {
                if i > 0 {
                    assert((seq![q[0]] + rest)[i] == rest[i - 1]);
                }
            }
        } else if q[0].period is Some {
            match q[0].period {
                Some(p) => {
                    crate::duration::lemma_saturating_add_wf(q[0].due_time, p);
                },
                None => {},
            }
            let t2 = spec_refreshed(q[0]);
            assert(t2.wf());
            assert forall|i: int|
                0 <= i < (seq![t2] + rest).len() implies (#[trigger] (seq![t2] + rest)[i]).wf() by {
                if i > 0 {
                    assert((seq![t2] + rest)[i] == rest[i - 1]);
                }
            }
        }
    }
}

/// The lateness sum is never negative, nor is the fired count.
proof fn lemma_lateness_nonneg<C>(q: Seq<Timeout<C>>, now: int)
    ensures
        lateness(q, now) >= 0,
        due_count(q, now) >= 0,
    decreases q.len(),
{
    if q.len() != 0 {
        lemma_lateness_nonneg(q.drop_first(), now);
    }
}

/// A queue with a due timeout fires at least one.
proof fn lemma_due_count_at_least_one<C>(q: Seq<Timeout<C>>, now: int, i: int)
    requires
        0 <= i < q.len(),
        q[i].due_time@ <= now,
    ensures
        due_count(q, now) >= 1,
    decreases q.len(),
{
    lemma_lateness_nonneg(q.drop_first(), now);
    if i == 0 {
    } else {
        assert(q.drop_first()[i - 1] == q[i]);
        lemma_due_count_at_least_one(q.drop_first(), now, i - 1);
    }
}

/// One service pass shrinks the lateness by at least the fired count: each
/// due timeout is removed, or advanced by its positive period, or pushed
/// past `now`.
proof fn lemma_fire_pass_lateness<C>(q: Seq<Timeout<C>>, now: int)
    requires
        queue_wf(q),
        now < max_duration_nanos(),
    ensures
        lateness(fire_pass(q, now), now) <= lateness(q, now) - due_count(q, now),
    decreases q.len(),
{
    if q.len() == 0 {
    } else {
        assert(q[0].wf());
        assert forall|i: int| 0 <= i < q.drop_first().len() implies (#[trigger] q.drop_first()[i]).wf() by {
            assert(q.drop_first()[i] == q[i + 1]);
        }
        lemma_fire_pass_lateness(q.drop_first(), now);
        let rest = fire_pass(q.drop_first(), now);
        if q[0].due_time@ > now {
            assert((seq![q[0]] + rest).drop_first() =~= rest);
            assert((seq![q[0]] + rest)[0] == q[0]);
        } else {
            match q[0].period {
                Some(p) => {
                    let t2 = spec_refreshed(q[0]);
                    assert((seq![t2] + rest).drop_first() =~= rest);
                    assert((seq![t2] + rest)[0] == t2);
                    if q[0].due_time@ + p@ <= max_duration_nanos() {
                        assert(t2.due_time@ == q[0].due_time@ + p@);
                    } else {
                        assert(t2.due_time@ == max_duration_nanos());
                        assert(t2.due_time@ > now);
                    }
                },
                None => {},
            }
        }
    }
}

/// A queue whose every due time lies past `now` has nothing due.
proof fn lemma_due_count_zero<C>(q: Seq<Timeout<C>>, now: int)
    requires
        forall|i: int| 0 <= i < q.len() ==> (#[trigger] q[i]).due_time@ > now,
    ensures
        due_count(q, now) == 0,
    decreases q.len(),
{
    if q.len() != 0 {
        assert(q[0].due_time@ > now);
        assert forall|i: int|
            0 <= i < q.drop_first().len() implies (#[trigger] q.drop_first()[i]).due_time@
            > now by {
            assert(q.drop_first()[i] == q[i + 1]);
        }
        lemma_due_count_zero(q.drop_first(), now);
    }
}

/// The queue after the catch-up loop has settled at `now`: service passes
/// iterated until nothing is due any more. Well-defined because every pass
/// strictly shrinks the lateness while anything is due.
pub open spec fn settle<C>(q: Seq<Timeout<C>>, now: int) -> Seq<Timeout<C>>
    recommends
        queue_wf(q),
        now < max_duration_nanos(),
    decreases lateness(q, now),
    when queue_wf(q) && now < max_duration_nanos()
    via settle_decreases::<C>
{
    if due_count(q, now) == 0 {
        q
    } else {
        settle(fire_pass(q, now), now)
    }
}

#[via_fn]
proof fn settle_decreases<C>(q: Seq<Timeout<C>>, now: int) {
    lemma_lateness_nonneg(q, now);
    if due_count(q, now) != 0 {
        lemma_fire_pass_wf(q, now);
        lemma_fire_pass_lateness(q, now);
        lemma_lateness_nonneg(fire_pass(q, now), now);
    }
}

/// `d` is the due time of some queued timeout and no queued timeout is due
/// earlier.
pub open spec fn is_min_due<C>(q: Seq<Timeout<C>>, d: Duration) -> bool {
    &&& exists|i: int| 0 <= i < q.len() && (#[trigger] q[i]).due_time == d
    &&& forall|i: int| 0 <= i < q.len() ==> d@ <= (#[trigger] q[i]).due_time@
}

/// Two minima of one well-formed queue are the same value.
proof fn lemma_min_due_unique<C>(q: Seq<Timeout<C>>, d1: Duration, d2: Duration)
    requires
        queue_wf(q),
        is_min_due(q, d1),
        is_min_due(q, d2),
    ensures
        d1 == d2,
{
    let i1 = choose|i: int| 0 <= i < q.len() && (#[trigger] q[i]).due_time == d1;
    let i2 = choose|i: int| 0 <= i < q.len() && (#[trigger] q[i]).due_time == d2;
    assert(q[i1].wf());
    assert(q[i2].wf());
    crate::duration::lemma_duration_canonical(d1);
    crate::duration::lemma_duration_canonical(d2);
}

/// The software timer manager: any number of scheduled timeouts
/// multiplexed onto the single hardware comparator. `armed` models the
/// comparator: the due time it is currently programmed for, if any. The
/// manager is registered as the interrupt handler for the architectural
/// timer source.
pub struct TimeManager<C> {
    /// Ticks per second of the hardware counter, fixed at boot.
    pub freq: u32,
    /// The scheduled timeouts, unordered.
    pub queue: Vec<Timeout<C>>,
    /// The due time the hardware comparator is programmed for.
    pub armed: Option<Duration>,
}

impl<C: TimeoutCallback> TimeManager<C> {
    /// A positive frequency, a well-formed queue, a well-formed comparator
    /// model.
    pub open spec fn wf(&self) -> bool {
        &&& 1 <= self.freq
        &&& queue_wf(self.queue@)
        &&& (self.armed matches Some(d) ==> d.wf())
    }

    /// An empty manager at the given counter frequency, comparator idle.
    pub fn init(freq: u32) -> (m: TimeManager<C>)
        requires
            1 <= freq,
        ensures
            m.wf(),
            m.freq == freq,
            m.queue@.len() == 0,
            m.armed is None,
    {
        TimeManager { freq, queue: Vec::new(), armed: None }
    }

    /// Time since boot: the hardware counter converted at the boot-time
    /// frequency. Monotonic, because the counter is.
    pub fn uptime(&self) -> (d: Duration)
        requires
            self.wf(),
        ensures
            d.wf(),
            d@ < max_duration_nanos(),
    {
        let c = Counter(counter_register_read());
        c.to_duration(self.freq)
    }

    /// The earliest due time among the scheduled timeouts, if any: the
    /// deadline the comparator must be armed for.
    pub fn peek_next_due_time(&self) -> (r: Option<Duration>)
        requires
            self.wf(),
        ensures
            (r is Some) == (self.queue@.len() > 0),
            r matches Some(d) ==> d.wf() && is_min_due(self.queue@, d),
    {
        if self.queue.len() == 0 {
            return None;
        }
        let mut best: Duration = self.queue[0].due_time;
        let mut i: usize = 1;
        while i < self.queue.len()
            invariant
                queue_wf(self.queue@),
                1 <= i <= self.queue@.len(),
                best.wf(),
                exists|j: int| 0 <= j < i && (#[trigger] self.queue@[j]).due_time == best,
                forall|j: int| 0 <= j < i ==> best@ <= (#[trigger] self.queue@[j]).due_time@,
            decreases self.queue@.len() - i,
        {
            let cand: Duration = self.queue[i].due_time;
            if cand.lt(&best) {
                best = cand;
            }
            i = i + 1;
        }
        Some(best)
    }

    /// Re-computes the comparator model from the queue: armed at the
    /// minimum due time whenever its tick count is representable; left
    /// untouched (the caller skips the arming) when it is not. Returns the
    /// comparator value to program, if any.
    fn rearm(&mut self) -> (r: Option<Counter>)
        requires
            old(self).wf(),
        ensures
            final(self).wf(),
            final(self).freq == old(self).freq,
            final(self).queue@ == old(self).queue@,
            old(self).queue@.len() == 0 ==> r is None && final(self).armed == old(self).armed,
            forall|d: Duration|
                #[trigger] is_min_due(old(self).queue@, d) && ticks_of_nanos(
                    d@,
                    old(self).freq as int,
                ) <= u64::MAX ==> final(self).armed == Some(d) && r == Some(
                    Counter(ticks_of_nanos(d@, old(self).freq as int) as u64),
                ),
            forall|d: Duration|
                #[trigger] is_min_due(old(self).queue@, d) && ticks_of_nanos(
                    d@,
                    old(self).freq as int,
                ) > u64::MAX ==> final(self).armed == old(self).armed && r is None,
            final(self).armed == old(self).armed || (final(self).armed matches Some(d)
                && is_min_due(old(self).queue@, d)),
    {
        match self.peek_next_due_time() {
            None => None,
            Some(min) => {
                match Counter::from_duration(min, self.freq) {
                    Ok(c) => {
                        self.armed = Some(min);
                        proof {
                            assert forall|d: Duration|
                                #[trigger] is_min_due(old(self).queue@, d) implies d == min by {
                                lemma_min_due_unique(old(self).queue@, d, min);
                            }
                        }
                        Some(c)
                    },
                    Err(_) => {
                        proof {
                            assert forall|d: Duration|
                                #[trigger] is_min_due(old(self).queue@, d) implies d == min by {
                                lemma_min_due_unique(old(self).queue@, d, min);
                            }
                        }
                        None
                    },
                }
            },
        }
    }

    /// Appends a timeout due at `now + delay` and re-arms the comparator
    /// model at the minimum due time across all scheduled timeouts — never
    /// specifically at the new one. Returns the comparator value the
    /// caller must program, if the arming changed. Pure in the hardware:
    /// tests and the surrounding binary drive it with an observed `now`.
    pub fn schedule(&mut self, now: Duration, delay: Duration, period: Option<Duration>, callback: C) -> (r:
        Option<Counter>)
        requires
            old(self).wf(),
            now.wf(),
            delay.wf(),
            period matches Some(p) ==> p.wf() && p@ > 0,
        ensures
            final(self).wf(),
            final(self).freq == old(self).freq,
            final(self).queue@ == old(self).queue@.push(
                Timeout { due_time: spec_saturating_add(now, delay), period, callback },
            ),
            forall|d: Duration|
                #[trigger] is_min_due(final(self).queue@, d) && ticks_of_nanos(
                    d@,
                    old(self).freq as int,
                ) <= u64::MAX ==> final(self).armed == Some(d) && r == Some(
                    Counter(ticks_of_nanos(d@, old(self).freq as int) as u64),
                ),
            forall|d: Duration|
                #[trigger] is_min_due(final(self).queue@, d) && ticks_of_nanos(
                    d@,
                    old(self).freq as int,
                ) > u64::MAX ==> final(self).armed == old(self).armed && r is None,
    {
        let due = now.saturating_add(&delay);
        self.queue.push(Timeout { due_time: due, period, callback });
        self.rearm()
    }

    /// Appends a timeout due `delay` from the current uptime and programs
    /// the hardware comparator for the globally nearest deadline.
    pub fn set_timeout(&mut self, delay: Duration, period: Option<Duration>, callback: C)
        requires
            old(self).wf(),
            delay.wf(),
            period matches Some(p) ==> p.wf() && p@ > 0,
        ensures
            final(self).wf(),
            final(self).freq == old(self).freq,
            final(self).queue@.len() == old(self).queue@.len() + 1,
            final(self).queue@.subrange(0, old(self).queue@.len() as int) == old(self).queue@,
            final(self).queue@.last().period == period,
            final(self).queue@.last().callback == callback,
            forall|d: Duration|
                #[trigger] is_min_due(final(self).queue@, d) && ticks_of_nanos(
                    d@,
                    old(self).freq as int,
                ) <= u64::MAX ==> final(self).armed == Some(d),
            forall|d: Duration|
                #[trigger] is_min_due(final(self).queue@, d) && ticks_of_nanos(
                    d@,
                    old(self).freq as int,
                ) > u64::MAX ==> final(self).armed == old(self).armed,
    {
        let now = self.uptime();
        let arm = self.schedule(now, delay, period, callback);
        proof {
            assert(self.queue@.subrange(0, old(self).queue@.len() as int) =~= old(self).queue@);
        }
        match arm {
            Some(c) => {
                comparator_write(c.0);
                comparator_enable();
            },
            None => {},
        }
    }

    /// One service pass: invokes, in queue order, the callback of every
    /// timeout due at `now`, exactly once each; due periodic timeouts are
    /// advanced by their period, due one-shot ones removed. Returns how
    /// many fired.
    pub fn fire_due(&mut self, now: Duration) -> (fired: usize)
        requires
            old(self).wf(),
            now.wf(),
        ensures
            final(self).wf(),
            final(self).freq == old(self).freq,
            final(self).armed == old(self).armed,
            final(self).queue@ == fire_pass(old(self).queue@, now@),
            fired == due_count(old(self).queue@, now@),
    {
        let ghost q0 = self.queue@;
        let initial_len: usize = self.queue.len();
        let mut i: usize = 0;
        let mut fired: usize = 0;
        let ghost mut k: int = 0;
        while i < self.queue.len()
            invariant
                q0 == old(self).queue@,
                q0.len() == initial_len,
                queue_wf(q0),
                now.wf(),
                self.freq == old(self).freq,
                self.armed == old(self).armed,
                1 <= self.freq,
                0 <= k <= q0.len(),
                self.armed matches Some(d) ==> d.wf(),
                self.queue@ == fire_pass(q0.take(k), now@) + q0.skip(k),
                i as int == fire_pass(q0.take(k), now@).len(),
                fired == due_count(q0.take(k), now@),
                fired <= k,
            decreases q0.len() - k,
        {
            proof {
                assert(q0.skip(k)[0] == q0[k]);
                assert(q0[k].wf());
                assert(q0.take(k + 1) =~= q0.take(k) + seq![q0[k]]);
                lemma_fire_pass_append(q0.take(k), seq![q0[k]], now@);
                lemma_fire_pass_single(q0[k], now@);
                lemma_lateness_nonneg(q0.take(k), now@);
            }
            let due = self.queue[i].due_time;
            assert(due == q0[k].due_time);
            if due.le(&now) {
                let mut t = self.queue.remove(i);
                proof {
                    assert(t == q0[k]);
                    assert(self.queue@ =~= fire_pass(q0.take(k), now@) + q0.skip(k + 1));
                }
                t.callback.call();
                fired = fired + 1;
                let is_periodic = match t.period {
                    Some(_) => true,
                    None => false,
                };
                if is_periodic {
                    t.refresh();
                    self.queue.insert(i, t);
                    proof {
                        assert(self.queue@ =~= fire_pass(q0.take(k + 1), now@) + q0.skip(k + 1));
                    }
                    i = i + 1;
                } else {
                    proof {
                        assert(self.queue@ =~= fire_pass(q0.take(k + 1), now@) + q0.skip(k + 1));
                    }
                }
                proof {
                    assert(due_count(seq![q0[k]], now@) == 1);
                    k = k + 1;
                }
            } else {
                proof {
                    assert(self.queue@ =~= fire_pass(q0.take(k + 1), now@) + q0.skip(k + 1));
                    k = k + 1;
                }
                i = i + 1;
            }
        }
        proof {
            assert(k == q0.len());
            assert(q0.take(k) =~= q0);
            assert(q0.skip(k) =~= Seq::<Timeout<C>>::empty());
            assert(self.queue@ =~= fire_pass(q0, now@));
            lemma_fire_pass_wf(q0, now@);
        }
        fired
    }

    /// The catch-up loop: service passes at the observed time `now` until
    /// no due time is at or below it. Bounded because every pass strictly
    /// advances or removes at least one due timeout; the comparator model
    /// is untouched.
    pub fn catch_up(&mut self, now: Duration)
        requires
            old(self).wf(),
            now.wf(),
            now@ < max_duration_nanos(),
        ensures
            final(self).wf(),
            final(self).freq == old(self).freq,
            final(self).armed == old(self).armed,
            final(self).queue@ == settle(old(self).queue@, now@),
            forall|i: int|
                0 <= i < final(self).queue@.len()
                    ==> (#[trigger] final(self).queue@[i]).due_time@ > now@,
    {
        loop
            invariant
                self.wf(),
                now.wf(),
                now@ < max_duration_nanos(),
                self.freq == old(self).freq,
                self.armed == old(self).armed,
                settle(self.queue@, now@) == settle(old(self).queue@, now@),
            ensures
                self.wf(),
                self.freq == old(self).freq,
                self.armed == old(self).armed,
                self.queue@ == settle(old(self).queue@, now@),
                forall|i: int|
                    0 <= i < self.queue@.len() ==> (#[trigger] self.queue@[i]).due_time@ > now@,
            decreases lateness(self.queue@, now@),
        {
            proof {
                lemma_lateness_nonneg(self.queue@, now@);
            }
            match self.peek_next_due_time() {
                None => {
                    proof {
                        lemma_due_count_zero(self.queue@, now@);
                        assert(settle(self.queue@, now@) == self.queue@);
                    }
                    break ;
                },
                Some(min) => {
                    if now.lt(&min) {
                        proof {
                            assert forall|i: int|
                                0 <= i < self.queue@.len() implies (#[trigger] self.queue@[i]).due_time@
                                > now@ by {}
                            lemma_due_count_zero(self.queue@, now@);
                            assert(settle(self.queue@, now@) == self.queue@);
                        }
                        break ;
                    }
                    let ghost preq = self.queue@;
                    proof {
                        let wi = choose|i: int|
                            0 <= i < preq.len() && (#[trigger] preq[i]).due_time == min;
                        lemma_due_count_at_least_one(preq, now@, wi);
                        lemma_fire_pass_lateness(preq, now@);
                    }
                    let _ = self.fire_due(now);
                    proof {
                        lemma_lateness_nonneg(self.queue@, now@);
                        assert(lateness(self.queue@, now@) < lateness(preq, now@));
                        assert(settle(preq, now@) == settle(self.queue@, now@));
                    }
                },
            }
        }
    }

    /// The timer-interrupt service at observed time `now`: fires every due
    /// timeout exactly once (catching up while the minimum stays at or
    /// below `now`), then re-arms the comparator model only if a timeout
    /// remains whose deadline — necessarily in the future — has a
    /// representable tick count. Returns the comparator value to program,
    /// if any.
    pub fn service(&mut self, now: Duration) -> (r: Option<Counter>)
        requires
            old(self).wf(),
            now.wf(),
            now@ < max_duration_nanos(),
        ensures
            final(self).wf(),
            final(self).freq == old(self).freq,
            final(self).queue@ == settle(old(self).queue@, now@),
            forall|i: int|
                0 <= i < final(self).queue@.len()
                    ==> (#[trigger] final(self).queue@[i]).due_time@ > now@,
            final(self).queue@.len() == 0 ==> final(self).armed is None && r is None,
            final(self).armed matches Some(d) ==> d.wf() && d@ > now@ && is_min_due(
                final(self).queue@,
                d,
            ),
            forall|d: Duration|
                #[trigger] is_min_due(final(self).queue@, d) && ticks_of_nanos(
                    d@,
                    old(self).freq as int,
                ) <= u64::MAX ==> final(self).armed == Some(d) && r == Some(
                    Counter(ticks_of_nanos(d@, old(self).freq as int) as u64),
                ),
    {
        self.armed = None;
        self.catch_up(now);
        self.rearm()
    }
}

impl<C: TimeoutCallback> IrqHandler for TimeManager<C> {
    /// The manager's well-formedness is its handler invariant.
    open spec fn inv(&self) -> bool {
        self.wf()
    }

    /// Services the architectural timer interrupt: de-asserts the
    /// comparator condition, fires everything due at the observed uptime,
    /// and programs the comparator for the nearest remaining deadline, if
    /// any. A deadline beyond the counter's range skips the arming, as
    /// documented for conversion failures. There is an observed instant at
    /// which the final queue is the settled old queue, every remaining due
    /// time lies beyond it, and the comparator model holds the minimum.
    fn handle(&mut self) -> (r: Result<(), &'static str>)
        ensures
            r is Ok,
            final(self).freq == old(self).freq,
            exists|now: int|
                0 <= now < max_duration_nanos() && #[trigger] settle(old(self).queue@, now)
                    == final(self).queue@ && (forall|i: int|
                    0 <= i < final(self).queue@.len()
                        ==> (#[trigger] final(self).queue@[i]).due_time@ > now) && (
                final(self).armed matches Some(d) ==> d.wf() && d@ > now && is_min_due(
                    final(self).queue@,
                    d,
                )),
    {
        conclude_timeout_irq();
        let now = self.uptime();
        let arm = self.service(now);
        proof {
            assert(settle(old(self).queue@, now@) == self.queue@);
        }
        match arm {
            Some(c) => {
                comparator_write(c.0);
                comparator_enable();
            },
            None => {},
        }
        Ok(())
    }
}

} // verus!
