//! Wall-clock durations with nanosecond resolution.
//!
//! The kernel schedules timeouts in wall-clock time and converts to hardware
//! ticks only at the comparator. A [`Duration`] is a second count plus a
//! sub-second nanosecond count; its mathematical view is the total number of
//! nanoseconds.

use vstd::prelude::*;

verus! {

/// Nanoseconds in one second.
pub const NANOS_PER_SEC: u32 = 1_000_000_000;

/// A span of wall-clock time: `secs` whole seconds plus `nanos` nanoseconds.
///
/// A well-formed duration keeps `nanos` below one second; every constructor
/// and operation of this module preserves that.
#[derive(Clone, Copy, Debug, PartialEq, Eq, Structural)]
pub struct Duration {
    pub secs: u64,
    pub nanos: u32,
}

impl View for Duration {
    type V = int;

    /// The total number of nanoseconds.
    open spec fn view(&self) -> int {
        self.secs * 1_000_000_000 + self.nanos
    }
}

/// The largest value a well-formed `Duration` can take, in nanoseconds.
pub open spec fn max_duration_nanos() -> int {
    u64::MAX * 1_000_000_000 + 999_999_999
}

/// The well-formed duration whose view is `n` nanoseconds.
pub open spec fn duration_of_nanos(n: int) -> Duration {
    Duration { secs: (n / 1_000_000_000) as u64, nanos: (n % 1_000_000_000) as u32 }
}

/// A well-formed duration is determined by its view: equal nanosecond
/// counts mean equal representations.
pub proof fn lemma_duration_canonical(d: Duration)
    requires
        d.wf(),
    ensures
        d == duration_of_nanos(d@),
        0 <= d@ <= max_duration_nanos(),
{
    vstd::arithmetic::div_mod::lemma_fundamental_div_mod_converse(
        d@,
        1_000_000_000,
        d.secs as int,
        d.nanos as int,
    );
}

/// The saturating sum of two well-formed durations is well-formed, and
/// exact whenever it does not saturate.
pub proof fn lemma_saturating_add_wf(a: Duration, b: Duration)
    requires
        a.wf(),
        b.wf(),
    ensures
        spec_saturating_add(a, b).wf(),
        a@ + b@ <= max_duration_nanos() ==> spec_saturating_add(a, b)@ == a@ + b@,
        a@ + b@ > max_duration_nanos() ==> spec_saturating_add(a, b)@ == max_duration_nanos(),
{
    let n = a@ + b@;
    if n <= max_duration_nanos() {
        vstd::arithmetic::div_mod::lemma_fundamental_div_mod(n, 1_000_000_000);
        vstd::arithmetic::div_mod::lemma_mod_bound(n, 1_000_000_000);
        vstd::arithmetic::div_mod::lemma_div_is_ordered(
            n,
            max_duration_nanos(),
            1_000_000_000,
        );
    }
}

/// The saturating sum of two durations, as a value.
pub open spec fn spec_saturating_add(a: Duration, b: Duration) -> Duration {
    if a@ + b@ <= max_duration_nanos() {
        duration_of_nanos(a@ + b@)
    } else {
        Duration { secs: u64::MAX, nanos: 999_999_999 }
    }
}

impl Duration {
    /// The sub-second part stays below one second.
    pub open spec fn wf(&self) -> bool {
        self.nanos < 1_000_000_000
    }

    /// The zero-length duration.
    pub fn zero() -> (d: Duration)
        ensures
            d@ == 0,
            d.wf(),
    {
        Duration { secs: 0, nanos: 0 }
    }

    /// A duration of `secs` seconds and `nanos` nanoseconds.
    pub fn new(secs: u64, nanos: u32) -> (d: Duration)
        requires
            nanos < 1_000_000_000,
        ensures
            d.secs == secs,
            d.nanos == nanos,
            d@ == secs * 1_000_000_000 + nanos,
            d.wf(),
    {
        Duration { secs, nanos }
    }

    /// A duration of `secs` whole seconds.
    pub fn from_secs(secs: u64) -> (d: Duration)
        ensures
            d@ == secs * 1_000_000_000,
            d.wf(),
    {
        Duration { secs, nanos: 0 }
    }

    /// A duration of `millis` milliseconds.
    pub fn from_millis(millis: u64) -> (d: Duration)
        ensures
            d@ == millis * 1_000_000,
            d.wf(),
    {
        let secs: u64 = millis / 1000;
        let rem: u64 = millis % 1000;
        let nanos: u32 = (rem as u32) * 1_000_000;
        Duration { secs, nanos }
    }

    /// A duration of `micros` microseconds.
    pub fn from_micros(micros: u64) -> (d: Duration)
        ensures
            d@ == micros * 1000,
            d.wf(),
    {
        let secs: u64 = micros / 1_000_000;
        let rem: u64 = micros % 1_000_000;
        let nanos: u32 = (rem as u32) * 1000;
        Duration { secs, nanos }
    }

    /// A duration of `nanos` nanoseconds.
    pub fn from_nanos(nanos: u64) -> (d: Duration)
        ensures
            d@ == nanos,
            d.wf(),
    {
        let secs: u64 = nanos / 1_000_000_000;
        let rem: u64 = nanos % 1_000_000_000;
        Duration { secs, nanos: rem as u32 }
    }

    /// The total number of nanoseconds.
    pub fn as_nanos(&self) -> (r: u128)
        ensures
            r == self@,
    {
        self.secs as u128 * 1_000_000_000 + self.nanos as u128
    }

    /// Whether the duration is zero.
    pub fn is_zero(&self) -> (r: bool)
        ensures
            r == (self@ == 0),
    {
        self.secs == 0 && self.nanos == 0
    }

    /// Strict comparison: `self` is shorter than `other`.
    pub fn lt(&self, other: &Duration) -> (r: bool)
        requires
            self.wf(),
            other.wf(),
        ensures
            r == (self@ < other@),
    {
        self.secs < other.secs || (self.secs == other.secs && self.nanos < other.nanos)
    }

    /// Non-strict comparison: `self` is no longer than `other`.
    pub fn le(&self, other: &Duration) -> (r: bool)
        requires
            self.wf(),
            other.wf(),
        ensures
            r == (self@ <= other@),
    {
        self.secs < other.secs || (self.secs == other.secs && self.nanos <= other.nanos)
    }

    /// The sum of two durations, or `None` when it does not fit.
    pub fn checked_add(&self, other: &Duration) -> (r: Option<Duration>)
        requires
            self.wf(),
            other.wf(),
        ensures
            self@ + other@ <= max_duration_nanos() ==> (r matches Some(d) && d@ == self@
                + other@ && d.wf()),
            self@ + other@ > max_duration_nanos() ==> r is None,
    {
        let mut nanos: u32 = self.nanos + other.nanos;
        let mut carry: u64 = 0;
        if nanos >= 1_000_000_000 {
            nanos = nanos - 1_000_000_000;
            carry = 1;
        }
        match self.secs.checked_add(other.secs) {
            None => None,
            Some(s) => match s.checked_add(carry) {
                None => None,
                Some(secs) => Some(Duration { secs, nanos }),
            },
        }
    }

    /// The sum of two durations, saturating at the largest representable one.
    pub fn saturating_add(&self, other: &Duration) -> (r: Duration)
        requires
            self.wf(),
            other.wf(),
        ensures
            self@ + other@ <= max_duration_nanos() ==> r@ == self@ + other@,
            self@ + other@ > max_duration_nanos() ==> r@ == max_duration_nanos(),
            r.wf(),
            r == spec_saturating_add(*self, *other),
    {
        let r = match self.checked_add(other) {
            Some(d) => d,
            None => Duration { secs: u64::MAX, nanos: 999_999_999 },
        };
        proof {
            lemma_duration_canonical(r);
        }
        r
    }
}

} // verus!
