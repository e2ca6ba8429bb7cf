//! The playable instrument: a bank of oscillators with optional
//! per-oscillator filters, envelopes, and stereo balance, mixed into one
//! stereo sample per tick.

use vstd::prelude::*;

use crate::filters::Filter;
use crate::filters::LowPassFilter;
use crate::oscillators::AdsrHandler;
use crate::oscillators::Oscillator;
use crate::oscillators::SoundSource;
use crate::oscillators::WaveShape;
use crate::oscillators::scale_amplitude;
use crate::oscillators::spec_scale_amplitude;

verus! {

/// The gain of the left channel for a balance value: full at
/// `i32::MIN` (hard left), zero at `i32::MAX` (hard right).
pub open spec fn spec_left_gain(b: i32) -> u32 {
    (i32::MAX - b) as u32
}

/// The gain of the right channel for a balance value: zero at `i32::MIN`,
/// full at `i32::MAX`.
pub open spec fn spec_right_gain(b: i32) -> u32 {
    (b - i32::MIN) as u32
}

/// The left-channel gain of a balance value.
pub fn left_gain(b: i32) -> (r: u32)
    ensures
        r == spec_left_gain(b),
{
    ((i32::MAX as i64) - (b as i64)) as u32
}

/// The right-channel gain of a balance value.
pub fn right_gain(b: i32) -> (r: u32)
    ensures
        r == spec_right_gain(b),
{
    ((b as i64) - (i32::MIN as i64)) as u32
}

/// One instrument: oscillators in a bank, each with an optional filter,
/// optional oscillator and filter envelopes, and an optional stereo
/// balance, all indexed alike; plus the key state and the period counter.
pub struct Instrument {
    pub oscillators: Vec<Oscillator>,
    pub filters: Vec<Option<LowPassFilter>>,
    pub osc_adsr: Vec<Option<AdsrHandler>>,
    pub flt_adsr: Vec<Option<AdsrHandler>>,
    pub balance: Vec<Option<i32>>,
    /// Whether the key is held.
    pub pressed: bool,
    /// The velocity of the current press, while held.
    pub velocity: Option<u32>,
    /// How far the period counter advances per sample tick.
    pub count_incr: u32,
    /// The position within the wave period.
    pub count: u32,
}

impl Instrument {
    /// The per-oscillator tables all have one row per oscillator.
    pub open spec fn wf(&self) -> bool {
        &&& self.filters@.len() == self.oscillators@.len()
        &&& self.osc_adsr@.len() == self.oscillators@.len()
        &&& self.flt_adsr@.len() == self.oscillators@.len()
        &&& self.balance@.len() == self.oscillators@.len()
    }

    /// An empty, silent instrument.
    pub fn new() -> (ins: Instrument)
        ensures
            ins.wf(),
            ins.oscillators@.len() == 0,
            !ins.pressed,
            ins.velocity is None,
            ins.count_incr == 0,
            ins.count == 0,
    {
        Instrument {
            oscillators: Vec::new(),
            filters: Vec::new(),
            osc_adsr: Vec::new(),
            flt_adsr: Vec::new(),
            balance: Vec::new(),
            pressed: false,
            velocity: None,
            count_incr: 0,
            count: 0,
        }
    }

    /// Presses the key: restarts the period at a rate of `tick_per_period`
    /// sample ticks per wave period and records the velocity.
    pub fn press(&mut self, velocity: u32, tick_per_period: u32)
        requires
            1 <= tick_per_period,
        ensures
            final(self).pressed,
            final(self).count == 0,
            final(self).count_incr == u32::MAX as int / tick_per_period as int,
            final(self).velocity == Some(velocity),
            final(self).oscillators@ == old(self).oscillators@,
            final(self).filters@ == old(self).filters@,
            final(self).osc_adsr@ == old(self).osc_adsr@,
            final(self).flt_adsr@ == old(self).flt_adsr@,
            final(self).balance@ == old(self).balance@,
    {
        self.pressed = true;
        self.count = 0;
        self.count_incr = u32::MAX / tick_per_period;
        self.velocity = Some(velocity);
    }

    /// Releases the key.
    pub fn release(&mut self)
        ensures
            !final(self).pressed,
            final(self).velocity is None,
            final(self).oscillators@ == old(self).oscillators@,
            final(self).filters@ == old(self).filters@,
            final(self).osc_adsr@ == old(self).osc_adsr@,
            final(self).flt_adsr@ == old(self).flt_adsr@,
            final(self).balance@ == old(self).balance@,
            final(self).count == old(self).count,
            final(self).count_incr == old(self).count_incr,
    {
        self.pressed = false;
        self.velocity = None;
    }

    /// Appends a fresh default oscillator with empty filter, envelope, and
    /// balance rows.
    pub fn add_oscillator(&mut self)
        requires
            old(self).wf(),
        ensures
            final(self).wf(),
            final(self).oscillators@.len() == old(self).oscillators@.len() + 1,
            final(self).oscillators@.subrange(0, old(self).oscillators@.len() as int) == old(
                self,
            ).oscillators@,
            final(self).oscillators@.last() == (Oscillator {
                shape: WaveShape::Sinus,
                reversed_shape: false,
                phase: 0,
                adsr: AdsrHandler { attack: 0, decay: 0, sustain: u32::MAX, release: 0 },
                volume: u32::MAX,
            }),
            final(self).filters@ == old(self).filters@.push(None),
            final(self).osc_adsr@ == old(self).osc_adsr@.push(None),
            final(self).flt_adsr@ == old(self).flt_adsr@.push(None),
            final(self).balance@ == old(self).balance@.push(None),
            final(self).pressed == old(self).pressed,
            final(self).velocity == old(self).velocity,
            final(self).count == old(self).count,
            final(self).count_incr == old(self).count_incr,
    {
        self.oscillators.push(Oscillator::default());
        self.filters.push(None);
        self.osc_adsr.push(None);
        self.flt_adsr.push(None);
        self.balance.push(None);
        proof {
            assert(self.oscillators@.subrange(0, old(self).oscillators@.len() as int) =~= old(
                self,
            ).oscillators@);
        }
    }

    /// Attaches (or replaces) the filter of oscillator `osc_idx`.
    pub fn add_filter(&mut self, osc_idx: usize, filter: LowPassFilter)
        requires
            old(self).wf(),
            osc_idx < old(self).oscillators@.len(),
        ensures
            final(self).wf(),
            final(self).filters@ == old(self).filters@.update(osc_idx as int, Some(filter)),
            final(self).oscillators@ == old(self).oscillators@,
            final(self).osc_adsr@ == old(self).osc_adsr@,
            final(self).flt_adsr@ == old(self).flt_adsr@,
            final(self).balance@ == old(self).balance@,
    {
        self.filters.set(osc_idx, Some(filter));
    }

    /// Attaches (or replaces) the envelope of oscillator `osc_idx`.
    pub fn add_osc_adsr(&mut self, osc_idx: usize, adsr: AdsrHandler)
        requires
            old(self).wf(),
            osc_idx < old(self).oscillators@.len(),
        ensures
            final(self).wf(),
            final(self).osc_adsr@ == old(self).osc_adsr@.update(osc_idx as int, Some(adsr)),
            final(self).oscillators@ == old(self).oscillators@,
            final(self).filters@ == old(self).filters@,
            final(self).flt_adsr@ == old(self).flt_adsr@,
            final(self).balance@ == old(self).balance@,
    {
        self.osc_adsr.set(osc_idx, Some(adsr));
    }

    /// Attaches (or replaces) the filter envelope of oscillator `osc_idx`;
    /// the oscillator must already carry a filter.
    pub fn add_flt_adsr(&mut self, osc_idx: usize, adsr: AdsrHandler)
        requires
            old(self).wf(),
            osc_idx < old(self).oscillators@.len(),
            old(self).filters@[osc_idx as int] is Some,
        ensures
            final(self).wf(),
            final(self).flt_adsr@ == old(self).flt_adsr@.update(osc_idx as int, Some(adsr)),
            final(self).oscillators@ == old(self).oscillators@,
            final(self).filters@ == old(self).filters@,
            final(self).osc_adsr@ == old(self).osc_adsr@,
            final(self).balance@ == old(self).balance@,
    {
        self.flt_adsr.set(osc_idx, Some(adsr));
    }

    /// Sets the stereo balance of oscillator `osc_idx`: `i32::MIN` hard
    /// left, `i32::MAX` hard right.
    pub fn set_osc_balance(&mut self, osc_idx: usize, balance: i32)
        requires
            old(self).wf(),
            osc_idx < old(self).oscillators@.len(),
        ensures
            final(self).wf(),
            final(self).balance@ == old(self).balance@.update(osc_idx as int, Some(balance)),
            final(self).oscillators@ == old(self).oscillators@,
            final(self).filters@ == old(self).filters@,
            final(self).osc_adsr@ == old(self).osc_adsr@,
            final(self).flt_adsr@ == old(self).flt_adsr@,
    {
        self.balance.set(osc_idx, Some(balance));
    }

    /// Oscillator `n`'s contribution to one channel: its signal, balanced
    /// towards the channel, enveloped, and fed through its filter.
    pub open spec fn spec_tick_nb(&self, n: int, count: u32, isleft: bool) -> u32 {
        let sig0 = self.oscillators@[n].spec_tick(count);
        let sig1 = match self.balance@[n] {
            Some(b) => spec_scale_amplitude(
                sig0,
                if isleft {
                    spec_left_gain(b)
                } else {
                    spec_right_gain(b)
                },
            ),
            None => sig0,
        };
        match self.filters@[n] {
            Some(f) => f.spec_feed(sig1),
            None => sig1,
        }
    }

    /// Computes oscillator `n`'s contribution to one channel. The filter
    /// cutoff passes through its envelope before filtering; with no
    /// envelope shaping modelled, the instrument's state is unchanged.
    pub fn tick_nb(&mut self, n: usize, count: u32, isleft: bool) -> (r: u32)
        requires
            old(self).wf(),
            n < old(self).oscillators@.len(),
        ensures
            final(self).wf(),
            final(self).oscillators@ == old(self).oscillators@,
            final(self).filters@ == old(self).filters@,
            final(self).osc_adsr@ == old(self).osc_adsr@,
            final(self).flt_adsr@ == old(self).flt_adsr@,
            final(self).balance@ == old(self).balance@,
            final(self).pressed == old(self).pressed,
            final(self).velocity == old(self).velocity,
            final(self).count == old(self).count,
            final(self).count_incr == old(self).count_incr,
            r == old(self).spec_tick_nb(n as int, count, isleft),
    {
        let o: Oscillator = self.oscillators[n];
        let mut sig: u32 = o.tick(count);
        match self.balance[n] {
            Some(b) => {
                let gain: u32 = if isleft {
                    left_gain(b)
                } else {
                    right_gain(b)
                };
                sig = scale_amplitude(sig, gain);
            },
            None => {},
        }
        match self.osc_adsr[n] {
            Some(a) => {
                a.feed(&mut sig);
            },
            None => {},
        }
        match self.filters[n] {
            Some(f) => {
                let mut f2: LowPassFilter = f;
                match self.flt_adsr[n] {
                    Some(fa) => {
                        let mut cutoff: u32 = f2.get_cutoff();
                        fa.feed(&mut cutoff);
                        f2.set_cutoff(cutoff);
                        self.filters.set(n, Some(f2));
                        proof {
                            assert(self.filters@ =~= old(self).filters@);
                        }
                    },
                    None => {},
                }
                sig = f2.feed(sig);
            },
            None => {},
        }
        sig
    }

    /// Post-mix effects; none are modelled, the pair passes unchanged.
    pub fn apply_fx(&self, sigl: u32, sigr: u32) -> (r: (u32, u32))
        ensures
            r == (sigl, sigr),
    {
        (sigl, sigr)
    }

    /// The wrapping mix of the first `n` oscillators' contributions to one
    /// channel.
    pub open spec fn spec_mix_channel(&self, n: int, count: u32, isleft: bool) -> u32
        decreases n,
    {
        if n <= 0 {
            0
        } else {
            self.spec_mix_channel(n - 1, count, isleft).wrapping_add(
                self.spec_tick_nb(n - 1, count, isleft),
            )
        }
    }

    /// Produces one stereo sample: every oscillator's contribution mixed
    /// per channel by wrapping addition, then the period counter advanced
    /// by its increment (wrapping at the period end).
    pub fn tick(&mut self) -> (out: (u32, u32))
        requires
            old(self).wf(),
        ensures
            final(self).wf(),
            out.0 == old(self).spec_mix_channel(
                old(self).oscillators@.len() as int,
                old(self).count,
                true,
            ),
            out.1 == old(self).spec_mix_channel(
                old(self).oscillators@.len() as int,
                old(self).count,
                false,
            ),
            final(self).count == old(self).count.wrapping_add(old(self).count_incr),
            final(self).oscillators@ == old(self).oscillators@,
            final(self).filters@ == old(self).filters@,
            final(self).osc_adsr@ == old(self).osc_adsr@,
            final(self).flt_adsr@ == old(self).flt_adsr@,
            final(self).balance@ == old(self).balance@,
            final(self).pressed == old(self).pressed,
            final(self).velocity == old(self).velocity,
            final(self).count_incr == old(self).count_incr,
    {
        let mut resl: u32 = 0;
        let mut resr: u32 = 0;
        let len: usize = self.oscillators.len();
        let c: u32 = self.count;
        let mut n: usize = 0;
        while n < len
            invariant
                self.wf(),
                len == self.oscillators@.len(),
                c == self.count,
                n <= len,
                self.oscillators@ == old(self).oscillators@,
                self.filters@ == old(self).filters@,
                self.osc_adsr@ == old(self).osc_adsr@,
                self.flt_adsr@ == old(self).flt_adsr@,
                self.balance@ == old(self).balance@,
                self.pressed == old(self).pressed,
                self.velocity == old(self).velocity,
                self.count == old(self).count,
                self.count_incr == old(self).count_incr,
                resl == old(self).spec_mix_channel(n as int, c, true),
                resr == old(self).spec_mix_channel(n as int, c, false),
            decreases len - n,
        {
            let l: u32 = self.tick_nb(n, c, true);
            resl = resl.wrapping_add(l);
            let r: u32 = self.tick_nb(n, c, false);
            resr = resr.wrapping_add(r);
            proof {
                assert(old(self).spec_tick_nb(n as int, c, true) == self.spec_tick_nb(
                    n as int,
                    c,
                    true,
                ));
            }
            n = n + 1;
        }
        self.count = self.count.wrapping_add(self.count_incr);
        self.apply_fx(resl, resr)
    }
}

} // verus!
