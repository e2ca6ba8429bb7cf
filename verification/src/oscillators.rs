//! Integer-arithmetic oscillators.
//!
//! Everything is fixed-point over `u32`: a tick count of `u32::MIN` is the
//! start of a wave period and `u32::MAX` its end, and a produced signal of
//! `u32::MIN` / `u32::MAX` is the signal's minimum / maximum. Amplitudes
//! are scaled by 32-bit gains (`u32::MAX` meaning unity).

use vstd::prelude::*;

verus! {

/// A producer of one sample per tick of the sample clock.
pub trait SoundSource {
    /// The signal value this source produces at `count`.
    spec fn spec_tick(&self, count: u32) -> u32;

    /// Tick at every iteration of the sample rate; returns the signal
    /// value at `count`.
    fn tick(&self, count: u32) -> (r: u32)
        ensures
            r == self.spec_tick(count),
    ;
}

/// The raw shape of a wave over one period.
#[derive(Clone, Copy, Debug, PartialEq, Eq, Structural)]
pub enum WaveShape {
    /// Approximated by a triangle wave: up for the first half period, down
    /// for the second.
    Sinus,
    /// Low for the first half period, high for the second.
    Square,
    /// The period position itself.
    Saw,
    /// A deterministic xorshift scramble of the period position.
    Noise,
}

/// The raw wave value of `shape` at period position `pc`, ranging from
/// `u32::MIN` to `u32::MAX`.
pub open spec fn spec_wave_value(shape: WaveShape, pc: u32) -> u32 {
    match shape {
        WaveShape::Sinus => if pc < 0x8000_0000 {
            (pc * 2) as u32
        } else {
            ((u32::MAX - pc) * 2) as u32
        },
        WaveShape::Square => if pc < 0x8000_0000 {
            0
        } else {
            u32::MAX
        },
        WaveShape::Saw => pc,
        WaveShape::Noise => {
            let x1 = pc ^ (pc << 13);
            let x2 = x1 ^ (x1 >> 17);
            x2 ^ (x2 << 5)
        },
    }
}

impl WaveShape {
    /// The raw wave value at `count`, offset by `phase` (where `u32::MAX`
    /// stands for a full turn), wrapping around the period.
    pub fn tick(&self, count: u32, phase: u32) -> (r: u32)
        ensures
            r == spec_wave_value(*self, count.wrapping_add(phase)),
    {
        let pc: u32 = count.wrapping_add(phase);
        match *self {
            WaveShape::Sinus => {
                if pc < 0x8000_0000 {
                    pc * 2
                } else {
                    (u32::MAX - pc) * 2
                }
            },
            WaveShape::Square => {
                if pc < 0x8000_0000 {
                    0
                } else {
                    u32::MAX
                }
            },
            WaveShape::Saw => pc,
            WaveShape::Noise => {
                let x1: u32 = pc ^ (pc << 13u32);
                let x2: u32 = x1 ^ (x1 >> 17u32);
                x2 ^ (x2 << 5u32)
            },
        }
    }
}

/// `value` attenuated by `gain`, with `u32::MAX` as unity.
pub open spec fn spec_scale_amplitude(value: u32, gain: u32) -> u32 {
    (value * gain / 0xFFFF_FFFF) as u32
}

/// Attenuates `value` by `gain` (unity at `u32::MAX`).
pub fn scale_amplitude(value: u32, gain: u32) -> (r: u32)
    ensures
        r == spec_scale_amplitude(value, gain),
{
    proof {
        assert(value * gain / 0xFFFF_FFFF <= 0xFFFF_FFFF) by (nonlinear_arith)
            requires
                0 <= value <= 0xFFFF_FFFF,
                0 <= gain,
        ;
    }
    let wide: u64 = (value as u64) * (gain as u64);
    (wide / 0xFFFF_FFFFu64) as u32
}

/// An attack / decay / sustain / release envelope. The stage parameters
/// are carried; the envelope shaping itself is not modelled yet, so
/// feeding a signal through leaves it unchanged.
#[derive(Clone, Copy, Debug, PartialEq, Eq, Structural)]
pub struct AdsrHandler {
    pub attack: u32,
    pub decay: u32,
    pub sustain: u32,
    pub release: u32,
}

impl AdsrHandler {
    /// Feeds a signal through the envelope; with no shaping modelled, the
    /// signal passes unchanged.
    pub fn feed(&self, sig: &mut u32)
        ensures
            *final(sig) == *old(sig),
    {
    }
}

/// One oscillator: a shape, optionally mirrored in time, with a phase
/// offset, an envelope, and an output volume.
#[derive(Clone, Copy, Debug, PartialEq, Eq, Structural)]
pub struct Oscillator {
    pub shape: WaveShape,
    pub reversed_shape: bool,
    /// Phase offset: `u32::MAX` stands for a full turn.
    pub phase: u32,
    pub adsr: AdsrHandler,
    /// Output volume, unity at `u32::MAX`.
    pub volume: u32,
}

impl Default for Oscillator {
    /// A plain full-volume sine oscillator with no offset.
    fn default() -> (o: Oscillator)
        ensures
            o.shape == WaveShape::Sinus,
            !o.reversed_shape,
            o.phase == 0,
            o.adsr == (AdsrHandler { attack: 0, decay: 0, sustain: u32::MAX, release: 0 }),
            o.volume == u32::MAX,
    {
        Oscillator {
            shape: WaveShape::Sinus,
            reversed_shape: false,
            phase: 0,
            adsr: AdsrHandler { attack: 0, decay: 0, sustain: u32::MAX, release: 0 },
            volume: u32::MAX,
        }
    }
}

impl SoundSource for Oscillator {
    /// The wave value (mirrored when `reversed_shape`), enveloped, then
    /// attenuated by the oscillator's volume.
    open spec fn spec_tick(&self, count: u32) -> u32 {
        let c = if self.reversed_shape {
            (u32::MAX - count) as u32
        } else {
            count
        };
        spec_scale_amplitude(spec_wave_value(self.shape, c.wrapping_add(self.phase)), self.volume)
    }

    fn tick(&self, count: u32) -> u32 {
        let c: u32 = if self.reversed_shape {
            u32::MAX - count
        } else {
            count
        };
        let mut sig: u32 = self.shape.tick(c, self.phase);
        self.adsr.feed(&mut sig);
        scale_amplitude(sig, self.volume)
    }
}

/// The wrapping sum of the first `n` oscillators' signals at `count`.
pub open spec fn spec_mix_sum(oscs: Seq<Oscillator>, n: int, count: u32) -> u32
    decreases n,
{
    if n <= 0 {
        0
    } else {
        spec_mix_sum(oscs, n - 1, count).wrapping_add(oscs[n - 1].spec_tick(count))
    }
}

/// A set of oscillators mixed by wrapping addition of their signals.
pub struct OscillatorMix(pub Vec<Oscillator>);

impl OscillatorMix {
    /// Gives every oscillator an equal share of the full volume.
    pub fn even_volume(&mut self)
        requires
            old(self).0@.len() >= 1,
        ensures
            final(self).0@.len() == old(self).0@.len(),
            forall|i: int|
                0 <= i < old(self).0@.len() ==> #[trigger] final(self).0@[i] == (Oscillator {
                    volume: (0xFFFF_FFFFu64 / (old(self).0@.len() as u64)) as u32,
                    ..old(self).0@[i]
                }),
    {
        let n: usize = self.0.len();
        let volume: u32 = (0xFFFF_FFFFu64 / (n as u64)) as u32;
        let mut i: usize = 0;
        while i < n
            invariant
                self.0@.len() == n == old(self).0@.len(),
                1 <= n,
                volume == (0xFFFF_FFFFu64 / (n as u64)) as u32,
                i <= n,
                forall|j: int|
                    0 <= j < i ==> #[trigger] self.0@[j] == (Oscillator {
                        volume,
                        ..old(self).0@[j]
                    }),
                forall|j: int| i <= j < n ==> #[trigger] self.0@[j] == old(self).0@[j],
            decreases n - i,
        {
            let mut o: Oscillator = self.0[i];
            o.volume = volume;
            self.0.set(i, o);
            i = i + 1;
        }
    }
}

impl SoundSource for OscillatorMix {
    /// The wrapping sum of all members' signals.
    open spec fn spec_tick(&self, count: u32) -> u32 {
        spec_mix_sum(self.0@, self.0@.len() as int, count)
    }

    fn tick(&self, count: u32) -> u32 {
        let mut acc: u32 = 0;
        let mut i: usize = 0;
        while i < self.0.len()
            invariant
                i <= self.0@.len(),
                acc == spec_mix_sum(self.0@, i as int, count),
            decreases self.0@.len() - i,
        {
            let s: u32 = self.0[i].tick(count);
            acc = acc.wrapping_add(s);
            i = i + 1;
        }
        acc
    }
}

} // verus!
