//! Signal filters over fixed-point `u32` amplitudes.

use vstd::prelude::*;

verus! {

/// A stateful filter with a cutoff, a resonance peak, and an attenuation
/// level, fed one sample at a time.
pub trait Filter {
    /// The filter's current cutoff.
    spec fn spec_cutoff(&self) -> u32;

    /// The filter's current resonance peak.
    spec fn spec_peak(&self) -> u32;

    /// The filter's current attenuation level.
    spec fn spec_att_level(&self) -> u32;

    /// What the filter does to one sample.
    spec fn spec_feed(&self, sig: u32) -> u32;

    /// Feeds one sample through.
    fn feed(&self, sig: u32) -> (r: u32)
        ensures
            r == self.spec_feed(sig),
    ;

    /// Sets the cutoff, leaving the other parameters unchanged.
    fn set_cutoff(&mut self, cutoff: u32)
        ensures
            final(self).spec_cutoff() == cutoff,
            final(self).spec_peak() == old(self).spec_peak(),
            final(self).spec_att_level() == old(self).spec_att_level(),
    ;

    /// The current cutoff.
    fn get_cutoff(&self) -> (r: u32)
        ensures
            r == self.spec_cutoff(),
    ;

    /// Sets the resonance peak, leaving the other parameters unchanged.
    fn set_peak(&mut self, peak: u32)
        ensures
            final(self).spec_peak() == peak,
            final(self).spec_cutoff() == old(self).spec_cutoff(),
            final(self).spec_att_level() == old(self).spec_att_level(),
    ;

    /// The current resonance peak.
    fn get_peak(&self) -> (r: u32)
        ensures
            r == self.spec_peak(),
    ;

    /// Sets the attenuation level, leaving the other parameters unchanged.
    fn set_att_level(&mut self, lvl: u32)
        ensures
            final(self).spec_att_level() == lvl,
            final(self).spec_cutoff() == old(self).spec_cutoff(),
            final(self).spec_peak() == old(self).spec_peak(),
    ;

    /// The current attenuation level.
    fn get_att_level(&self) -> (r: u32)
        ensures
            r == self.spec_att_level(),
    ;
}

/// A low-pass filter over amplitudes: a sample is clamped at the cutoff
/// level. The peak and attenuation parameters are carried for the richer
/// response curve; the clamp is the behaviour modelled so far.
#[derive(Clone, Copy, Debug, PartialEq, Eq, Structural)]
pub struct LowPassFilter {
    pub cutoff: u32,
    pub peak: u32,
    pub level: u32,
}

impl LowPassFilter {
    /// A wide-open filter: nothing is clamped.
    pub fn new() -> (f: LowPassFilter)
        ensures
            f.cutoff == u32::MAX,
            f.peak == 0,
            f.level == 0,
    {
        LowPassFilter { cutoff: u32::MAX, peak: 0, level: 0 }
    }
}

impl Filter for LowPassFilter {
    open spec fn spec_cutoff(&self) -> u32 {
        self.cutoff
    }

    open spec fn spec_peak(&self) -> u32 {
        self.peak
    }

    open spec fn spec_att_level(&self) -> u32 {
        self.level
    }

    /// Clamp at the cutoff.
    open spec fn spec_feed(&self, sig: u32) -> u32 {
        if sig > self.cutoff {
            self.cutoff
        } else {
            sig
        }
    }

    fn feed(&self, sig: u32) -> u32 {
        if sig > self.cutoff {
            self.cutoff
        } else {
            sig
        }
    }

    fn set_cutoff(&mut self, cutoff: u32) {
        self.cutoff = cutoff;
    }

    fn get_cutoff(&self) -> u32 {
        self.cutoff
    }

    fn set_peak(&mut self, peak: u32) {
        self.peak = peak;
    }

    fn get_peak(&self) -> u32 {
        self.peak
    }

    fn set_att_level(&mut self, lvl: u32) {
        self.level = lvl;
    }

    fn get_att_level(&self) -> u32 {
        self.level
    }
}

} // verus!
