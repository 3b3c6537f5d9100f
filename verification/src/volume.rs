//! The volume of the playback engine.
//!
//! Volume is an attenuation in steps: the loudest step leaves a sample as it is,
//! and each step below it halves the amplitude, which the hardware does by
//! shifting the sample one bit to the right.

use std::ops::AddAssign;
use std::ops::SubAssign;
use vstd::prelude::*;

verus! {

/// The loudest volume step.
pub const MAX_VOLUME: u8 = 15;

/// The volume step of a session that has no saved volume.
pub const DEFAULT_VOLUME: u8 = 11;

/// A volume step between 0 and `MAX_VOLUME`.
#[derive(Clone, Copy, Debug, PartialEq, Eq, Structural)]
pub struct Volume {
    amt: u8,
}

/// The step reached from `level` by `steps` steps up, stopping at the loudest.
pub open spec fn raised(level: nat, steps: nat) -> nat {
    if level + steps <= MAX_VOLUME {
        level + steps
    } else {
        MAX_VOLUME as nat
    }
}

/// The step reached from `level` by `steps` steps down, stopping at zero.
pub open spec fn lowered(level: nat, steps: nat) -> nat {
    if steps <= level {
        (level - steps) as nat
    } else {
        0
    }
}

/// A sample attenuated to the volume step `level`.
pub open spec fn attenuated(level: nat, sample: i16) -> i16
    recommends
        level <= MAX_VOLUME,
{
    sample >> ((MAX_VOLUME - level) as u8)
}

impl Volume {
    #[verifier::type_invariant]
    pub closed spec fn wf(self) -> bool {
        self.amt <= MAX_VOLUME
    }

    /// The volume step as a number.
    pub closed spec fn level(self) -> nat {
        self.amt as nat
    }

    /// The volume at step `amt`.
    pub fn new(amt: u8) -> (v: Volume)
        requires
            amt <= MAX_VOLUME,
        ensures
            v.level() == amt,
    {
        Volume { amt }
    }

    /// The volume step, which is never above `MAX_VOLUME`.
    pub fn amount(&self) -> (a: u8)
        ensures
            a == self.level(),
            a <= MAX_VOLUME,
    {
        proof {
            use_type_invariant(self);
        }
        self.amt
    }

    /// Attenuates one sample to this volume.
    pub fn apply(&self, sample: i16) -> (out: i16)
        ensures
            out == attenuated(self.level(), sample),
    {
        proof {
            use_type_invariant(self);
        }
        sample >> (MAX_VOLUME - self.amt)
    }
}

impl Default for Volume {
    fn default() -> (v: Volume)
        ensures
            v.level() == DEFAULT_VOLUME,
    {
        Volume { amt: DEFAULT_VOLUME }
    }
}

impl AddAssign<u8> for Volume {
    /// Raises the volume by `steps`, stopping at the loudest step.
    fn add_assign(&mut self, steps: u8)
        ensures
            final(self).level() == raised(old(self).level(), steps as nat),
    {
        proof {
            use_type_invariant(&*self);
        }
        if steps <= MAX_VOLUME - self.amt {
            self.amt = self.amt + steps;
        } else {
            self.amt = MAX_VOLUME;
        }
    }
}

impl SubAssign<u8> for Volume {
    /// Lowers the volume by `steps`, stopping at zero.
    fn sub_assign(&mut self, steps: u8)
        ensures
            final(self).level() == lowered(old(self).level(), steps as nat),
    {
        proof {
            use_type_invariant(&*self);
        }
        if steps <= self.amt {
            self.amt = self.amt - steps;
        } else {
            self.amt = 0;
        }
    }
}

/// At the loudest step a sample passes unchanged.
pub proof fn lemma_full_volume_is_identity(sample: i16)
    ensures
        attenuated(MAX_VOLUME as nat, sample) == sample,
{
    assert(sample >> 0u8 == sample) by (bit_vector);
}

/// One step down halves the amplitude, rounding towards negative infinity.
pub proof fn lemma_step_down_halves(level: nat, sample: i16)
    requires
        level < MAX_VOLUME,
    ensures
        attenuated(level, sample) == attenuated(level + 1, sample) / 2,
{
    let k: u8 = (MAX_VOLUME - (level + 1)) as u8;
    let louder: i16 = sample >> k;
    assert(k < 15 ==> sample >> ((k + 1) as u8) == (sample >> k) >> 1u8) by (bit_vector);
    assert((louder >> 1u8) == louder / 2) by (bit_vector);
    assert(((MAX_VOLUME - level) as u8) == ((k + 1) as u8));
}

/// Attenuation never raises the magnitude of a sample, and keeps its sign.
pub proof fn lemma_attenuation_bounds(level: nat, sample: i16)
    requires
        level <= MAX_VOLUME,
    ensures
        sample >= 0 ==> 0 <= attenuated(level, sample) <= sample,
        sample < 0 ==> sample <= attenuated(level, sample) < 0,
{
    let k: u8 = (MAX_VOLUME - level) as u8;
    assert(k <= 15 && sample >= 0 ==> 0 <= (sample >> k) <= sample) by (bit_vector);
    assert(k <= 15 && sample < 0 ==> sample <= (sample >> k) < 0) by (bit_vector);
}

} // verus!
