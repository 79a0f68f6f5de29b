//! Distance values and the pulse-width conversion.
//!
//! A distance is held in micrometers, the finest unit the conversion can
//! produce exactly: sound travels 0.0343 cm — 343 micrometers — per
//! microsecond, so an echo pulse of `dt` microseconds puts the object at
//! `343 * dt / 2` micrometers (half the round trip). The canonical view
//! for callers is centimeters, read off as whole hundredths.

use vstd::prelude::*;

verus! {

/// Speed of sound in air at room temperature, in micrometers per
/// microsecond (the standard 0.0343 cm/us approximation; no temperature
/// compensation is attempted).
pub const SOUND_UM_PER_US: u64 = 343;

/// The sensor's rated maximum range, 400 cm, in micrometers. Readings
/// beyond this are physically implausible and are rejected.
pub const MAX_DISTANCE_UM: u64 = 4_000_000;

/// Distance travelled one way by an echo pulse of `dt_us` microseconds,
/// in micrometers: half the round trip at the speed of sound.
pub open spec fn pulse_distance_um(dt_us: int) -> int {
    (SOUND_UM_PER_US * dt_us) / 2
}

/// Whether a pulse of `dt_us` microseconds yields a plausible distance:
/// strictly positive and within the sensor's rated range.
pub open spec fn plausible_pulse(dt_us: int) -> bool {
    0 < pulse_distance_um(dt_us) <= MAX_DISTANCE_UM
}

/// A non-negative physical length, canonically expressed in centimeters;
/// stored in micrometers so that the conversion from a pulse width is
/// exact integer arithmetic.
#[derive(Clone, Copy, Debug, PartialEq, Eq, Structural)]
pub struct Distance {
    pub micrometers: u64,
}

impl Distance {
    /// A distance produced by a successful measurement: strictly positive
    /// and within the sensor's rated range.
    pub open spec fn wf(self) -> bool {
        0 < self.micrometers <= MAX_DISTANCE_UM
    }

    /// Converts an echo pulse width to a distance. Returns `None` exactly
    /// when the pulse encodes an implausible reading: a zero distance or
    /// one beyond the rated range.
    pub fn from_pulse(dt_us: u64) -> (r: Option<Distance>)
        ensures
            r is Some <==> plausible_pulse(dt_us as int),
            (r matches Some(d) ==> d.micrometers == pulse_distance_um(dt_us as int)),
            (r matches Some(d) ==> d.wf()),
    {
        let wide: u128 = 343u128 * (dt_us as u128);
        let um: u128 = wide / 2;
        if um == 0 || um > MAX_DISTANCE_UM as u128 {
            None
        } else {
            Some(Distance { micrometers: um as u64 })
        }
    }

    /// The canonical centimeter view, in whole hundredths of a centimeter
    /// (one hundredth of a centimeter is 100 micrometers).
    pub fn cm_hundredths(&self) -> (r: u64)
        ensures
            r == self.micrometers / 100,
    {
        self.micrometers / 100
    }
}

/// The integer conversion tracks the exact real-valued formula
/// `(0.0343 cm/us * dt) / 2` to within one micrometer: twice the computed
/// distance never exceeds `343 * dt` and falls short of it by less than 2.
pub proof fn lemma_distance_tracks_pulse(dt_us: int)
    requires
        dt_us >= 0,
    ensures
        2 * pulse_distance_um(dt_us) <= SOUND_UM_PER_US * dt_us,
        SOUND_UM_PER_US * dt_us < 2 * pulse_distance_um(dt_us) + 2,
{
}

/// The result of one successful ranging cycle. A `Measurement` exists
/// only on success; failures are a distinct outcome, never a sentinel
/// distance.
#[derive(Clone, Copy, Debug, PartialEq, Eq, Structural)]
pub struct Measurement {
    pub distance: Distance,
}

impl Measurement {
    pub open spec fn wf(self) -> bool {
        self.distance.wf()
    }
}

} // verus!
