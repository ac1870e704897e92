//! Choice of the calibration applied when recovering the specific charge and
//! the initial velocity from a diagnostics sweep.

use vstd::prelude::*;

verus! {

/// The calibration settings that the parameter recovery knows: those
/// validated at 32 and at 512 integration steps per gyroperiod, and the one
/// used for any other resolution.
#[derive(Clone, Copy, Debug, PartialEq, Eq, Structural)]
pub enum Calibration {
    Steps32,
    Steps512,
    Fallback,
}

/// The calibration that applies at a given number of integration steps per
/// gyroperiod.
pub fn calibration_for(steps_per_gyroperiod: u32) -> (c: Calibration)
    ensures
        c == (if steps_per_gyroperiod == 32 {
            Calibration::Steps32
        } else if steps_per_gyroperiod == 512 {
            Calibration::Steps512
        } else {
            Calibration::Fallback
        }),
{
    if steps_per_gyroperiod == 32 {
        Calibration::Steps32
    } else if steps_per_gyroperiod == 512 {
        Calibration::Steps512
    } else {
        Calibration::Fallback
    }
}

} // verus!
