//! Integer and boolean logic of a magnetron (cylindrical vacuum diode) simulation:
//! particle bookkeeping, grid stencils and the choice of calibration.

use vstd::prelude::*;

pub mod calibration;
pub mod grid;
pub mod lifecycle;

verus! {

/// The name under which the physics engine identifies itself.
pub fn get_physics_info() -> (info: &'static str)
    ensures
        info@ == "Magnetron Core Physics Engine"@,
{
    "Magnetron Core Physics Engine"
}

} // verus!
