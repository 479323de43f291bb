//! Decision logic of a four-way intersection simulator: vehicles that drive
//! along one axis, keep their distance to the car ahead, yield at the crossing,
//! turn at fixed points and leave the screen.

pub mod road;
pub mod traffic;
pub mod utils;
pub mod vehicule;

use vstd::prelude::*;

verus! {

/// Gap, in pixels, under which a vehicle stops for the one in its way.
pub const DISTANCE: i32 = 40;

/// Gap, in pixels, under which a vehicle slows down for the one in its way.
pub const SAFE_DISTANCE: i32 = 300;

} // verus!
