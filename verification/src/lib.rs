//! Bounce physics for a single sprite drifting across a rectangular
//! viewport: per-frame Euler integration, boundary clamp-and-reflect,
//! and color resampling on each bounce.
//!
//! All lengths are integer counts of milliunits (thousandths of a
//! logical unit), so quantities such as a sprite 173.5 units wide are
//! exact. Velocities are milliunits per millisecond and frame times are
//! milliseconds, so one frame's displacement is a plain product.
use vstd::prelude::*;

pub mod color;
pub mod input;
pub mod motion;
pub mod rng;
pub mod state;

verus! {

/// Milliunits per logical unit.
pub const UNIT: i64 = 1000;

/// Largest viewport dimension or sprite size, in milliunits.
pub const MAX_DIM: i64 = 1_000_000_000;

/// Largest velocity magnitude, in milliunits per millisecond.
pub const MAX_SPEED: i64 = 1_000_000;

/// Largest frame time, in milliseconds.
pub const MAX_DT: i64 = 1_000_000;

/// The conventional cruise speed of the sprite along each axis:
/// 100 milliunits per millisecond, that is 100 units per second.
pub const SPEED: i64 = 100;

} // verus!
