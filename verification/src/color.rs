//! The sprite's color: three RGB channels, each an integer count of
//! thousandths of the real-valued range `[0, 1)`, resampled on every
//! bounce.
use vstd::prelude::*;

verus! {

/// Number of representable values per channel: a channel is a
/// thousandth-step in `[0, 1)`.
pub const CHANNEL_MAX: u32 = 1000;

/// An RGB color. Each channel counts thousandths of the unit interval.
#[derive(Clone, Copy, Debug, PartialEq, Eq, Structural)]
pub struct Color {
    pub r: u32,
    pub g: u32,
    pub b: u32,
}

/// Every channel lies in `[0, 1)`.
pub open spec fn color_valid(c: Color) -> bool {
    c.r < CHANNEL_MAX && c.g < CHANNEL_MAX && c.b < CHANNEL_MAX
}

/// Draw a fresh color: three independent uniform channels in `[0, 1)`.
/// The draw is the only nondeterminism in the simulation, so nothing
/// beyond validity can be promised of the result.
pub fn random_color(rng: &mut rand::rngs::StdRng) -> (c: Color)
    ensures
        color_valid(c),
{
    let r = crate::rng::gen_below(rng, CHANNEL_MAX);
    let g = crate::rng::gen_below(rng, CHANNEL_MAX);
    let b = crate::rng::gen_below(rng, CHANNEL_MAX);
    Color { r, g, b }
}

} // verus!
