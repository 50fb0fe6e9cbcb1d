//! The bouncing sprite's state and its per-frame update: Euler
//! integration on both axes, clamp-and-reflect at the viewport edges,
//! and a color resample whenever a bounce occurs.
use vstd::prelude::*;

verus! {

use crate::{MAX_DIM, MAX_DT, MAX_SPEED, SPEED};
use crate::color::{color_valid, random_color, Color};
use crate::motion::{
    axis_bound,
    axis_bounces,
    axis_degenerate,
    axis_next_pos,
    axis_next_vel,
    step_axis,
};

/// The sprite's velocity: signed speed along each axis, in milliunits
/// per millisecond. Only the signs ever change, one flip per bounce.
#[derive(Clone, Copy, Debug, PartialEq, Eq, Structural)]
pub struct Bouncer {
    pub dx: i64,
    pub dy: i64,
}

impl Bouncer {
    /// Both components are small enough that integration and negation
    /// stay in range.
    pub open spec fn wf(self) -> bool {
        &&& -MAX_SPEED <= self.dx <= MAX_SPEED
        &&& -MAX_SPEED <= self.dy <= MAX_SPEED
    }

    /// Reverse the horizontal direction, keeping the magnitude.
    pub fn flip_x(&mut self)
        requires
            old(self).wf(),
        ensures
            final(self).dx == -old(self).dx,
            final(self).dy == old(self).dy,
            final(self).wf(),
    {
        self.dx = -self.dx;
    }

    /// Reverse the vertical direction, keeping the magnitude.
    pub fn flip_y(&mut self)
        requires
            old(self).wf(),
        ensures
            final(self).dx == old(self).dx,
            final(self).dy == -old(self).dy,
            final(self).wf(),
    {
        self.dy = -self.dy;
    }
}

/// The current dimensions of the display surface, in milliunits,
/// sampled fresh each frame since the window may be resized.
#[derive(Clone, Copy, Debug, PartialEq, Eq, Structural)]
pub struct Viewport {
    pub width: i64,
    pub height: i64,
}

impl Viewport {
    pub open spec fn wf(self) -> bool {
        &&& 0 < self.width <= MAX_DIM
        &&& 0 < self.height <= MAX_DIM
    }
}

/// Everything mutable about the one bouncing sprite: center position,
/// velocity, fixed visual size, and current color. Coordinates have
/// their origin at the viewport center, with +y up.
#[derive(Clone, Copy, Debug, PartialEq, Eq, Structural)]
pub struct BounceState {
    pub x: i64,
    pub y: i64,
    pub vel: Bouncer,
    pub size_x: i64,
    pub size_y: i64,
    pub color: Color,
}

impl BounceState {
    /// Sizes are strictly positive and every magnitude is small enough
    /// that one frame's arithmetic stays in range.
    pub open spec fn wf(self) -> bool {
        &&& 0 < self.size_x <= MAX_DIM
        &&& 0 < self.size_y <= MAX_DIM
        &&& -MAX_DIM <= self.x <= MAX_DIM
        &&& -MAX_DIM <= self.y <= MAX_DIM
        &&& self.vel.wf()
        &&& color_valid(self.color)
    }

    /// The sprite's bounding box lies entirely within the viewport.
    pub open spec fn in_bounds(self, vp: Viewport) -> bool {
        &&& !axis_degenerate(vp.width as int, self.size_x as int)
        &&& !axis_degenerate(vp.height as int, self.size_y as int)
        &&& -axis_bound(vp.width as int, self.size_x as int) <= self.x <= axis_bound(
            vp.width as int,
            self.size_x as int,
        )
        &&& -axis_bound(vp.height as int, self.size_y as int) <= self.y <= axis_bound(
            vp.height as int,
            self.size_y as int,
        )
    }
}

/// Whether one frame's integration carries the sprite past an edge on
/// either axis.
pub open spec fn step_bounces(s: BounceState, vp: Viewport, dt: int) -> bool {
    ||| axis_bounces(s.x as int, s.vel.dx as int, vp.width as int, s.size_x as int, dt)
    ||| axis_bounces(s.y as int, s.vel.dy as int, vp.height as int, s.size_y as int, dt)
}

/// Advance the sprite by one frame: integrate the position over `dt`
/// milliseconds, clamp each axis to the viewport and reverse its
/// velocity where an edge was crossed, and resample the color if any
/// bounce occurred. Returns whether one did. On an axis the sprite
/// cannot fit, the position is recentered and no reflection happens.
pub fn step(state: &mut BounceState, vp: Viewport, dt: i64, rng: &mut rand::rngs::StdRng) -> (bounced:
    bool)
    requires
        old(state).wf(),
        vp.wf(),
        0 <= dt <= MAX_DT,
    ensures
        final(state).wf(),
        bounced == step_bounces(*old(state), vp, dt as int),
        final(state).x == axis_next_pos(
            old(state).x as int,
            old(state).vel.dx as int,
            vp.width as int,
            old(state).size_x as int,
            dt as int,
        ),
        final(state).y == axis_next_pos(
            old(state).y as int,
            old(state).vel.dy as int,
            vp.height as int,
            old(state).size_y as int,
            dt as int,
        ),
        final(state).vel.dx == axis_next_vel(
            old(state).x as int,
            old(state).vel.dx as int,
            vp.width as int,
            old(state).size_x as int,
            dt as int,
        ),
        final(state).vel.dy == axis_next_vel(
            old(state).y as int,
            old(state).vel.dy as int,
            vp.height as int,
            old(state).size_y as int,
            dt as int,
        ),
        final(state).size_x == old(state).size_x,
        final(state).size_y == old(state).size_y,
        !bounced ==> final(state).color == old(state).color,
        color_valid(final(state).color),
{
    let (ny, _, by) = step_axis(state.y, state.vel.dy, vp.height, state.size_y, dt);
    state.y = ny;
    if by {
        state.vel.flip_y();
        state.color = random_color(rng);
    }
    let (nx, _, bx) = step_axis(state.x, state.vel.dx, vp.width, state.size_x, dt);
    state.x = nx;
    if bx {
        state.vel.flip_x();
        state.color = random_color(rng);
    }
    bx || by
}

/// Containment: any state whose position and size agree with one
/// frame's update — as the clauses of `step` promise of its result —
/// lies within the bounds of the viewport that frame used, provided
/// the sprite fits it on both axes. Holding after every frame of any
/// sequence of viewports and frame times, whatever came before.
pub proof fn lemma_step_containment(pre: BounceState, post: BounceState, vp: Viewport, dt: int)
    requires
        !axis_degenerate(vp.width as int, pre.size_x as int),
        !axis_degenerate(vp.height as int, pre.size_y as int),
        post.x == axis_next_pos(
            pre.x as int,
            pre.vel.dx as int,
            vp.width as int,
            pre.size_x as int,
            dt,
        ),
        post.y == axis_next_pos(
            pre.y as int,
            pre.vel.dy as int,
            vp.height as int,
            pre.size_y as int,
            dt,
        ),
        post.size_x == pre.size_x,
        post.size_y == pre.size_y,
    ensures
        post.in_bounds(vp),
{
    crate::motion::lemma_axis_containment(
        pre.x as int,
        pre.vel.dx as int,
        vp.width as int,
        pre.size_x as int,
        dt,
    );
    crate::motion::lemma_axis_containment(
        pre.y as int,
        pre.vel.dy as int,
        vp.height as int,
        pre.size_y as int,
        dt,
    );
}

/// Idempotent rest: a frame of zero elapsed time moves nothing and
/// bounces nowhere on a state already within bounds, so by the clauses
/// of `step` the position, the velocity and the color all stay as they
/// were, however often such a frame is repeated.
pub proof fn lemma_rest(s: BounceState, vp: Viewport)
    requires
        s.in_bounds(vp),
    ensures
        axis_next_pos(s.x as int, s.vel.dx as int, vp.width as int, s.size_x as int, 0) == s.x,
        axis_next_pos(s.y as int, s.vel.dy as int, vp.height as int, s.size_y as int, 0) == s.y,
        axis_next_vel(s.x as int, s.vel.dx as int, vp.width as int, s.size_x as int, 0)
            == s.vel.dx,
        axis_next_vel(s.y as int, s.vel.dy as int, vp.height as int, s.size_y as int, 0)
            == s.vel.dy,
        !step_bounces(s, vp, 0),
{
}

/// Corner case: a frame whose displacement crosses a bound on both
/// axes at once flips both velocity components and clamps both
/// coordinates to an edge, in that one call.
pub proof fn lemma_corner(s: BounceState, vp: Viewport, dt: int)
    requires
        axis_bounces(s.x as int, s.vel.dx as int, vp.width as int, s.size_x as int, dt),
        axis_bounces(s.y as int, s.vel.dy as int, vp.height as int, s.size_y as int, dt),
    ensures
        axis_next_vel(s.x as int, s.vel.dx as int, vp.width as int, s.size_x as int, dt)
            == -s.vel.dx,
        axis_next_vel(s.y as int, s.vel.dy as int, vp.height as int, s.size_y as int, dt)
            == -s.vel.dy,
        axis_next_pos(s.x as int, s.vel.dx as int, vp.width as int, s.size_x as int, dt)
            == axis_bound(vp.width as int, s.size_x as int) || axis_next_pos(
            s.x as int,
            s.vel.dx as int,
            vp.width as int,
            s.size_x as int,
            dt,
        ) == -axis_bound(vp.width as int, s.size_x as int),
        axis_next_pos(s.y as int, s.vel.dy as int, vp.height as int, s.size_y as int, dt)
            == axis_bound(vp.height as int, s.size_y as int) || axis_next_pos(
            s.y as int,
            s.vel.dy as int,
            vp.height as int,
            s.size_y as int,
            dt,
        ) == -axis_bound(vp.height as int, s.size_y as int),
        step_bounces(s, vp, dt),
{
}

/// Create the one bouncing sprite, as at startup: a given strictly
/// positive size, a uniformly random in-bounds position, a velocity of
/// the conventional speed with an independently random sign per axis,
/// and a random color. The viewport must strictly exceed the sprite on
/// both axes.
pub fn setup_bouncer(
    size_x: i64,
    size_y: i64,
    vp: Viewport,
    rng: &mut rand::rngs::StdRng,
) -> (s: BounceState)
    requires
        0 < size_x < vp.width <= MAX_DIM,
        0 < size_y < vp.height <= MAX_DIM,
    ensures
        s.wf(),
        s.in_bounds(vp),
        s.size_x == size_x,
        s.size_y == size_y,
        s.vel.dx == SPEED || s.vel.dx == -SPEED,
        s.vel.dy == SPEED || s.vel.dy == -SPEED,
{
    let wall = (vp.width - size_x) / 2;
    let ceil = (vp.height - size_y) / 2;
    let x = if wall > 0 {
        crate::rng::gen_range_i64(rng, -wall, wall)
    } else {
        0
    };
    let y = if ceil > 0 {
        crate::rng::gen_range_i64(rng, -ceil, ceil)
    } else {
        0
    };
    let dx = if crate::rng::gen_below(rng, 2) == 1 {
        SPEED
    } else {
        -SPEED
    };
    let dy = if crate::rng::gen_below(rng, 2) == 1 {
        SPEED
    } else {
        -SPEED
    };
    let color = random_color(rng);
    BounceState { x, y, vel: Bouncer { dx, dy }, size_x, size_y, color }
}

} // verus!
