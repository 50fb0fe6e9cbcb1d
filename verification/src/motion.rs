//! Per-axis kinematics: Euler integration followed by clamp-and-reflect
//! against the two edges of one axis. Both viewport axes use the same
//! rule, so the update is stated and proved once here.
use vstd::prelude::*;

verus! {

use crate::{MAX_DIM, MAX_DT, MAX_SPEED};

/// Largest center coordinate the sprite may occupy along an axis: half
/// the gap between the viewport dimension and the sprite size. The
/// bounds are symmetric about the viewport center, so the smallest
/// coordinate is its negation.
pub open spec fn axis_bound(dim: int, size: int) -> int {
    (dim - size) / 2
}

/// The viewport is too small for the sprite along this axis, so the
/// valid range of center coordinates would be inverted.
pub open spec fn axis_degenerate(dim: int, size: int) -> bool {
    dim < size
}

/// Center coordinate after unclamped Euler integration over one frame.
pub open spec fn axis_raw(pos: int, vel: int, dt: int) -> int {
    pos + vel * dt
}

/// Whether integration carries the sprite past either edge this frame.
/// A degenerate axis never reflects: it only recenters.
pub open spec fn axis_bounces(pos: int, vel: int, dim: int, size: int, dt: int) -> bool {
    &&& !axis_degenerate(dim, size)
    &&& (axis_raw(pos, vel, dt) > axis_bound(dim, size) || axis_raw(
        pos,
        vel,
        dt,
    ) < -axis_bound(dim, size))
}

/// Center coordinate after one frame: the integrated position, clamped
/// to the edge that was crossed; on a degenerate axis, the center.
pub open spec fn axis_next_pos(pos: int, vel: int, dim: int, size: int, dt: int) -> int {
    if axis_degenerate(dim, size) {
        0
    } else if axis_raw(pos, vel, dt) > axis_bound(dim, size) {
        axis_bound(dim, size)
    } else if axis_raw(pos, vel, dt) < -axis_bound(dim, size) {
        -axis_bound(dim, size)
    } else {
        axis_raw(pos, vel, dt)
    }
}

/// Velocity after one frame: negated exactly when the frame bounces.
pub open spec fn axis_next_vel(pos: int, vel: int, dim: int, size: int, dt: int) -> int {
    if axis_bounces(pos, vel, dim, size, dt) {
        -vel
    } else {
        vel
    }
}

/// Containment: on an axis the sprite fits, the position after any
/// frame lies within the axis bounds, wherever integration tried to
/// carry it.
pub proof fn lemma_axis_containment(pos: int, vel: int, dim: int, size: int, dt: int)
    requires
        !axis_degenerate(dim, size),
    ensures
        -axis_bound(dim, size) <= axis_next_pos(pos, vel, dim, size, dt) <= axis_bound(dim, size),
{
    assert(axis_bound(dim, size) >= 0) by (nonlinear_arith)
        requires
            dim >= size,
    ;
}

/// Speed invariance: a frame never changes a velocity's magnitude,
/// only its sign, and the sign only on a frame that bounces.
pub proof fn lemma_axis_speed_invariance(pos: int, vel: int, dim: int, size: int, dt: int)
    ensures
        vstd::math::abs(axis_next_vel(pos, vel, dim, size, dt)) == vstd::math::abs(vel),
        axis_next_vel(pos, vel, dim, size, dt) == vel || axis_next_vel(
            pos,
            vel,
            dim,
            size,
            dt,
        ) == -vel,
        axis_next_vel(pos, vel, dim, size, dt) != vel ==> axis_bounces(pos, vel, dim, size, dt)
            && vel != 0,
{
}

/// Reflection correctness: when integration carries the position past
/// the upper bound of a non-degenerate axis, the frame leaves the
/// position exactly on that bound and the velocity exactly negated.
/// The lower bound behaves symmetrically.
pub proof fn lemma_axis_reflection(pos: int, vel: int, dim: int, size: int, dt: int)
    requires
        !axis_degenerate(dim, size),
        axis_raw(pos, vel, dt) > axis_bound(dim, size),
    ensures
        axis_next_pos(pos, vel, dim, size, dt) == axis_bound(dim, size),
        axis_next_vel(pos, vel, dim, size, dt) == -vel,
{
}

/// One axis of the per-frame update: integrate the position, then clamp
/// it to the axis bounds and negate the velocity if an edge was
/// crossed. Returns the new position, the new velocity, and whether a
/// bounce occurred.
pub fn step_axis(pos: i64, vel: i64, dim: i64, size: i64, dt: i64) -> (r: (i64, i64, bool))
    requires
        0 < size <= MAX_DIM,
        0 < dim <= MAX_DIM,
        -MAX_DIM <= pos <= MAX_DIM,
        -MAX_SPEED <= vel <= MAX_SPEED,
        0 <= dt <= MAX_DT,
    ensures
        r.0 == axis_next_pos(pos as int, vel as int, dim as int, size as int, dt as int),
        r.1 == axis_next_vel(pos as int, vel as int, dim as int, size as int, dt as int),
        r.2 == axis_bounces(pos as int, vel as int, dim as int, size as int, dt as int),
{
    if dim < size {
        (0, vel, false)
    } else {
        let bound = (dim - size) / 2;
        assert(-MAX_SPEED * MAX_DT <= vel * dt <= MAX_SPEED * MAX_DT) by (nonlinear_arith)
            requires
                -MAX_SPEED <= vel <= MAX_SPEED,
                0 <= dt <= MAX_DT,
        ;
        let raw = pos + vel * dt;
        if raw > bound {
            (bound, -vel, true)
        } else if raw < -bound {
            (-bound, -vel, true)
        } else {
            (raw, vel, false)
        }
    }
}

} // verus!
