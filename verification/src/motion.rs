//! Keyboard-driven player movement and per-frame velocity integration.

use vstd::prelude::*;

verus! {

use crate::COORD_LIMIT;
use crate::arena::ArenaBounds;
use vstd::arithmetic::mul::{lemma_mul_basics, lemma_mul_by_zero_is_zero, lemma_mul_unary_negation};

/// Direction scalar read from the two opposing keys: `1` for right only,
/// `-1` for left only, `0` when both or neither is held.
pub open spec fn direction_spec(left: bool, right: bool) -> int {
    (if right { 1int } else { 0int }) - (if left { 1int } else { 0int })
}

/// `x` pushed into the interval `[lo, hi]`.
pub open spec fn clamped(x: int, lo: int, hi: int) -> int {
    if x < lo {
        lo
    } else if x > hi {
        hi
    } else {
        x
    }
}

/// Direction scalar for the two opposing movement keys.  Opposing key
/// presses cancel to zero.
pub fn key_direction(left: bool, right: bool) -> (d: i64)
    ensures
        d == direction_spec(left, right),
        left == right ==> d == 0,
{
    let mut d: i64 = 0;
    if left {
        d = d - 1;
    }
    if right {
        d = d + 1;
    }
    d
}

/// One movement step of the player: the held keys give a direction, the
/// displacement is `direction * speed * dt`, and the new position is
/// clamped into `[lo, hi]`.
///
/// A single held key moves the player by exactly `speed * dt` in that
/// direction (up to clamping); opposing keys cancel, and a player already
/// inside the bounds then stays put.
pub fn step_player(pos: i64, left: bool, right: bool, speed: i64, dt: i64, lo: i64, hi: i64) -> (p:
    i64)
    requires
        lo <= hi,
        -COORD_LIMIT <= lo,
        hi <= COORD_LIMIT,
        -COORD_LIMIT <= pos <= COORD_LIMIT,
        0 <= speed,
        0 <= dt,
        speed * dt <= COORD_LIMIT,
    ensures
        p == clamped(pos + direction_spec(left, right) * (speed * dt), lo as int, hi as int),
        lo <= p <= hi,
        right && !left ==> p == clamped(pos + speed * dt, lo as int, hi as int),
        left && !right ==> p == clamped(pos - speed * dt, lo as int, hi as int),
        left == right && lo <= pos <= hi ==> p == pos,
{
    let step = speed * dt;
    proof {
        let sd = speed * dt;
        let d = direction_spec(left, right);
        lemma_mul_basics(sd);
        lemma_mul_unary_negation(1, sd);
        lemma_mul_by_zero_is_zero(sd);
        if right && !left {
            assert(d == 1);
        } else if left && !right {
            assert(d == -1);
        } else {
            assert(d == 0);
        }
    }
    let target = if right && !left {
        pos + step
    } else if left && !right {
        pos - step
    } else {
        pos
    };
    if target < lo {
        lo
    } else if target > hi {
        hi
    } else {
        target
    }
}

/// The interval the player's x coordinate is clamped into, in doubled
/// coordinates: half a wall thickness and half a sprite width in from each
/// wall, plus a margin on each side.
pub fn player_bounds(bounds: &ArenaBounds, sprite_width: i64, margin_left: i64, margin_right: i64)
    -> (b: (i64, i64))
    requires
        bounds.wf(),
        0 <= sprite_width <= COORD_LIMIT,
        0 <= margin_left <= COORD_LIMIT,
        0 <= margin_right <= COORD_LIMIT,
    ensures
        b.0 == 2 * bounds.left + bounds.wall_thickness + sprite_width + 2 * margin_left,
        b.1 == 2 * bounds.right - bounds.wall_thickness - sprite_width - 2 * margin_right,
{
    let lo = 2 * bounds.left + bounds.wall_thickness + sprite_width + 2 * margin_left;
    let hi = 2 * bounds.right - bounds.wall_thickness - sprite_width - 2 * margin_right;
    (lo, hi)
}

/// One velocity-integration step: each axis advances by `velocity * dt`.
pub fn apply_velocity(pos: (i64, i64), velocity: (i64, i64), dt: i64) -> (p: (i64, i64))
    requires
        -COORD_LIMIT <= pos.0 <= COORD_LIMIT,
        -COORD_LIMIT <= pos.1 <= COORD_LIMIT,
        0 <= dt,
        -COORD_LIMIT <= velocity.0 * dt <= COORD_LIMIT,
        -COORD_LIMIT <= velocity.1 * dt <= COORD_LIMIT,
    ensures
        p.0 == pos.0 + velocity.0 * dt,
        p.1 == pos.1 + velocity.1 * dt,
{
    (pos.0 + velocity.0 * dt, pos.1 + velocity.1 * dt)
}

} // verus!
