//! Velocity commands: what the movement integrators hand to the physics
//! bridge each tick.
//!
//! A command carries the un-normalized heading it was computed from and a
//! speed in tenths of a unit per second. Its meaning is the unit vector of
//! the heading scaled by the speed; the zero heading means a standstill.
//! Keeping the heading un-normalized keeps the command exact: normalization
//! is left to the bridge, and is scale-invariant, so the heading `(100, 215)`
//! commands the same direction as the unit vector of `(100.0, 215.0)`.

use vstd::prelude::*;

use crate::geom::Vec2;
use crate::{MONSTER_SPEED_TENTHS, PLAYER_SPEED_TENTHS};

verus! {

/// A desired linear velocity: move along `heading` at `speed_tenths` tenths
/// of a unit per second, or stand still if `heading` is zero.
#[derive(Clone, Copy, PartialEq, Eq, Structural, Debug)]
pub struct VelocityIntent {
    /// The un-normalized direction of travel; zero commands a standstill.
    pub heading: Vec2,
    /// The speed along the normalized heading, in tenths of a unit per
    /// second; irrelevant when the heading is zero.
    pub speed_tenths: u32,
}

/// The state of the eight directional keys the player steers with: each of
/// the four directions is accepted from two keys.
#[derive(Clone, Copy, PartialEq, Eq, Structural, Debug)]
pub struct KeyState {
    pub w: bool,
    pub up_arrow: bool,
    pub s: bool,
    pub down_arrow: bool,
    pub a: bool,
    pub left_arrow: bool,
    pub d: bool,
    pub right_arrow: bool,
}

impl VelocityIntent {
    /// The magnitude of the commanded velocity, in tenths of a unit per
    /// second: the speed, or zero for the zero heading.
    pub open spec fn magnitude_tenths(self) -> int {
        if self.heading.is_zero() {
            0
        } else {
            self.speed_tenths as int
        }
    }

    /// A command to stand still.
    pub open spec fn standstill() -> VelocityIntent {
        VelocityIntent { heading: Vec2::zero(), speed_tenths: 0 }
    }
}

/// The value of one input axis: `-1`, `0` or `1` from its two opposing
/// directions, which cancel when held together.
pub open spec fn axis_value(negative: bool, positive: bool) -> i64 {
    if positive && !negative {
        1i64
    } else if negative && !positive {
        -1i64
    } else {
        0i64
    }
}

/// The heading summed from the pressed keys: each axis resolves to
/// `-1`, `0` or `1`.
pub open spec fn key_heading(keys: KeyState) -> Vec2 {
    Vec2 {
        x: axis_value(keys.a || keys.left_arrow, keys.d || keys.right_arrow),
        y: axis_value(keys.s || keys.down_arrow, keys.w || keys.up_arrow),
    }
}

/// The velocity the player's movement integrator commands for a key state:
/// full player speed along the key-axis heading, a standstill when no net
/// direction is pressed.
pub open spec fn player_intent_spec(keys: KeyState) -> VelocityIntent {
    VelocityIntent { heading: key_heading(keys), speed_tenths: PLAYER_SPEED_TENTHS }
}

/// The velocity a monster's pursuit integrator commands: monster speed
/// along the displacement from the monster toward the player, a standstill
/// when the two coincide.
pub open spec fn pursuit_intent_spec(player_pos: Vec2, monster_pos: Vec2) -> VelocityIntent {
    VelocityIntent {
        heading: Vec2::displacement_spec(monster_pos, player_pos),
        speed_tenths: MONSTER_SPEED_TENTHS,
    }
}

/// Computes the player's velocity command from the directional keys.
pub fn player_intent(keys: KeyState) -> (v: VelocityIntent)
    ensures
        v == player_intent_spec(keys),
{
    let left = keys.a || keys.left_arrow;
    let right = keys.d || keys.right_arrow;
    let down = keys.s || keys.down_arrow;
    let up = keys.w || keys.up_arrow;
    let x: i64 = (if right { 1 } else { 0 }) - (if left { 1 } else { 0 });
    let y: i64 = (if up { 1 } else { 0 }) - (if down { 1 } else { 0 });
    VelocityIntent { heading: Vec2 { x, y }, speed_tenths: PLAYER_SPEED_TENTHS }
}

/// Computes the velocity command that sends a monster toward the player.
pub fn pursuit_intent(player_pos: Vec2, monster_pos: Vec2) -> (v: VelocityIntent)
    requires
        player_pos.in_range(),
        monster_pos.in_range(),
    ensures
        v == pursuit_intent_spec(player_pos, monster_pos),
{
    VelocityIntent {
        heading: Vec2::displacement(monster_pos, player_pos),
        speed_tenths: MONSTER_SPEED_TENTHS,
    }
}

/// Player-speed law: for every key state, the commanded speed is either
/// zero or exactly the full player speed — never anything between — and the
/// commanded heading is the sum of the pressed key axes.
pub proof fn lemma_player_speed_law(keys: KeyState)
    ensures
        player_intent_spec(keys).magnitude_tenths() == 0 || player_intent_spec(
            keys,
        ).magnitude_tenths() == PLAYER_SPEED_TENTHS,
        player_intent_spec(keys).heading == key_heading(keys),
        -1 <= key_heading(keys).x <= 1,
        -1 <= key_heading(keys).y <= 1,
{
}

/// Opposing-keys law: when both directions of an axis are held, that axis
/// resolves to zero — the inputs cancel.
pub proof fn lemma_opposing_keys_cancel(keys: KeyState)
    ensures
        (keys.a || keys.left_arrow) && (keys.d || keys.right_arrow) ==> key_heading(keys).x == 0,
        (keys.s || keys.down_arrow) && (keys.w || keys.up_arrow) ==> key_heading(keys).y == 0,
{
}

/// Monster-speed law: on every tick and for every monster, the commanded
/// speed is either zero or exactly 35% of the player speed, and the heading
/// points from the monster's synced position toward the player's.
pub proof fn lemma_monster_speed_law(player_pos: Vec2, monster_pos: Vec2)
    requires
        player_pos.in_range(),
        monster_pos.in_range(),
    ensures
        pursuit_intent_spec(player_pos, monster_pos).magnitude_tenths() == 0 || pursuit_intent_spec(
            player_pos,
            monster_pos,
        ).magnitude_tenths() == MONSTER_SPEED_TENTHS,
        pursuit_intent_spec(player_pos, monster_pos).heading == Vec2::displacement_spec(
            monster_pos,
            player_pos,
        ),
        pursuit_intent_spec(player_pos, monster_pos).magnitude_tenths() == 0 <==> player_pos
            == monster_pos,
{
}

/// Degenerate-target law: when pursuer and target coincide, the direction
/// computation yields the zero heading, so the commanded velocity is the
/// zero vector rather than anything undefined.
pub proof fn lemma_coincident_target_stands_still(pos: Vec2)
    requires
        pos.in_range(),
    ensures
        pursuit_intent_spec(pos, pos).heading == Vec2::zero(),
        pursuit_intent_spec(pos, pos).magnitude_tenths() == 0,
{
}

} // verus!
