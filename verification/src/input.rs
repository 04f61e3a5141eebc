//! Steering: the four directional keys set the player's turn rate and thrust.

use vstd::prelude::*;
use crate::forces::Velocity;
use crate::units::{lemma_product_is_wide, lemma_scale_bound, scale, scaled_wide};
use crate::vector::{Vec3, Vector, WideVec3};

verus! {

/// Turn rate that the left and right keys give: three units.
pub const TURN_SPEED: i64 = 3_000_000;

/// Speed that the up key gives: five units.
pub const SPEED: i64 = 5_000_000;

/// Share of `SPEED` that the down key gives backwards: two thirds, nearly.
pub const REVERSE_SHARE: i64 = 660_000;

/// Which of the four directional keys are held down.
#[derive(Clone, Copy, Debug, PartialEq, Eq, Structural)]
pub struct Keys {
    pub left: bool,
    pub right: bool,
    pub up: bool,
    pub down: bool,
}

/// The angular velocity that the keys leave: right turns about the vertical
/// axis at `-TURN_SPEED`, left at `TURN_SPEED`, and right wins over left.
pub open spec fn steered_angvel(keys: Keys, angvel: Vector) -> Vector {
    if keys.right {
        Vector { x: 0, y: -TURN_SPEED, z: 0 }
    } else if keys.left {
        Vector { x: 0, y: TURN_SPEED as int, z: 0 }
    } else {
        angvel
    }
}

/// The thrust that the up key gives along the heading `forward`.
pub open spec fn ahead(forward: Vector) -> Vector {
    forward.scaled(SPEED as int)
}

/// The thrust that the down key gives against the heading `forward`.
pub open spec fn astern(forward: Vector) -> Vector {
    forward.opposite().scaled(SPEED as int).scaled(REVERSE_SHARE as int)
}

/// The linear velocity that the keys leave: down wins over up.
pub open spec fn steered_linvel(keys: Keys, forward: Vector, linvel: Vector) -> Vector {
    if keys.down {
        astern(forward)
    } else if keys.up {
        ahead(forward)
    } else {
        linvel
    }
}

/// Whether the thrust that the keys ask for along or against `forward` can be
/// held in an `i64`.
pub open spec fn steerable(keys: Keys, forward: Vector) -> bool {
    if keys.down {
        astern(forward).representable()
    } else if keys.up {
        ahead(forward).representable()
    } else {
        true
    }
}

/// One component of [`ahead`], computed wide.
fn ahead_component(forward: i64) -> (r: i128)
    ensures
        r == scale(forward as int, SPEED as int),
{
    proof {
        lemma_product_is_wide(forward as int, SPEED as int);
    }
    scaled_wide(forward as i128, SPEED as i128)
}

/// One component of [`astern`], computed wide.
fn astern_component(forward: i64) -> (r: i128)
    ensures
        r == scale(scale(-forward as int, SPEED as int), REVERSE_SHARE as int),
{
    let back: i128 = -(forward as i128);
    proof {
        lemma_scale_bound(back as int, SPEED as int, 0x8000_0000_0000_0000, SPEED as int);
    }
    let thrust: i128 = scaled_wide(back, SPEED as i128);
    scaled_wide(thrust, REVERSE_SHARE as i128)
}

/// [`ahead`], computed wide.
fn ahead_wide(forward: &Vec3) -> (r: WideVec3)
    ensures
        r@ == ahead(forward@),
{
    WideVec3 {
        x: ahead_component(forward.x),
        y: ahead_component(forward.y),
        z: ahead_component(forward.z),
    }
}

/// [`astern`], computed wide.
fn astern_wide(forward: &Vec3) -> (r: WideVec3)
    ensures
        r@ == astern(forward@),
{
    WideVec3 {
        x: astern_component(forward.x),
        y: astern_component(forward.y),
        z: astern_component(forward.z),
    }
}

/// Executable form of [`steerable`].
pub fn is_steerable(keys: Keys, forward: &Vec3) -> (ok: bool)
    ensures
        ok == steerable(keys, forward@),
{
    if keys.down {
        astern_wide(forward).is_narrow()
    } else if keys.up {
        ahead_wide(forward).is_narrow()
    } else {
        true
    }
}

/// Applies the held keys to the player's velocity: left and right set the
/// turn rate, up and down the thrust along `forward`, the heading of the boat.
pub fn keyboard_input_system(keys: Keys, forward: Vec3, vel: &mut Velocity)
    requires
        steerable(keys, forward@),
    ensures
        final(vel).angvel@ == steered_angvel(keys, old(vel).angvel@),
        final(vel).linvel@ == steered_linvel(keys, forward@, old(vel).linvel@),
{
    if keys.right {
        vel.angvel = Vec3 { x: 0, y: -TURN_SPEED, z: 0 };
    } else if keys.left {
        vel.angvel = Vec3 { x: 0, y: TURN_SPEED, z: 0 };
    }
    if keys.down {
        vel.linvel = astern_wide(&forward).narrowed();
    } else if keys.up {
        vel.linvel = ahead_wide(&forward).narrowed();
    }
}

} // verus!
