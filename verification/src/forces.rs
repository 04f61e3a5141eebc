//! Forces of the water on a floating body: buoyancy below the water plane
//! `y = 0`, then drag on the linear and on the angular velocity. One call is
//! one explicit integration step.
//!
//! No coefficient and no velocity is bounded: a step is owed wherever the
//! velocities it passes through can be held in an `i64`.

use vstd::prelude::*;
use crate::config::{ConfigValues, DRAG_ANG_C_MAX, DRAG_C_MAX};
use crate::units::{
    fits, lemma_mag_mul, lemma_product_is_wide, lemma_ratio, lemma_scale, lemma_scale_bound,
    lemma_scale_monotone, mag, ratio, ratio_wide, scale, scaled_wide, UNIT,
};
use crate::vector::{
    lemma_kept_direction_is_not_reversed, lemma_norm_bounds, same_way, Vec3, Vector, WideVec3,
};

verus! {

/// Speed up to which the angular drag leaves a velocity alone: a thousandth
/// of a unit.
pub const REST_SPEED: i64 = 1_000;

/// Linear and angular velocity of a body.
#[derive(Clone, Copy, Debug, PartialEq, Eq, Structural)]
pub struct Velocity {
    pub linvel: Vec3,
    pub angvel: Vec3,
}

/// A body that the water acts on: the height of its origin over the water
/// plane and its velocity.
#[derive(Clone, Copy, Debug, PartialEq, Eq, Structural)]
pub struct MovingObject {
    pub height: i64,
    pub velocity: Velocity,
}

/// Upward change of velocity of a body whose origin is at height `y`: none at
/// or above the water plane; below it, the depth times `floating_c`, the depth
/// counted up to `avg_boat_height` only.
pub open spec fn buoyancy_of(y: int, avg_boat_height: int, floating_c: int) -> int {
    if y >= 0 {
        0
    } else if -y > avg_boat_height {
        scale(avg_boat_height, floating_c)
    } else {
        scale(-y, floating_c)
    }
}

/// `v` with `lift` added to its vertical component.
pub open spec fn lifted(v: Vector, lift: int) -> Vector {
    Vector { x: v.x, y: v.y + lift, z: v.z }
}

/// The linear velocity `v` after drag with coefficient `c`: it loses its
/// `c`-fold, which is a loss proportional to its speed, against its direction.
pub open spec fn dragged(v: Vector, c: int) -> Vector {
    Vector { x: v.x - scale(v.x, c), y: v.y - scale(v.y, c), z: v.z - scale(v.z, c) }
}

/// What the angular drag takes from the component `w` of an angular velocity
/// of length `speed`: the component of the unit direction, times `c`, times
/// the speed.
pub open spec fn resistance(w: int, speed: int, c: int) -> int {
    scale(scale(ratio(w, speed), c), speed)
}

/// The angular velocity `w` after drag with coefficient `c`, which acts only
/// on a velocity faster than `REST_SPEED`: it loses the `c`-fold of its speed
/// along its direction.
pub open spec fn damped(w: Vector, c: int) -> Vector {
    let speed = w.norm();
    if REST_SPEED < speed {
        Vector {
            x: w.x - resistance(w.x, speed, c),
            y: w.y - resistance(w.y, speed, c),
            z: w.z - resistance(w.z, speed, c),
        }
    } else {
        w
    }
}

/// The linear velocity of a body once the buoyancy has acted on it.
pub open spec fn linvel_lifted(object: MovingObject, config: ConfigValues) -> Vector {
    lifted(
        object.velocity.linvel@,
        buoyancy_of(
            object.height as int,
            config.avg_boat_height as int,
            config.floating_c as int,
        ),
    )
}

/// The linear velocity that one integration step leaves a body with.
pub open spec fn linvel_after(object: MovingObject, config: ConfigValues) -> Vector {
    dragged(linvel_lifted(object, config), config.drag_c as int)
}

/// The angular velocity that one integration step leaves a body with.
pub open spec fn angvel_after(object: MovingObject, config: ConfigValues) -> Vector {
    damped(object.velocity.angvel@, config.drag_ang_c as int)
}

/// Whether `after` is `before` one integration step later.
pub open spec fn stepped(before: MovingObject, after: MovingObject, config: ConfigValues) -> bool {
    &&& after.height == before.height
    &&& after.velocity.linvel@ == linvel_after(before, config)
    &&& after.velocity.angvel@ == angvel_after(before, config)
}

/// Whether an integration step can be taken on `object`: the linear velocity
/// that the buoyancy leaves, and both velocities that the step leaves, can be
/// held in an `i64`.
pub open spec fn steppable(object: MovingObject, config: ConfigValues) -> bool {
    &&& linvel_lifted(object, config).representable()
    &&& linvel_after(object, config).representable()
    &&& angvel_after(object, config).representable()
}

/// Above the water plane and on it there is no buoyancy.
pub proof fn lemma_buoyancy_above_water(y: int, avg_boat_height: int, floating_c: int)
    requires
        y >= 0,
    ensures
        buoyancy_of(y, avg_boat_height, floating_c) == 0,
{
}

/// The magnitude of the buoyancy never shrinks as a body sinks deeper.
pub proof fn lemma_buoyancy_monotone(
    deeper: int,
    shallower: int,
    avg_boat_height: int,
    floating_c: int,
)
    requires
        deeper <= shallower,
    ensures
        mag(buoyancy_of(shallower, avg_boat_height, floating_c)) <= mag(
            buoyancy_of(deeper, avg_boat_height, floating_c),
        ),
{
    if shallower < 0 {
        if -deeper > avg_boat_height {
            if -shallower <= avg_boat_height {
                lemma_scale_monotone(-shallower, avg_boat_height, floating_c);
            }
        } else {
            lemma_scale_monotone(-shallower, -deeper, floating_c);
        }
    }
}

/// The magnitude of the buoyancy never exceeds that of `avg_boat_height`
/// times `floating_c`, and from the depth `avg_boat_height` on the buoyancy is
/// that product.
pub proof fn lemma_buoyancy_saturates(y: int, avg_boat_height: int, floating_c: int)
    ensures
        mag(buoyancy_of(y, avg_boat_height, floating_c)) <= mag(
            scale(avg_boat_height, floating_c),
        ),
        y < 0 && -y >= avg_boat_height ==> buoyancy_of(y, avg_boat_height, floating_c) == scale(
            avg_boat_height,
            floating_c,
        ),
{
    if y < 0 && -y <= avg_boat_height {
        lemma_scale_monotone(-y, avg_boat_height, floating_c);
    }
}

/// With a coefficient between zero and one, scaling takes from a quantity no
/// more than the quantity itself, and in its own direction.
proof fn lemma_scale_takes_part(v: int, c: int)
    requires
        0 <= c <= UNIT,
    ensures
        same_way(scale(v, c), v),
{
    lemma_scale(v, c);
    let (s, m) = (mag(scale(v, c)), mag(v));
    assert(s <= m) by (nonlinear_arith)
        requires
            s * UNIT <= m * c,
            0 <= c <= UNIT,
            0 <= m,
            UNIT == 1_000_000,
    ;
}

/// With a coefficient between zero and one, the angular drag takes from a
/// component no more than the component itself, and in its own direction.
proof fn lemma_resistance_takes_part(w: int, speed: int, c: int)
    requires
        0 <= c <= UNIT,
        0 < speed,
        mag(w) <= speed,
    ensures
        same_way(resistance(w, speed, c), w),
{
    let n = ratio(w, speed);
    let share = scale(n, c);
    let t = scale(share, speed);
    lemma_ratio(w, speed);
    lemma_scale(n, c);
    lemma_scale(share, speed);
    let (a, big_n, big_s, big_t) = (mag(w), mag(n), mag(share), mag(t));
    // Each rounding only loses magnitude, so
    // |t| * UNIT^2 <= |share| * speed * UNIT <= |n| * c * speed <= |w| * UNIT * c
    // <= |w| * UNIT^2.
    assert((big_t * UNIT) * UNIT <= (big_s * speed) * UNIT) by (nonlinear_arith)
        requires
            big_t * UNIT <= big_s * speed,
            UNIT == 1_000_000,
    ;
    assert((big_s * UNIT) * speed <= (big_n * c) * speed) by (nonlinear_arith)
        requires
            big_s * UNIT <= big_n * c,
            0 < speed,
    ;
    assert((big_n * speed) * c <= (a * UNIT) * c) by (nonlinear_arith)
        requires
            big_n * speed <= a * UNIT,
            0 <= c,
    ;
    assert((a * UNIT) * c <= (a * UNIT) * UNIT) by (nonlinear_arith)
        requires
            0 <= a,
            0 <= c <= UNIT,
            UNIT == 1_000_000,
    ;
    assert((big_s * speed) * UNIT == (big_s * UNIT) * speed) by (nonlinear_arith);
    assert((big_n * c) * speed == (big_n * speed) * c) by (nonlinear_arith);
    assert(big_t <= a) by (nonlinear_arith)
        requires
            (big_t * UNIT) * UNIT <= (a * UNIT) * UNIT,
            UNIT == 1_000_000,
    ;
}

/// Drag never reverses a velocity within one integration step: with a drag
/// coefficient in the range that the control panel offers, each component of
/// the linear velocity after its drag, and of the angular velocity after its
/// drag, points the way it did before or has come to rest, and is no larger
/// than it was. So the velocity after the drag never points against the
/// velocity before it.
pub proof fn lemma_drag_never_reverses(v: Vector, c: int)
    requires
        0 <= c <= DRAG_C_MAX,
    ensures
        dragged(v, c).keeps_direction_of(v),
        dragged(v, c).dot(v) >= 0,
        damped(v, c).keeps_direction_of(v),
        damped(v, c).dot(v) >= 0,
{
    lemma_scale_takes_part(v.x, c);
    lemma_scale_takes_part(v.y, c);
    lemma_scale_takes_part(v.z, c);
    let speed = v.norm();
    if REST_SPEED < speed {
        lemma_norm_bounds(v, mag(v.x) + mag(v.y) + mag(v.z));
        lemma_resistance_takes_part(v.x, speed, c);
        lemma_resistance_takes_part(v.y, speed, c);
        lemma_resistance_takes_part(v.z, speed, c);
    }
    lemma_kept_direction_is_not_reversed(dragged(v, c), v);
    lemma_kept_direction_is_not_reversed(damped(v, c), v);
}

/// Within one integration step the drag never reverses the velocity that the
/// buoyancy has left, nor the angular velocity, whatever the height of the
/// body and the buoyancy coefficients: only the two drag coefficients have to
/// lie in the range that the control panel offers.
pub proof fn lemma_step_never_reverses(object: MovingObject, config: ConfigValues)
    requires
        0 <= config.drag_c <= DRAG_C_MAX,
        0 <= config.drag_ang_c <= DRAG_ANG_C_MAX,
    ensures
        linvel_after(object, config).keeps_direction_of(linvel_lifted(object, config)),
        angvel_after(object, config).keeps_direction_of(object.velocity.angvel@),
{
    lemma_drag_never_reverses(linvel_lifted(object, config), config.drag_c as int);
    lemma_drag_never_reverses(object.velocity.angvel@, config.drag_ang_c as int);
}

/// [`buoyancy_of`], computed wide.
fn buoyancy_wide(y: i64, avg_boat_height: i64, floating_c: i64) -> (lift: i128)
    ensures
        lift == buoyancy_of(y as int, avg_boat_height as int, floating_c as int),
        mag(lift as int) <= 0x4000_0000_0000_0000_0000_0000_0000_0000,
{
    let depth: i128 = -(y as i128);
    let reach: i128 = if y >= 0 {
        0
    } else if depth > avg_boat_height as i128 {
        avg_boat_height as i128
    } else {
        depth
    };
    proof {
        lemma_product_is_wide(reach as int, floating_c as int);
        lemma_scale_bound(
            reach as int,
            floating_c as int,
            0x8000_0000_0000_0000,
            0x8000_0000_0000_0000,
        );
        if y >= 0 {
            assert(0 * floating_c == 0);
        }
    }
    scaled_wide(reach, floating_c as i128)
}

/// One component of [`dragged`], computed wide.
fn dragged_component(v: i64, c: i64) -> (r: i128)
    ensures
        r == v - scale(v as int, c as int),
{
    proof {
        lemma_product_is_wide(v as int, c as int);
        lemma_scale_bound(v as int, c as int, 0x8000_0000_0000_0000, 0x8000_0000_0000_0000);
    }
    v as i128 - scaled_wide(v as i128, c as i128)
}

/// [`dragged`], computed wide.
fn dragged_wide(v: Vec3, c: i64) -> (r: WideVec3)
    ensures
        r@ == dragged(v@, c as int),
{
    WideVec3 {
        x: dragged_component(v.x, c),
        y: dragged_component(v.y, c),
        z: dragged_component(v.z, c),
    }
}

/// One component of [`damped`], computed wide, for a velocity of length
/// `speed`.
fn damped_component(w: i64, speed: u64, c: i64) -> (r: i128)
    requires
        0 < speed,
        mag(w as int) <= speed,
    ensures
        r == w - resistance(w as int, speed as int, c as int),
{
    let wide_speed: i128 = speed as i128;
    proof {
        lemma_ratio(w as int, speed as int);
    }
    let direction: i128 = ratio_wide(w as i128, wide_speed);
    proof {
        lemma_scale_bound(direction as int, c as int, UNIT as int, 0x8000_0000_0000_0000);
        lemma_mag_fits_wide(direction as int, c as int);
    }
    let share: i128 = scaled_wide(direction, c as i128);
    proof {
        lemma_scale_bound(
            share as int,
            speed as int,
            0x8000_0000_0000_0000,
            0xffff_ffff_ffff_ffff,
        );
        lemma_mag_fits_wide(share as int, speed as int);
    }
    w as i128 - scaled_wide(share, wide_speed)
}

/// A product is within the range of a wide number when the product of the
/// magnitudes is.
proof fn lemma_mag_fits_wide(a: int, b: int)
    requires
        mag(a) * mag(b) <= i128::MAX,
    ensures
        i128::MIN < a * b <= i128::MAX,
{
    lemma_mag_mul(a, b);
}

/// [`damped`], computed wide.
fn damped_wide(w: Vec3, c: i64) -> (r: WideVec3)
    ensures
        r@ == damped(w@, c as int),
{
    proof {
        lemma_norm_bounds(w@, 0x8000_0000_0000_0000);
    }
    let speed: u64 = w.length();
    if speed > 1_000 {
        WideVec3 {
            x: damped_component(w.x, speed, c),
            y: damped_component(w.y, speed, c),
            z: damped_component(w.z, speed, c),
        }
    } else {
        WideVec3 { x: w.x as i128, y: w.y as i128, z: w.z as i128 }
    }
}

/// Upward change of velocity that the water gives a body whose origin is at
/// height `y`.
pub fn buoyancy(y: i64, avg_boat_height: i64, floating_c: i64) -> (lift: i64)
    requires
        fits(buoyancy_of(y as int, avg_boat_height as int, floating_c as int)),
    ensures
        lift == buoyancy_of(y as int, avg_boat_height as int, floating_c as int),
        y >= 0 ==> lift == 0,
{
    buoyancy_wide(y, avg_boat_height, floating_c) as i64
}

/// Drag on a linear velocity: the velocity loses its `drag_c`-fold.
pub fn linear_drag(v: Vec3, drag_c: i64) -> (r: Vec3)
    requires
        dragged(v@, drag_c as int).representable(),
    ensures
        r@ == dragged(v@, drag_c as int),
{
    dragged_wide(v, drag_c).narrowed()
}

/// Drag on an angular velocity: if it is faster than `REST_SPEED`, it loses
/// the `drag_ang_c`-fold of its speed along its direction.
pub fn angular_drag(w: Vec3, drag_ang_c: i64) -> (r: Vec3)
    requires
        damped(w@, drag_ang_c as int).representable(),
    ensures
        r@ == damped(w@, drag_ang_c as int),
{
    damped_wide(w, drag_ang_c).narrowed()
}

/// The linear velocity of `object` once the buoyancy has acted on it,
/// computed wide.
fn lifted_wide(object: &MovingObject, config: &ConfigValues) -> (r: WideVec3)
    ensures
        r@ == linvel_lifted(*object, *config),
{
    let lift: i128 = buoyancy_wide(object.height, config.avg_boat_height, config.floating_c);
    let linvel = object.velocity.linvel;
    WideVec3 { x: linvel.x as i128, y: linvel.y as i128 + lift, z: linvel.z as i128 }
}

/// Executable form of [`steppable`].
pub fn is_steppable(object: &MovingObject, config: &ConfigValues) -> (ok: bool)
    ensures
        ok == steppable(*object, *config),
{
    let risen = lifted_wide(object, config);
    if !risen.is_narrow() {
        return false;
    }
    dragged_wide(risen.narrowed(), config.drag_c).is_narrow() && damped_wide(
        object.velocity.angvel,
        config.drag_ang_c,
    ).is_narrow()
}

/// One integration step on one body: buoyancy on the vertical velocity, then
/// drag on the linear velocity, and drag on the angular velocity.
pub fn step_object(object: MovingObject, config: &ConfigValues) -> (after: MovingObject)
    requires
        steppable(object, *config),
    ensures
        stepped(object, after, *config),
{
    let risen = lifted_wide(&object, config).narrowed();
    MovingObject {
        height: object.height,
        velocity: Velocity {
            linvel: linear_drag(risen, config.drag_c),
            angvel: angular_drag(object.velocity.angvel, config.drag_ang_c),
        },
    }
}

/// One integration step on every floating body.
pub fn add_env_forces(floating_objects: &mut Vec<MovingObject>, config: &ConfigValues)
    requires
        forall|i: int|
            0 <= i < old(floating_objects).len() ==> steppable(
                #[trigger] old(floating_objects)[i],
                *config,
            ),
    ensures
        final(floating_objects).len() == old(floating_objects).len(),
        forall|i: int|
            0 <= i < old(floating_objects).len() ==> stepped(
                old(floating_objects)[i],
                #[trigger] final(floating_objects)[i],
                *config,
            ),
{
    let count: usize = floating_objects.len();
    let mut index: usize = 0;
    while index < count
        invariant
            index <= count,
            count == floating_objects.len(),
            floating_objects.len() == old(floating_objects).len(),
            forall|i: int|
                0 <= i < count ==> steppable(#[trigger] old(floating_objects)[i], *config),
            forall|i: int|
                0 <= i < index ==> stepped(
                    old(floating_objects)[i],
                    #[trigger] floating_objects[i],
                    *config,
                ),
            forall|i: int| index <= i < count ==> floating_objects[i] == old(floating_objects)[i],
        decreases count - index,
    {
        let after = step_object(floating_objects[index], config);
        floating_objects.set(index, after);
        index += 1;
    }
}

} // verus!
