//! Three-dimensional vectors of fixed-point components.

use vstd::prelude::*;
use crate::units::{
    fits, is_sqrt_floor, isqrt, lemma_sqrt_floor, lemma_square_order, mag, magnitude,
    narrow_enough, scale, sqrt_floor,
};

verus! {

/// A vector of three fixed-point components, as the simulation holds it.
#[derive(Clone, Copy, Debug, PartialEq, Eq, Structural)]
pub struct Vec3 {
    pub x: i64,
    pub y: i64,
    pub z: i64,
}

/// The mathematical vector that a [`Vec3`] stands for: its components are
/// unbounded integers, still counting millionths.
pub struct Vector {
    pub x: int,
    pub y: int,
    pub z: int,
}

impl Vector {
    /// Whether every component has a magnitude of at most `bound`.
    pub open spec fn within(self, bound: int) -> bool {
        mag(self.x) <= bound && mag(self.y) <= bound && mag(self.z) <= bound
    }

    /// Whether every component can be held in an `i64`.
    pub open spec fn representable(self) -> bool {
        fits(self.x) && fits(self.y) && fits(self.z)
    }

    /// Sum of the squares of the components.
    pub open spec fn norm_squared(self) -> int {
        self.x * self.x + self.y * self.y + self.z * self.z
    }

    /// Euclidean length, rounded down to a whole raw step.
    pub open spec fn norm(self) -> int {
        sqrt_floor(self.norm_squared())
    }

    /// Square of the length of the projection onto the horizontal plane (the
    /// `x` and `z` axes).
    pub open spec fn norm_xz_squared(self) -> int {
        self.x * self.x + self.z * self.z
    }

    /// Length of the projection onto the horizontal plane, rounded down to a
    /// whole raw step.
    pub open spec fn norm_xz(self) -> int {
        sqrt_floor(self.norm_xz_squared())
    }

    /// Scalar product with `other`, in squared raw steps.
    pub open spec fn dot(self, other: Vector) -> int {
        self.x * other.x + self.y * other.y + self.z * other.z
    }

    /// The vector pointing the opposite way.
    pub open spec fn opposite(self) -> Vector {
        Vector { x: -self.x, y: -self.y, z: -self.z }
    }

    /// Every component multiplied by the fixed-point factor `c`.
    pub open spec fn scaled(self, c: int) -> Vector {
        Vector { x: scale(self.x, c), y: scale(self.y, c), z: scale(self.z, c) }
    }

    /// Whether no component of `self` points against the same component of
    /// `earlier` or exceeds it in magnitude: each one kept its sign or came to
    /// rest.
    pub open spec fn keeps_direction_of(self, earlier: Vector) -> bool {
        &&& same_way(self.x, earlier.x)
        &&& same_way(self.y, earlier.y)
        &&& same_way(self.z, earlier.z)
    }
}

/// Whether `after` lies between zero and `before`, both included.
pub open spec fn same_way(after: int, before: int) -> bool {
    if before >= 0 {
        0 <= after <= before
    } else {
        before <= after <= 0
    }
}

impl View for Vec3 {
    type V = Vector;

    open spec fn view(&self) -> Vector {
        Vector { x: self.x as int, y: self.y as int, z: self.z as int }
    }
}

/// A vector of wide components, for a result that a [`Vec3`] may not hold.
#[derive(Clone, Copy, Debug, PartialEq, Eq, Structural)]
pub struct WideVec3 {
    pub x: i128,
    pub y: i128,
    pub z: i128,
}

impl View for WideVec3 {
    type V = Vector;

    open spec fn view(&self) -> Vector {
        Vector { x: self.x as int, y: self.y as int, z: self.z as int }
    }
}

impl WideVec3 {
    /// Whether a [`Vec3`] can hold the vector.
    pub fn is_narrow(&self) -> (ok: bool)
        ensures
            ok == self@.representable(),
    {
        narrow_enough(self.x) && narrow_enough(self.y) && narrow_enough(self.z)
    }

    /// The same vector as a [`Vec3`].
    pub fn narrowed(&self) -> (v: Vec3)
        requires
            self@.representable(),
        ensures
            v@ == self@,
    {
        Vec3 { x: self.x as i64, y: self.y as i64, z: self.z as i64 }
    }
}

/// A vector that keeps the direction of an earlier one does not point
/// against it: their scalar product is not negative.
pub proof fn lemma_kept_direction_is_not_reversed(later: Vector, earlier: Vector)
    requires
        later.keeps_direction_of(earlier),
    ensures
        later.dot(earlier) >= 0,
{
    assert(later.x * earlier.x >= 0 && later.y * earlier.y >= 0 && later.z * earlier.z >= 0)
        by (nonlinear_arith)
        requires
            same_way(later.x, earlier.x),
            same_way(later.y, earlier.y),
            same_way(later.z, earlier.z),
    ;
}

/// The length of a vector is at least the magnitude of each component and
/// less than twice the largest of them.
pub proof fn lemma_norm_bounds(v: Vector, bound: int)
    requires
        v.within(bound),
    ensures
        0 <= v.norm() <= 2 * bound,
        is_sqrt_floor(v.norm_squared(), v.norm()),
        mag(v.x) <= v.norm(),
        mag(v.y) <= v.norm(),
        mag(v.z) <= v.norm(),
{
    let (x, y, z) = (mag(v.x), mag(v.y), mag(v.z));
    let n = v.norm_squared();
    assert(v.x * v.x == x * x && v.y * v.y == y * y && v.z * v.z == z * z) by (nonlinear_arith)
        requires
            x == mag(v.x),
            y == mag(v.y),
            z == mag(v.z),
    ;
    assert(0 <= x * x <= bound * bound && 0 <= y * y <= bound * bound && 0 <= z * z <= bound
        * bound) by (nonlinear_arith)
        requires
            0 <= x <= bound,
            0 <= y <= bound,
            0 <= z <= bound,
    ;
    lemma_sqrt_floor(n);
    let s = v.norm();
    lemma_square_order(x, s + 1);
    lemma_square_order(y, s + 1);
    lemma_square_order(z, s + 1);
    assert((2 * bound + 1) * (2 * bound + 1) > 3 * (bound * bound)) by (nonlinear_arith)
        requires
            0 <= bound,
    ;
    lemma_square_order(s, 2 * bound + 1);
}

/// Square of the magnitude of `x`, which always fits 127 bits.
fn square(x: i64) -> (r: u128)
    ensures
        r == x * x,
        r <= 0x4000_0000_0000_0000_0000_0000_0000_0000u128,
{
    let m: u128 = magnitude(x) as u128;
    assert(m * m <= 0x4000_0000_0000_0000_0000_0000_0000_0000int && m * m == x * x)
        by (nonlinear_arith)
        requires
            0 <= m <= 0x8000_0000_0000_0000,
            m == mag(x as int),
    ;
    m * m
}

impl Vec3 {
    /// The vector with the given components.
    pub fn new(x: i64, y: i64, z: i64) -> (v: Vec3)
        ensures
            v == (Vec3 { x, y, z }),
    {
        Vec3 { x, y, z }
    }

    /// Euclidean length of the vector, rounded down to a whole raw step.
    pub fn length(&self) -> (r: u64)
        ensures
            r == self@.norm(),
            is_sqrt_floor(self@.norm_squared(), r as int),
    {
        isqrt(square(self.x) + square(self.y) + square(self.z))
    }
}

/// Square of the length of the projection of `value` onto the horizontal
/// plane: the square of the speed over the water, exactly.
pub fn length_xz_squared(value: &Vec3) -> (r: u128)
    ensures
        r == value@.norm_xz_squared(),
{
    square(value.x) + square(value.z)
}

/// Length of the projection of `value` onto the horizontal plane: the speed
/// over the water of a velocity, whatever its vertical component, rounded
/// down to a whole raw step.
pub fn length_xz(value: &Vec3) -> (r: u64)
    ensures
        r == value@.norm_xz(),
        is_sqrt_floor(value@.norm_xz_squared(), r as int),
{
    isqrt(length_xz_squared(value))
}

} // verus!
