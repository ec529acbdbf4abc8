//! Generic vector in 3 dimensions.
//!
//! `Vec3<T>` is generic over its scalar; the renderer instantiates it at the
//! fixed-point scalar [`Fx`], for which every operation has an exact meaning.
//! The generic operations state their results through the spec-level
//! counterparts of the scalar's own operators.

use vstd::prelude::*;
use vstd::std_specs::ops::*;
use core::ops::Neg;
use crate::fixed::{Fx, fxv, fx_add, fx_sub, fx_mul, fx_div, fx_sqrt, fx_neg, sat64, iabs};

verus! {

#[derive(Debug, Clone, Copy, PartialEq, Eq, PartialOrd, Ord, Structural)]
pub enum VectorError {
    InvalidOperation,
}

/// Generic vector in 3 dimensions.
#[derive(Debug, Clone, Copy, PartialEq, Eq)]
pub struct Vec3<T> {
    pub x: T,
    pub y: T,
    pub z: T,
}

/// A scalar with a known zero element.
pub trait ZeroValue: Sized {
    /// The zero element, at the specification level.
    spec fn zero_spec() -> Self;

    /// The zero element.
    fn zero_value() -> (r: Self)
        ensures
            r == Self::zero_spec(),
    ;
}

impl ZeroValue for Fx {
    open spec fn zero_spec() -> Fx {
        fxv(0)
    }

    fn zero_value() -> (r: Fx) {
        Fx::zero()
    }
}

impl ZeroValue for i32 {
    open spec fn zero_spec() -> i32 {
        0
    }

    fn zero_value() -> (r: i32) {
        0
    }
}

impl ZeroValue for i64 {
    open spec fn zero_spec() -> i64 {
        0
    }

    fn zero_value() -> (r: i64) {
        0
    }
}

impl<T> Vec3<T> {
    /// Create a new vector.
    pub fn new(x: T, y: T, z: T) -> (r: Vec3<T>)
        ensures
            r == (Vec3 { x, y, z }),
    {
        Vec3 { x, y, z }
    }
}

impl<T: ZeroValue> Vec3<T> {
    /// Return a vector with all elements equal to zero.
    pub fn zero() -> (r: Vec3<T>)
        ensures
            r == (Vec3 { x: T::zero_spec(), y: T::zero_spec(), z: T::zero_spec() }),
    {
        Vec3 { x: T::zero_value(), y: T::zero_value(), z: T::zero_value() }
    }
}

impl<T: core::ops::Add<Output = T> + core::ops::Mul<Output = T> + core::ops::Sub<Output = T> + Copy> Vec3<T> {
    /// The dot product, at the specification level.
    pub open spec fn spec_dot(self, other: Vec3<T>) -> T {
        self.x.mul_spec(other.x).add_spec(self.y.mul_spec(other.y)).add_spec(
            self.z.mul_spec(other.z),
        )
    }

    /// The scalar operations taken by the dot product are within their domains.
    pub open spec fn dot_req(self, other: Vec3<T>) -> bool {
        &&& self.x.mul_req(other.x)
        &&& self.y.mul_req(other.y)
        &&& self.z.mul_req(other.z)
        &&& self.x.mul_spec(other.x).add_req(self.y.mul_spec(other.y))
        &&& self.x.mul_spec(other.x).add_spec(self.y.mul_spec(other.y)).add_req(
            self.z.mul_spec(other.z),
        )
    }

    /// Calculate the vector dot product.
    pub fn dot(&self, other: &Vec3<T>) -> (r: T)
        requires
            T::obeys_add_spec(),
            T::obeys_mul_spec(),
            self.dot_req(*other),
        ensures
            r == self.spec_dot(*other),
    {
        self.x * other.x + self.y * other.y + self.z * other.z
    }

    /// The cross product, at the specification level.
    pub open spec fn spec_cross(self, other: Vec3<T>) -> Vec3<T> {
        Vec3 {
            x: self.y.mul_spec(other.z).sub_spec(self.z.mul_spec(other.y)),
            y: self.z.mul_spec(other.x).sub_spec(self.x.mul_spec(other.z)),
            z: self.x.mul_spec(other.y).sub_spec(self.y.mul_spec(other.x)),
        }
    }

    /// The scalar operations taken by the cross product are within their domains.
    pub open spec fn cross_req(self, other: Vec3<T>) -> bool {
        &&& self.y.mul_req(other.z)
        &&& self.z.mul_req(other.y)
        &&& self.z.mul_req(other.x)
        &&& self.x.mul_req(other.z)
        &&& self.x.mul_req(other.y)
        &&& self.y.mul_req(other.x)
        &&& self.y.mul_spec(other.z).sub_req(self.z.mul_spec(other.y))
        &&& self.z.mul_spec(other.x).sub_req(self.x.mul_spec(other.z))
        &&& self.x.mul_spec(other.y).sub_req(self.y.mul_spec(other.x))
    }

    /// Calculate the cross product of this vector with another vector.
    pub fn cross(&self, other: &Vec3<T>) -> (r: Vec3<T>)
        requires
            T::obeys_sub_spec(),
            T::obeys_mul_spec(),
            self.cross_req(*other),
        ensures
            r == self.spec_cross(*other),
    {
        Vec3 {
            x: self.y * other.z - self.z * other.y,
            y: self.z * other.x - self.x * other.z,
            z: self.x * other.y - self.y * other.x,
        }
    }

    /// Calculate the sum of squares of the elements of the 3d vector.
    pub fn magnitude_squared(&self) -> (r: T)
        requires
            T::obeys_add_spec(),
            T::obeys_mul_spec(),
            self.dot_req(*self),
        ensures
            r == self.spec_dot(*self),
    {
        self.dot(self)
    }
}

impl<T: core::ops::Add<Output = T>> core::ops::Add for Vec3<T> {
    type Output = Vec3<T>;

    fn add(self, rhs: Vec3<T>) -> (r: Vec3<T>) {
        Vec3 { x: self.x + rhs.x, y: self.y + rhs.y, z: self.z + rhs.z }
    }
}

impl<T: core::ops::Add<Output = T>> AddSpecImpl for Vec3<T> {
    open spec fn obeys_add_spec() -> bool {
        T::obeys_add_spec()
    }

    open spec fn add_req(self, rhs: Vec3<T>) -> bool {
        self.x.add_req(rhs.x) && self.y.add_req(rhs.y) && self.z.add_req(rhs.z)
    }

    open spec fn add_spec(self, rhs: Vec3<T>) -> Vec3<T> {
        Vec3 { x: self.x.add_spec(rhs.x), y: self.y.add_spec(rhs.y), z: self.z.add_spec(rhs.z) }
    }
}

impl<T: core::ops::Sub<Output = T>> core::ops::Sub for Vec3<T> {
    type Output = Vec3<T>;

    fn sub(self, rhs: Vec3<T>) -> (r: Vec3<T>) {
        Vec3 { x: self.x - rhs.x, y: self.y - rhs.y, z: self.z - rhs.z }
    }
}

impl<T: core::ops::Sub<Output = T>> SubSpecImpl for Vec3<T> {
    open spec fn obeys_sub_spec() -> bool {
        T::obeys_sub_spec()
    }

    open spec fn sub_req(self, rhs: Vec3<T>) -> bool {
        self.x.sub_req(rhs.x) && self.y.sub_req(rhs.y) && self.z.sub_req(rhs.z)
    }

    open spec fn sub_spec(self, rhs: Vec3<T>) -> Vec3<T> {
        Vec3 { x: self.x.sub_spec(rhs.x), y: self.y.sub_spec(rhs.y), z: self.z.sub_spec(rhs.z) }
    }
}

impl<T: core::ops::Mul<Output = T> + Copy> core::ops::Mul<T> for Vec3<T> {
    type Output = Vec3<T>;

    fn mul(self, scalar: T) -> (r: Vec3<T>) {
        Vec3 { x: self.x * scalar, y: self.y * scalar, z: self.z * scalar }
    }
}

impl<T: core::ops::Mul<Output = T> + Copy> MulSpecImpl<T> for Vec3<T> {
    open spec fn obeys_mul_spec() -> bool {
        T::obeys_mul_spec()
    }

    open spec fn mul_req(self, rhs: T) -> bool {
        self.x.mul_req(rhs) && self.y.mul_req(rhs) && self.z.mul_req(rhs)
    }

    open spec fn mul_spec(self, rhs: T) -> Vec3<T> {
        Vec3 { x: self.x.mul_spec(rhs), y: self.y.mul_spec(rhs), z: self.z.mul_spec(rhs) }
    }
}

impl<T: core::ops::Div<Output = T> + Copy> core::ops::Div<T> for Vec3<T> {
    type Output = Vec3<T>;

    fn div(self, rhs: T) -> (r: Vec3<T>) {
        Vec3 { x: self.x / rhs, y: self.y / rhs, z: self.z / rhs }
    }
}

impl<T: core::ops::Div<Output = T> + Copy> DivSpecImpl<T> for Vec3<T> {
    open spec fn obeys_div_spec() -> bool {
        T::obeys_div_spec()
    }

    open spec fn div_req(self, rhs: T) -> bool {
        self.x.div_req(rhs) && self.y.div_req(rhs) && self.z.div_req(rhs)
    }

    open spec fn div_spec(self, rhs: T) -> Vec3<T> {
        Vec3 { x: self.x.div_spec(rhs), y: self.y.div_spec(rhs), z: self.z.div_spec(rhs) }
    }
}

impl<T: core::ops::Neg<Output = T>> core::ops::Neg for Vec3<T> {
    type Output = Vec3<T>;

    fn neg(self) -> (r: Vec3<T>) {
        Vec3 { x: self.x.neg(), y: self.y.neg(), z: self.z.neg() }
    }
}

impl<T: core::ops::Neg<Output = T>> NegSpecImpl for Vec3<T> {
    open spec fn obeys_neg_spec() -> bool {
        T::obeys_neg_spec()
    }

    open spec fn neg_req(self) -> bool {
        self.x.neg_req() && self.y.neg_req() && self.z.neg_req()
    }

    open spec fn neg_spec(self) -> Vec3<T> {
        Vec3 { x: self.x.neg_spec(), y: self.y.neg_spec(), z: self.z.neg_spec() }
    }
}

impl core::ops::Mul<Vec3<Fx>> for Fx {
    type Output = Vec3<Fx>;

    fn mul(self, vector: Vec3<Fx>) -> (r: Vec3<Fx>) {
        vector * self
    }
}

impl MulSpecImpl<Vec3<Fx>> for Fx {
    open spec fn obeys_mul_spec() -> bool {
        true
    }

    open spec fn mul_req(self, rhs: Vec3<Fx>) -> bool {
        true
    }

    open spec fn mul_spec(self, rhs: Vec3<Fx>) -> Vec3<Fx> {
        Vec3 {
            x: fxv(fx_mul(rhs.x@, self@)),
            y: fxv(fx_mul(rhs.y@, self@)),
            z: fxv(fx_mul(rhs.z@, self@)),
        }
    }
}

impl Vec3<Fx> {
    /// The dot product over the scalar's step counts.
    pub open spec fn dot_int(self, other: Vec3<Fx>) -> int {
        fx_add(
            fx_add(fx_mul(self.x@, other.x@), fx_mul(self.y@, other.y@)),
            fx_mul(self.z@, other.z@),
        )
    }

    /// The squared magnitude over the scalar's step counts.
    pub open spec fn mag_sq_int(self) -> int {
        self.dot_int(self)
    }

    /// The magnitude over the scalar's step counts.
    pub open spec fn magnitude_int(self) -> int {
        fx_sqrt(self.mag_sq_int())
    }

    /// A squared magnitude never comes out negative.
    pub proof fn lemma_mag_sq_nonneg(self)
        ensures
            self.mag_sq_int() >= 0,
    {
        assert(self.x@ * self.x@ >= 0) by (nonlinear_arith);
        assert(self.y@ * self.y@ >= 0) by (nonlinear_arith);
        assert(self.z@ * self.z@ >= 0) by (nonlinear_arith);
    }

    // Only the fixed-point scalar can take a magnitude, because the square
    // root leaves the integers.

    /// The Euclidean length, rounded down to the scalar's precision.
    pub fn magnitude(&self) -> (r: Fx)
        ensures
            r@ == self.magnitude_int(),
            r@ >= 0,
    {
        proof {
            self.lemma_mag_sq_nonneg();
        }
        let ms = self.magnitude_squared();
        ms.sqrt()
    }

    /// Scale to unit length, rounding each component down to the scalar's
    /// precision; a vector whose magnitude rounds to zero has no direction
    /// and is rejected.
    pub fn normalize(self) -> (r: Result<Vec3<Fx>, VectorError>)
        ensures
            self.magnitude_int() == 0 ==> r == Err::<Vec3<Fx>, VectorError>(
                VectorError::InvalidOperation,
            ),
            self.magnitude_int() != 0 ==> r == Ok::<Vec3<Fx>, VectorError>(
                self.spec_normalized(),
            ),
    {
        let mag = self.magnitude();
        if mag.bits == 0 {
            Err(VectorError::InvalidOperation)
        } else {
            Ok(Vec3::new(self.x / mag, self.y / mag, self.z / mag))
        }
    }

    /// The unit vector, at the specification level.
    pub open spec fn spec_normalized(self) -> Vec3<Fx> {
        let m = self.magnitude_int();
        Vec3 { x: fxv(fx_div(self.x@, m)), y: fxv(fx_div(self.y@, m)), z: fxv(fx_div(self.z@, m)) }
    }

    /// Whether every component is exactly zero.
    pub fn near_zero(&self) -> (r: bool)
        ensures
            r <==> (self.x@ == 0 && self.y@ == 0 && self.z@ == 0),
    {
        self.x.bits == 0 && self.y.bits == 0 && self.z.bits == 0
    }

    /// The mirror image about a normal, at the specification level:
    /// `v - 2 (v . n) n`.
    pub open spec fn spec_reflect(self, n: Vec3<Fx>) -> Vec3<Fx> {
        let twice = fx_mul(2 * crate::fixed::FX_ONE as int, self.dot_int(n));
        Vec3 {
            x: fxv(fx_sub(self.x@, fx_mul(n.x@, twice))),
            y: fxv(fx_sub(self.y@, fx_mul(n.y@, twice))),
            z: fxv(fx_sub(self.z@, fx_mul(n.z@, twice))),
        }
    }

    /// Reflect this vector about a surface normal.
    pub fn reflect(&self, normal: &Vec3<Fx>) -> (r: Vec3<Fx>)
        ensures
            r == self.spec_reflect(*normal),
    {
        let d = self.dot(normal);
        let twice = Fx::from_int(2) * d;
        *self - (*normal * twice)
    }

    /// The refraction of this (unit) vector through a surface with the given
    /// relative refraction ratio, at the specification level: the standard
    /// decomposition into a perpendicular and a parallel part.
    pub open spec fn spec_refract(self, n: Vec3<Fx>, etai_over_etat: Fx) -> Vec3<Fx> {
        let cos_theta = spec_fx_min(spec_neg_v(self).dot_int(n), crate::fixed::FX_ONE as int);
        let perp = spec_scale_v(
            spec_add_v(self, spec_scale_v(n, cos_theta)),
            etai_over_etat@,
        );
        let k = fx_sqrt(sat64(iabs(fx_sub(crate::fixed::FX_ONE as int, perp.mag_sq_int()))));
        spec_sub_v(perp, spec_scale_v(n, k))
    }

    /// Refract this (unit) vector through a surface with normal `n` by
    /// Snell's law, with the given ratio of refractive indices.
    pub fn refract(&self, n: &Vec3<Fx>, etai_over_etat: Fx) -> (r: Vec3<Fx>)
        ensures
            r == self.spec_refract(*n, etai_over_etat),
    {
        let cos_theta = (*self).neg().dot(n).min(Fx::one());
        let perp = (*self + (*n * cos_theta)) * etai_over_etat;
        let k = (Fx::one() - perp.magnitude_squared()).abs().sqrt();
        perp - (*n * k)
    }
}

/// The smaller of two spec-level scalars.
pub open spec fn spec_fx_min(a: int, b: int) -> int {
    if a <= b {
        a
    } else {
        b
    }
}

/// The larger of two spec-level scalars.
pub open spec fn spec_fx_max(a: int, b: int) -> int {
    if a >= b {
        a
    } else {
        b
    }
}

/// Componentwise vector sum over the fixed-point scalar.
pub open spec fn spec_add_v(a: Vec3<Fx>, b: Vec3<Fx>) -> Vec3<Fx> {
    Vec3 { x: fxv(fx_add(a.x@, b.x@)), y: fxv(fx_add(a.y@, b.y@)), z: fxv(fx_add(a.z@, b.z@)) }
}

/// Componentwise vector difference over the fixed-point scalar.
pub open spec fn spec_sub_v(a: Vec3<Fx>, b: Vec3<Fx>) -> Vec3<Fx> {
    Vec3 { x: fxv(fx_sub(a.x@, b.x@)), y: fxv(fx_sub(a.y@, b.y@)), z: fxv(fx_sub(a.z@, b.z@)) }
}

/// A vector scaled by a spec-level scalar.
pub open spec fn spec_scale_v(v: Vec3<Fx>, s: int) -> Vec3<Fx> {
    Vec3 { x: fxv(fx_mul(v.x@, s)), y: fxv(fx_mul(v.y@, s)), z: fxv(fx_mul(v.z@, s)) }
}

/// A vector divided componentwise by a spec-level scalar.
pub open spec fn spec_divs_v(v: Vec3<Fx>, s: int) -> Vec3<Fx>
    recommends
        s != 0,
{
    Vec3 { x: fxv(fx_div(v.x@, s)), y: fxv(fx_div(v.y@, s)), z: fxv(fx_div(v.z@, s)) }
}

/// The cross product over the fixed-point scalar.
pub open spec fn spec_cross_v(a: Vec3<Fx>, b: Vec3<Fx>) -> Vec3<Fx> {
    Vec3 {
        x: fxv(fx_sub(fx_mul(a.y@, b.z@), fx_mul(a.z@, b.y@))),
        y: fxv(fx_sub(fx_mul(a.z@, b.x@), fx_mul(a.x@, b.z@))),
        z: fxv(fx_sub(fx_mul(a.x@, b.y@), fx_mul(a.y@, b.x@))),
    }
}

/// A vector negated componentwise.
pub open spec fn spec_neg_v(v: Vec3<Fx>) -> Vec3<Fx> {
    Vec3 { x: fxv(fx_neg(v.x@)), y: fxv(fx_neg(v.y@)), z: fxv(fx_neg(v.z@)) }
}

} // verus!
