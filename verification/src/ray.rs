//! A ray: an origin point and a direction vector.

use vstd::prelude::*;
use vstd::std_specs::ops::*;
use crate::point::Point;
use crate::vector::Vec3;

verus! {

/// A half-line through space, parameterized as `origin + t * direction`.
#[derive(Debug, Clone, Copy, PartialEq, Eq)]
pub struct Ray<T> {
    pub origin: Point<T>,
    pub direction: Vec3<T>,
}

impl<T> Ray<T> {
    /// Create a ray from its origin and direction.
    pub fn new(origin: Point<T>, direction: Vec3<T>) -> (r: Ray<T>)
        ensures
            r.spec_origin() == origin,
            r.spec_direction() == direction,
    {
        Ray { origin, direction }
    }

    /// The direction, at the specification level.
    pub open spec fn spec_direction(self) -> Vec3<T> {
        self.direction
    }

    /// The origin, at the specification level.
    pub open spec fn spec_origin(self) -> Point<T> {
        self.origin
    }

    /// The direction the ray travels in.
    pub fn get_direction(&self) -> (r: &Vec3<T>)
        ensures
            *r == self.spec_direction(),
    {
        &self.direction
    }

    /// The point the ray starts from.
    pub fn get_origin(&self) -> (r: &Point<T>)
        ensures
            *r == self.spec_origin(),
    {
        &self.origin
    }
}

impl<T: core::ops::Add<Output = T> + core::ops::Mul<Output = T> + Copy> Ray<T> {
    /// Where the ray is after travelling for `time`, at the specification level.
    pub open spec fn spec_at(self, time: T) -> Point<T> {
        Point {
            x: self.origin.x.add_spec(self.direction.x.mul_spec(time)),
            y: self.origin.y.add_spec(self.direction.y.mul_spec(time)),
            z: self.origin.z.add_spec(self.direction.z.mul_spec(time)),
        }
    }

    /// The scalar operations taken by `at` are within their domains.
    pub open spec fn at_req(self, time: T) -> bool {
        &&& self.direction.x.mul_req(time)
        &&& self.direction.y.mul_req(time)
        &&& self.direction.z.mul_req(time)
        &&& self.origin.x.add_req(self.direction.x.mul_spec(time))
        &&& self.origin.y.add_req(self.direction.y.mul_spec(time))
        &&& self.origin.z.add_req(self.direction.z.mul_spec(time))
    }

    /// Where the ray is after travelling for `time`.
    pub fn at(&self, time: T) -> (r: Point<T>)
        requires
            T::obeys_add_spec(),
            T::obeys_mul_spec(),
            self.at_req(time),
        ensures
            r == self.spec_at(time),
    {
        self.origin + self.direction * time
    }
}

} // verus!
