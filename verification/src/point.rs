//! Point in XYZ space.

use vstd::prelude::*;
use vstd::std_specs::ops::*;
use crate::vector::Vec3;

verus! {

/// Point in XYZ space.
#[derive(Debug, Clone, Copy, PartialEq, Eq)]
pub struct Point<T> {
    pub x: T,
    pub y: T,
    pub z: T,
}

impl<T> Point<T> {
    /// Create a new point in 3d space.
    pub fn new(x: T, y: T, z: T) -> (r: Point<T>)
        ensures
            r == (Point { x, y, z }),
    {
        Point { x, y, z }
    }
}

impl<T: core::ops::Sub<Output = T>> core::ops::Sub<Vec3<T>> for Point<T> {
    type Output = Point<T>;

    fn sub(self, rhs: Vec3<T>) -> (r: Point<T>) {
        Point { x: self.x - rhs.x, y: self.y - rhs.y, z: self.z - rhs.z }
    }
}

impl<T: core::ops::Sub<Output = T>> SubSpecImpl<Vec3<T>> for Point<T> {
    open spec fn obeys_sub_spec() -> bool {
        T::obeys_sub_spec()
    }

    open spec fn sub_req(self, rhs: Vec3<T>) -> bool {
        self.x.sub_req(rhs.x) && self.y.sub_req(rhs.y) && self.z.sub_req(rhs.z)
    }

    open spec fn sub_spec(self, rhs: Vec3<T>) -> Point<T> {
        Point { x: self.x.sub_spec(rhs.x), y: self.y.sub_spec(rhs.y), z: self.z.sub_spec(rhs.z) }
    }
}

impl<T: core::ops::Add<Output = T>> core::ops::Add<Vec3<T>> for Point<T> {
    type Output = Point<T>;

    fn add(self, rhs: Vec3<T>) -> (r: Point<T>) {
        Point { x: self.x + rhs.x, y: self.y + rhs.y, z: self.z + rhs.z }
    }
}

impl<T: core::ops::Add<Output = T>> AddSpecImpl<Vec3<T>> for Point<T> {
    open spec fn obeys_add_spec() -> bool {
        T::obeys_add_spec()
    }

    open spec fn add_req(self, rhs: Vec3<T>) -> bool {
        self.x.add_req(rhs.x) && self.y.add_req(rhs.y) && self.z.add_req(rhs.z)
    }

    open spec fn add_spec(self, rhs: Vec3<T>) -> Point<T> {
        Point { x: self.x.add_spec(rhs.x), y: self.y.add_spec(rhs.y), z: self.z.add_spec(rhs.z) }
    }
}

impl<T: core::ops::Add<Output = T>> core::ops::Add<Point<T>> for Vec3<T> {
    type Output = Point<T>;

    fn add(self, rhs: Point<T>) -> (r: Point<T>) {
        Point { x: self.x + rhs.x, y: self.y + rhs.y, z: self.z + rhs.z }
    }
}

impl<T: core::ops::Add<Output = T>> AddSpecImpl<Point<T>> for Vec3<T> {
    open spec fn obeys_add_spec() -> bool {
        T::obeys_add_spec()
    }

    open spec fn add_req(self, rhs: Point<T>) -> bool {
        self.x.add_req(rhs.x) && self.y.add_req(rhs.y) && self.z.add_req(rhs.z)
    }

    open spec fn add_spec(self, rhs: Point<T>) -> Point<T> {
        Point { x: self.x.add_spec(rhs.x), y: self.y.add_spec(rhs.y), z: self.z.add_spec(rhs.z) }
    }
}

impl<T: core::ops::Sub<Output = T>> core::ops::Sub for Point<T> {
    type Output = Vec3<T>;

    /// Create a vector from the two points by subtraction.
    fn sub(self, rhs: Point<T>) -> (r: Vec3<T>) {
        Vec3 { x: self.x - rhs.x, y: self.y - rhs.y, z: self.z - rhs.z }
    }
}

impl<T: core::ops::Sub<Output = T>> SubSpecImpl for Point<T> {
    open spec fn obeys_sub_spec() -> bool {
        T::obeys_sub_spec()
    }

    open spec fn sub_req(self, rhs: Point<T>) -> bool {
        self.x.sub_req(rhs.x) && self.y.sub_req(rhs.y) && self.z.sub_req(rhs.z)
    }

    open spec fn sub_spec(self, rhs: Point<T>) -> Vec3<T> {
        Vec3 { x: self.x.sub_spec(rhs.x), y: self.y.sub_spec(rhs.y), z: self.z.sub_spec(rhs.z) }
    }
}

} // verus!
