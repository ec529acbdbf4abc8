//! The shapes a ray can hit: the sphere and the group of spheres.

use vstd::prelude::*;
use core::ops::Neg;
use crate::fixed::{Fx, fxv, fx_add, fx_sub, fx_mul, fx_div, fx_sqrt, fx_neg};
use crate::interval::Interval;
use crate::materials::Material;

use crate::point::Point;
use crate::ray::Ray;
use crate::vector::{Vec3, spec_neg_v, spec_divs_v};

verus! {

/// What a successful intersection test reports.  Transient: created per
/// test, consumed immediately by the scattering step.
#[derive(Debug, Clone, Copy, PartialEq, Eq)]
pub struct HitRecord {
    /// The point where the ray hit the object.
    pub point: Point<Fx>,
    /// The normal vector from the object face at the hit point, always
    /// oriented against the incoming ray.
    pub normal: Vec3<Fx>,
    /// The parameter t from the ray equation at the hit point.
    pub t: Fx,
    /// Whether the hit was on the front face of the object.
    pub front_face: bool,
    /// The material of the object that was hit.
    pub material: Material,
}

/// The capability of a scene object to report ray intersections.  `hit`
/// must report the nearest intersection whose parameter lies strictly
/// inside the interval, or nothing.
pub trait Hittable {
    /// The object's construction parameters are sound.
    spec fn wf(&self) -> bool;

    /// The exact intersection report, at the specification level.
    spec fn hit_spec(&self, ray: Ray<Fx>, ray_interval: Interval) -> Option<HitRecord>;

    /// Test the ray against this object within the interval.
    fn hit(&self, ray: &Ray<Fx>, ray_interval: Interval) -> (r: Option<HitRecord>)
        requires
            self.wf(),
        ensures
            r == self.hit_spec(*ray, ray_interval),
            r matches Some(rec) ==> rec.material.wf(),
    ;
}

/// A sphere, optionally carrying a velocity for motion-blurred scenes.
#[derive(Debug, Clone, Copy, PartialEq, Eq)]
pub struct Sphere {
    pub center: Point<Fx>,
    pub radius: Fx,
    pub material: Material,
    pub velocity: Vec3<Fx>,
}

impl Sphere {
    /// A resting sphere.  The radius must be positive: a non-positive
    /// radius is a caller error.
    pub fn new(center: Point<Fx>, radius: Fx, material: Material) -> (r: Sphere)
        requires
            radius@ > 0,
            material.wf(),
        ensures
            r == (Sphere { center, radius, material, velocity: Vec3 { x: fxv(0), y: fxv(0), z: fxv(0) } }),
    {
        let velocity = Vec3::<Fx>::zero();
        Sphere { center, radius, material, velocity }
    }

    /// A moving sphere.
    pub fn new_with_velocity(center: Point<Fx>, radius: Fx, material: Material, velocity: Vec3<Fx>)
        -> (r: Sphere)
        requires
            radius@ > 0,
            material.wf(),
        ensures
            r == (Sphere { center, radius, material, velocity }),
    {
        Sphere { center, radius, material, velocity }
    }

    /// The center at rest.
    pub fn get_center(&self) -> (r: Point<Fx>)
        ensures
            r == self.center,
    {
        self.center
    }

    /// The radius.
    pub fn get_radius(&self) -> (r: Fx)
        ensures
            r == self.radius,
    {
        self.radius
    }

    /// Where the center is after travelling for `time` along the velocity.
    pub fn at(&self, time: Fx) -> (r: Point<Fx>)
        ensures
            r == (Point {
                x: fxv(fx_add(self.center.x@, fx_mul(self.velocity.x@, time@))),
                y: fxv(fx_add(self.center.y@, fx_mul(self.velocity.y@, time@))),
                z: fxv(fx_add(self.center.z@, fx_mul(self.velocity.z@, time@))),
            }),
    {
        self.center + (time * self.velocity)
    }

    /// The same sphere with the given velocity.
    pub fn add_velocity(self, velocity: Vec3<Fx>) -> (r: Sphere)
        ensures
            r == (Sphere { velocity, ..self }),
    {
        Sphere { velocity, ..self }
    }

    /// `center - origin`, the vector from the ray start to the center.
    pub open spec fn sp_oc(self, ray: Ray<Fx>) -> Vec3<Fx> {
        Vec3 {
            x: fxv(fx_sub(self.center.x@, ray.origin.x@)),
            y: fxv(fx_sub(self.center.y@, ray.origin.y@)),
            z: fxv(fx_sub(self.center.z@, ray.origin.z@)),
        }
    }

    /// The quadratic coefficient `a = |direction|^2`.
    pub open spec fn sp_a(self, ray: Ray<Fx>) -> int {
        ray.direction.mag_sq_int()
    }

    /// The half-coefficient `h = direction . oc`.
    pub open spec fn sp_h(self, ray: Ray<Fx>) -> int {
        ray.direction.dot_int(self.sp_oc(ray))
    }

    /// The constant coefficient `c = |oc|^2 - radius^2`.
    pub open spec fn sp_c(self, ray: Ray<Fx>) -> int {
        fx_sub(self.sp_oc(ray).mag_sq_int(), fx_mul(self.radius@, self.radius@))
    }

    /// The discriminant `h^2 - a c` of the ray-sphere quadratic.
    pub open spec fn sp_disc(self, ray: Ray<Fx>) -> int {
        fx_sub(fx_mul(self.sp_h(ray), self.sp_h(ray)), fx_mul(self.sp_a(ray), self.sp_c(ray)))
    }

    /// The near root `(h - sqrt(disc)) / a`.
    pub open spec fn sp_near(self, ray: Ray<Fx>) -> int {
        fx_div(fx_sub(self.sp_h(ray), fx_sqrt(self.sp_disc(ray))), self.sp_a(ray))
    }

    /// The far root `(h + sqrt(disc)) / a`.
    pub open spec fn sp_far(self, ray: Ray<Fx>) -> int {
        fx_div(fx_add(self.sp_h(ray), fx_sqrt(self.sp_disc(ray))), self.sp_a(ray))
    }

    /// Which ray parameter the intersection test accepts: the near root if
    /// it lies strictly inside the interval, else the far root if it does,
    /// else none.  A negative discriminant or a degenerate direction yields
    /// none.
    pub open spec fn sp_chosen_t(self, ray: Ray<Fx>, itv: Interval) -> Option<int> {
        if self.sp_disc(ray) < 0 || self.sp_a(ray) == 0 {
            None
        } else if itv.min@ < self.sp_near(ray) < itv.max@ {
            Some(self.sp_near(ray))
        } else if itv.min@ < self.sp_far(ray) < itv.max@ {
            Some(self.sp_far(ray))
        } else {
            None
        }
    }

    /// The hit record the sphere reports for an accepted parameter `t`.
    pub open spec fn sp_record(self, ray: Ray<Fx>, t: int) -> HitRecord {
        let point = Point {
            x: fxv(fx_add(ray.origin.x@, fx_mul(ray.direction.x@, t))),
            y: fxv(fx_add(ray.origin.y@, fx_mul(ray.direction.y@, t))),
            z: fxv(fx_add(ray.origin.z@, fx_mul(ray.direction.z@, t))),
        };
        let outward = spec_divs_v(
            Vec3 {
                x: fxv(fx_sub(point.x@, self.center.x@)),
                y: fxv(fx_sub(point.y@, self.center.y@)),
                z: fxv(fx_sub(point.z@, self.center.z@)),
            },
            self.radius@,
        );
        let front_face = ray.direction.dot_int(outward) < 0;
        let normal = if front_face {
            outward
        } else {
            spec_neg_v(outward)
        };
        HitRecord { point, normal, t: fxv(t), front_face, material: self.material }
    }
}

impl Hittable for Sphere {
    open spec fn wf(&self) -> bool {
        self.radius@ > 0 && self.material.wf()
    }

    /// The record at the accepted parameter, if the quadratic has one inside
    /// the interval.
    open spec fn hit_spec(&self, ray: Ray<Fx>, ray_interval: Interval) -> Option<HitRecord> {
        match self.sp_chosen_t(ray, ray_interval) {
            Some(t) => Some(self.sp_record(ray, t)),
            None => None,
        }
    }

    fn hit(&self, ray: &Ray<Fx>, ray_interval: Interval) -> (r: Option<HitRecord>) {
        // solve our quadratic equation
        let oc = self.center - *ray.get_origin();
        let a = ray.get_direction().magnitude_squared();
        let h = ray.get_direction().dot(&oc);
        let c = oc.magnitude_squared() - self.radius * self.radius;
        let discriminant = h * h - a * c;

        if discriminant.bits() < 0 {
            return None;
        }
        if a.bits() == 0 {
            // a degenerate direction solves no quadratic
            return None;
        }

        // check which root is within the acceptable range, if any
        let sqrtd = discriminant.sqrt();
        let mut t = (h - sqrtd) / a;
        if !ray_interval.surrounds(t) {
            t = (h + sqrtd) / a;
            if !ray_interval.surrounds(t) {
                return None;
            }
        }

        let point = ray.at(t);
        let outward_normal = (point - self.center) / self.radius;
        let front_face = ray.get_direction().dot(&outward_normal).bits() < 0;
        let normal = if front_face {
            outward_normal
        } else {
            outward_normal.neg()
        };

        Some(HitRecord { point, normal, t, front_face, material: self.material })
    }
}

/// The progressive narrowing search over a sequence of objects: each object
/// is tested against `[lo, closest]`, and a hit narrows `closest` to its
/// parameter, so the record kept at the end is the nearest one found.
pub open spec fn scan_hits<T: Hittable>(
    objs: Seq<T>,
    ray: Ray<Fx>,
    lo: Fx,
    closest: Fx,
    acc: Option<HitRecord>,
) -> Option<HitRecord>
    decreases objs.len(),
{
    if objs.len() <= 0 {
        acc
    } else {
        match objs[0].hit_spec(ray, Interval { min: lo, max: closest }) {
            Some(rec) => scan_hits(objs.drop_first(), ray, lo, rec.t, Some(rec)),
            None => scan_hits(objs.drop_first(), ray, lo, closest, acc),
        }
    }
}

/// Group of hittable objects.
#[derive(Debug)]
pub struct Group<T> {
    pub objects: Vec<T>,
}

impl<T: Hittable> Group<T> {
    /// A group over the given objects.
    pub fn new(hittable_objects: Vec<T>) -> (r: Group<T>)
        ensures
            r.objects == hittable_objects,
    {
        Group { objects: hittable_objects }
    }
}

impl<T: Hittable> Hittable for Group<T> {
    open spec fn wf(&self) -> bool {
        forall|i: int| 0 <= i < self.objects@.len() ==> (#[trigger] self.objects@[i]).wf()
    }

    /// The nearest-hit search over the members, in order, with progressive
    /// narrowing of the upper bound.
    open spec fn hit_spec(&self, ray: Ray<Fx>, ray_interval: Interval) -> Option<HitRecord> {
        scan_hits(self.objects@, ray, ray_interval.min, ray_interval.max, None)
    }

    fn hit(&self, ray: &Ray<Fx>, ray_interval: Interval) -> (r: Option<HitRecord>) {
        let mut closest_so_far: Fx = ray_interval.max;
        let mut hit_record: Option<HitRecord> = None;
        let mut i: usize = 0;

        proof {
            assert(self.objects@.skip(0) =~= self.objects@);
        }
        while i < self.objects.len()
            invariant
                self.wf(),
                i <= self.objects@.len(),
                scan_hits(self.objects@.skip(i as int), *ray, ray_interval.min, closest_so_far, hit_record)
                    == self.hit_spec(*ray, ray_interval),
                hit_record matches Some(rec) ==> rec.material.wf(),
            decreases self.objects@.len() - i,
        {
            proof {
                assert(self.objects@.skip(i as int)[0] == self.objects@[i as int]);
                assert(self.objects@.skip(i as int).drop_first() =~= self.objects@.skip(i as int + 1));
            }
            let object = &self.objects[i];
            match object.hit(ray, Interval::new(ray_interval.min, closest_so_far)) {
                Some(new_hit_record) => {
                    closest_so_far = new_hit_record.t;
                    hit_record = Some(new_hit_record);
                }
                None => {},
            }
            i = i + 1;
        }
        hit_record
    }
}

} // verus!
