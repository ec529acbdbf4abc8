//! The materials: how a surface responds to an incoming ray at a hit point.
//!
//! Each material is a `Scatterer`: from an incoming ray, a hit record and a
//! pre-drawn random sample it either produces a scattered ray together with
//! an attenuation color, or absorbs the ray.  The known materials form the
//! closed union [`Material`], dispatched by pattern matching.

use vstd::prelude::*;
use core::ops::Neg;
use crate::color::Color;
use crate::fixed::{Fx, FX_ONE, fxv, fx_add, fx_sub, fx_mul, fx_div, fx_sqrt, sat64, iabs};
use crate::ray::Ray;
use crate::shapes::HitRecord;
use crate::vector::{Vec3, spec_add_v, spec_neg_v, spec_fx_min, spec_fx_max};

verus! {

/// The random draws a scattering step may consume: a unit-length direction
/// in the hemisphere of the surface normal, and a uniform draw in `[0, 1)`.
/// They are drawn by the caller, so a deterministic source can be
/// substituted.
#[derive(Debug, Clone, Copy, PartialEq, Eq)]
pub struct ScatterSample {
    pub hemisphere_unit: Vec3<Fx>,
    pub uniform: Fx,
}

/// A material's response to an incoming ray at a hit point.  `None` means
/// the ray is absorbed.
pub trait Scatterer {
    /// The material's construction parameters are sound.
    spec fn wf(&self) -> bool;

    /// The exact response, at the specification level.
    spec fn scatter_spec(&self, ray_in: Ray<Fx>, hit_record: HitRecord, sample: ScatterSample)
        -> Option<(Ray<Fx>, Color)>;

    /// Scatter the incoming ray at the hit point.
    fn scatter(&self, ray_in: &Ray<Fx>, hit_record: &HitRecord, sample: &ScatterSample) -> (r:
        Option<(Ray<Fx>, Color)>)
        requires
            self.wf(),
        ensures
            r == self.scatter_spec(*ray_in, *hit_record, *sample),
    ;
}

/// Lambertian diffuse material.
#[derive(Debug, Clone, Copy, PartialEq, Eq)]
pub struct LambertianMaterial {
    pub albedo: Color,
}

impl LambertianMaterial {
    /// A diffuse material with the given base reflectance.
    pub fn new(albedo: Color) -> (r: LambertianMaterial)
        ensures
            r.albedo == albedo,
    {
        LambertianMaterial { albedo }
    }

    /// The scattered direction is the surface normal plus the sampled unit
    /// vector; if that sum is exactly zero the normal itself stands in.  The
    /// attenuation is always the albedo.
    pub open spec fn scatter_model(self, ray_in: Ray<Fx>, hit_record: HitRecord, sample: ScatterSample)
        -> Option<(Ray<Fx>, Color)> {
        let summed = spec_add_v(hit_record.normal, sample.hemisphere_unit);
        let direction = if summed.x@ == 0 && summed.y@ == 0 && summed.z@ == 0 {
            hit_record.normal
        } else {
            summed
        };
        Some((Ray { origin: hit_record.point, direction }, self.albedo))
    }
}

impl Scatterer for LambertianMaterial {
    open spec fn wf(&self) -> bool {
        true
    }

    open spec fn scatter_spec(&self, ray_in: Ray<Fx>, hit_record: HitRecord, sample: ScatterSample)
        -> Option<(Ray<Fx>, Color)> {
        self.scatter_model(ray_in, hit_record, sample)
    }

    fn scatter(&self, ray_in: &Ray<Fx>, hit_record: &HitRecord, sample: &ScatterSample) -> (r:
        Option<(Ray<Fx>, Color)>) {
        let scatter_direction = hit_record.normal + sample.hemisphere_unit;
        let scatter_direction = if scatter_direction.near_zero() {
            hit_record.normal
        } else {
            scatter_direction
        };
        let scattered_ray = Ray::new(hit_record.point, scatter_direction);
        Some((scattered_ray, self.albedo))
    }
}

/// Polished metal: a perfect mirror.
#[derive(Debug, Clone, Copy, PartialEq, Eq)]
pub struct MetalMaterial {
    pub albedo: Color,
}

impl MetalMaterial {
    /// A mirror material with the given base reflectance.
    pub fn new(albedo: Color) -> (r: MetalMaterial)
        ensures
            r.albedo == albedo,
    {
        MetalMaterial { albedo }
    }

    /// The scattered direction is the mirror image `d - 2 (d . n) n` of the
    /// incoming direction about the normal; the attenuation is the albedo.
    pub open spec fn scatter_model(self, ray_in: Ray<Fx>, hit_record: HitRecord, sample: ScatterSample)
        -> Option<(Ray<Fx>, Color)> {
        let direction = ray_in.direction.spec_reflect(hit_record.normal);
        Some((Ray { origin: hit_record.point, direction }, self.albedo))
    }
}

impl Scatterer for MetalMaterial {
    open spec fn wf(&self) -> bool {
        true
    }

    open spec fn scatter_spec(&self, ray_in: Ray<Fx>, hit_record: HitRecord, sample: ScatterSample)
        -> Option<(Ray<Fx>, Color)> {
        self.scatter_model(ray_in, hit_record, sample)
    }

    fn scatter(&self, ray_in: &Ray<Fx>, hit_record: &HitRecord, sample: &ScatterSample) -> (r:
        Option<(Ray<Fx>, Color)>) {
        let reflection_direction = ray_in.get_direction().reflect(&hit_record.normal);
        let scattered_ray = Ray::new(hit_record.point, reflection_direction);
        Some((scattered_ray, self.albedo))
    }
}

/// Refractive material.
#[derive(Debug, Clone, Copy, PartialEq, Eq)]
pub struct DielectricMaterial {
    pub refraction_index: Fx,
}

/// The Schlick approximation of Fresnel reflectance:
/// `r0 + (1 - r0) (1 - cosine)^5` with `r0 = ((1 - ri) / (1 + ri))^2`.
pub open spec fn spec_reflectance(cosine: int, refraction_index: int) -> int
    recommends
        fx_add(FX_ONE as int, refraction_index) != 0,
{
    let r0a = fx_div(fx_sub(FX_ONE as int, refraction_index), fx_add(FX_ONE as int, refraction_index));
    let r0 = fx_mul(r0a, r0a);
    let p = fx_sub(FX_ONE as int, cosine);
    let p2 = fx_mul(p, p);
    let p4 = fx_mul(p2, p2);
    let p5 = fx_mul(p4, p);
    fx_add(r0, fx_mul(fx_sub(FX_ONE as int, r0), p5))
}

impl DielectricMaterial {
    /// A refractive material with the given index of refraction, which must
    /// be positive.
    pub fn new(refraction_index: Fx) -> (r: DielectricMaterial)
        requires
            refraction_index@ > 0,
        ensures
            r.refraction_index == refraction_index,
    {
        DielectricMaterial { refraction_index }
    }

    /// The relative refraction ratio for the side of the surface being hit.
    pub open spec fn sp_ri(self, front_face: bool) -> int {
        if front_face {
            fx_div(FX_ONE as int, self.refraction_index@)
        } else {
            self.refraction_index@
        }
    }

    fn reflectance(cosine: Fx, refraction_index: Fx) -> (r: Fx)
        requires
            fx_add(FX_ONE as int, refraction_index@) != 0,
        ensures
            r@ == spec_reflectance(cosine@, refraction_index@),
    {
        let r0 = (Fx::one() - refraction_index) / (Fx::one() + refraction_index);
        let r0 = r0 * r0;
        let p = Fx::one() - cosine;
        let p2 = p * p;
        let p4 = p2 * p2;
        let p5 = p4 * p;
        r0 + (Fx::one() - r0) * p5
    }

    /// The incoming direction is normalized (a degenerate zero direction
    /// falls back to the surface normal).  The ray reflects on total internal
    /// reflection, or when the Schlick reflectance exceeds the uniform draw;
    /// otherwise it refracts by Snell's law.  The attenuation is always
    /// white: the material absorbs nothing.
    pub open spec fn scatter_model(self, ray_in: Ray<Fx>, hit_record: HitRecord, sample: ScatterSample)
        -> Option<(Ray<Fx>, Color)> {
        let ri = fxv(self.sp_ri(hit_record.front_face));
        let unit = if ray_in.direction.magnitude_int() == 0 {
            hit_record.normal
        } else {
            ray_in.direction.spec_normalized()
        };
        let cos_theta = spec_fx_max(
            spec_fx_min(spec_neg_v(unit).dot_int(hit_record.normal), FX_ONE as int),
            -(FX_ONE as int),
        );
        let sin_theta = fx_sqrt(sat64(iabs(fx_sub(FX_ONE as int, fx_mul(cos_theta, cos_theta)))));
        let cannot_refract = fx_mul(ri@, sin_theta) > FX_ONE as int;
        let reflects = cannot_refract || spec_reflectance(cos_theta, ri@) > sample.uniform@;
        let direction = if reflects {
            unit.spec_reflect(hit_record.normal)
        } else {
            unit.spec_refract(hit_record.normal, ri)
        };
        Some(
            (
                Ray { origin: hit_record.point, direction },
                Color { red: fxv(FX_ONE as int), green: fxv(FX_ONE as int), blue: fxv(FX_ONE as int) },
            ),
        )
    }
}

impl Scatterer for DielectricMaterial {
    open spec fn wf(&self) -> bool {
        self.refraction_index@ > 0
    }

    open spec fn scatter_spec(&self, ray_in: Ray<Fx>, hit_record: HitRecord, sample: ScatterSample)
        -> Option<(Ray<Fx>, Color)> {
        self.scatter_model(ray_in, hit_record, sample)
    }

    fn scatter(&self, ray_in: &Ray<Fx>, hit_record: &HitRecord, sample: &ScatterSample) -> (r:
        Option<(Ray<Fx>, Color)>) {
        let attenuation = Color { red: Fx::one(), green: Fx::one(), blue: Fx::one() };
        let ri = if hit_record.front_face {
            Fx::one() / self.refraction_index
        } else {
            self.refraction_index
        };

        let unit_direction = match ray_in.get_direction().normalize() {
            Ok(u) => u,
            Err(_) => hit_record.normal,
        };

        let cos_theta = unit_direction.neg().dot(&hit_record.normal).min(Fx::one()).max(
            Fx::from_int(-1),
        );
        let sin_theta = (Fx::one() - cos_theta * cos_theta).abs().sqrt();

        let cannot_refract = Fx::one().lt(ri * sin_theta);

        let direction = if cannot_refract || sample.uniform.lt(
            DielectricMaterial::reflectance(cos_theta, ri),
        ) {
            unit_direction.reflect(&hit_record.normal)
        } else {
            unit_direction.refract(&hit_record.normal, ri)
        };

        let scattered = Ray::new(hit_record.point, direction);

        Some((scattered, attenuation))
    }
}

/// The closed union of the known materials.
#[derive(Debug, Clone, Copy, PartialEq, Eq)]
pub enum Material {
    Lambertian(LambertianMaterial),
    Metal(MetalMaterial),
    Dielectric(DielectricMaterial),
}

impl Material {
    /// The variant's construction parameters are sound.
    pub open spec fn wf(&self) -> bool {
        match *self {
            Material::Lambertian(_) => true,
            Material::Metal(_) => true,
            Material::Dielectric(m) => m.refraction_index@ > 0,
        }
    }

    /// The variant's exact response, at the specification level.
    pub open spec fn scatter_spec(&self, ray_in: Ray<Fx>, hit_record: HitRecord, sample: ScatterSample)
        -> Option<(Ray<Fx>, Color)> {
        match *self {
            Material::Lambertian(m) => m.scatter_model(ray_in, hit_record, sample),
            Material::Metal(m) => m.scatter_model(ray_in, hit_record, sample),
            Material::Dielectric(m) => m.scatter_model(ray_in, hit_record, sample),
        }
    }

    /// Scatter the incoming ray with the variant's own response.
    pub fn scatter(&self, ray_in: &Ray<Fx>, hit_record: &HitRecord, sample: &ScatterSample) -> (r:
        Option<(Ray<Fx>, Color)>)
        requires
            self.wf(),
        ensures
            r == self.scatter_spec(*ray_in, *hit_record, *sample),
    {
        match self {
            Material::Lambertian(m) => m.scatter(ray_in, hit_record, sample),
            Material::Metal(m) => m.scatter(ray_in, hit_record, sample),
            Material::Dielectric(m) => m.scatter(ray_in, hit_record, sample),
        }
    }
}

} // verus!
