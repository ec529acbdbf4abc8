//! A small offline path tracer, written for verification.
//!
//! Given a scene of spheres with Lambertian, metal or dielectric surfaces,
//! the camera casts jittered rays through a virtual viewport, bounces them
//! off intersected surfaces by per-material scattering laws, and averages
//! many samples per pixel into a row-major grid of colors, which the PPM
//! module encodes byte for byte.
//!
//! Real quantities (coordinates, colors, ray parameters) are modeled by the
//! saturating fixed-point scalar [`fixed::Fx`]; the vector, point and ray
//! types are generic over the scalar, as the geometry does not care which
//! one is used.  Every random draw comes from the explicit, seedable
//! generator in [`rng`], so a seeded render is a deterministic function of
//! its configuration.

pub mod camera;
pub mod color;
pub mod fixed;
pub mod interval;
pub mod laws;
pub mod materials;
pub mod point;
pub mod ppm;
pub mod ray;
pub mod rng;
pub mod shapes;
pub mod vector;

use vstd::prelude::*;
use crate::color::Color;
use crate::fixed::{Fx, FX_ONE, fxv, tdiv};
use crate::materials::{Material, LambertianMaterial, MetalMaterial, DielectricMaterial};
use crate::point::Point;
use crate::shapes::{Group, Sphere};
use crate::vector::Vec3;

verus! {

/// The sample scene: a large ground sphere, a diffuse center sphere, a
/// hollow glass sphere on the left (an outer dielectric with an inner
/// bubble of inverse index), and a metal sphere on the right.
pub open spec fn spec_sample_world() -> Seq<Sphere> {
    seq![
        Sphere {
            center: Point {
                x: fxv(0),
                y: fxv(tdiv(-201 * FX_ONE as int, 2)),
                z: fxv(-(FX_ONE as int)),
            },
            radius: fxv(100 * FX_ONE as int),
            material: Material::Lambertian(
                LambertianMaterial {
                    albedo: Color {
                        red: fxv(tdiv(4 * FX_ONE as int, 5)),
                        green: fxv(tdiv(4 * FX_ONE as int, 5)),
                        blue: fxv(0),
                    },
                },
            ),
            velocity: Vec3 { x: fxv(0), y: fxv(0), z: fxv(0) },
        },
        Sphere {
            center: Point { x: fxv(0), y: fxv(0), z: fxv(tdiv(-6 * FX_ONE as int, 5)) },
            radius: fxv(tdiv(FX_ONE as int, 2)),
            material: Material::Lambertian(
                LambertianMaterial {
                    albedo: Color {
                        red: fxv(tdiv(FX_ONE as int, 10)),
                        green: fxv(tdiv(FX_ONE as int, 5)),
                        blue: fxv(tdiv(FX_ONE as int, 2)),
                    },
                },
            ),
            velocity: Vec3 { x: fxv(0), y: fxv(0), z: fxv(0) },
        },
        Sphere {
            center: Point { x: fxv(-(FX_ONE as int)), y: fxv(0), z: fxv(-(FX_ONE as int)) },
            radius: fxv(tdiv(FX_ONE as int, 2)),
            material: Material::Dielectric(
                DielectricMaterial { refraction_index: fxv(tdiv(3 * FX_ONE as int, 2)) },
            ),
            velocity: Vec3 { x: fxv(0), y: fxv(0), z: fxv(0) },
        },
        Sphere {
            center: Point { x: fxv(-(FX_ONE as int)), y: fxv(0), z: fxv(-(FX_ONE as int)) },
            radius: fxv(tdiv(2 * FX_ONE as int, 5)),
            material: Material::Dielectric(
                DielectricMaterial { refraction_index: fxv(tdiv(2 * FX_ONE as int, 3)) },
            ),
            velocity: Vec3 { x: fxv(0), y: fxv(0), z: fxv(0) },
        },
        Sphere {
            center: Point { x: fxv(FX_ONE as int), y: fxv(0), z: fxv(-(FX_ONE as int)) },
            radius: fxv(tdiv(FX_ONE as int, 2)),
            material: Material::Metal(
                MetalMaterial {
                    albedo: Color {
                        red: fxv(tdiv(4 * FX_ONE as int, 5)),
                        green: fxv(tdiv(3 * FX_ONE as int, 5)),
                        blue: fxv(tdiv(FX_ONE as int, 5)),
                    },
                },
            ),
            velocity: Vec3 { x: fxv(0), y: fxv(0), z: fxv(0) },
        },
    ]
}

/// Build the sample scene that the demo render uses.
pub fn make_world() -> (r: Group<Sphere>)
    ensures
        r.objects@ == spec_sample_world(),
{
    proof {
        assert(65536int / 2 == 32768) by (nonlinear_arith);
        assert(131072int / 5 == 26214) by (nonlinear_arith);
        assert(196608int / 2 == 98304) by (nonlinear_arith);
        assert(131072int / 3 == 43690) by (nonlinear_arith);
        assert(tdiv(FX_ONE as int, 2) == 32768);
        assert(tdiv(2 * FX_ONE as int, 5) == 26214);
        assert(tdiv(3 * FX_ONE as int, 2) == 98304);
        assert(tdiv(2 * FX_ONE as int, 3) == 43690);
    }
    let material_ground = Material::Lambertian(
        LambertianMaterial::new(
            Color { red: Fx::from_ratio(4, 5), green: Fx::from_ratio(4, 5), blue: Fx::zero() },
        ),
    );
    let material_center = Material::Lambertian(
        LambertianMaterial::new(
            Color {
                red: Fx::from_ratio(1, 10),
                green: Fx::from_ratio(1, 5),
                blue: Fx::from_ratio(1, 2),
            },
        ),
    );
    let material_left = Material::Dielectric(DielectricMaterial::new(Fx::from_ratio(3, 2)));
    let material_bubble = Material::Dielectric(DielectricMaterial::new(Fx::from_ratio(2, 3)));
    let material_right = Material::Metal(
        MetalMaterial::new(
            Color {
                red: Fx::from_ratio(4, 5),
                green: Fx::from_ratio(3, 5),
                blue: Fx::from_ratio(1, 5),
            },
        ),
    );

    let mut world_elements: Vec<Sphere> = Vec::new();
    world_elements.push(
        Sphere::new(
            Point::new(Fx::zero(), Fx::from_ratio(-201, 2), Fx::from_int(-1)),
            Fx::from_int(100),
            material_ground,
        ),
    );
    world_elements.push(
        Sphere::new(
            Point::new(Fx::zero(), Fx::zero(), Fx::from_ratio(-6, 5)),
            Fx::from_ratio(1, 2),
            material_center,
        ),
    );
    world_elements.push(
        Sphere::new(
            Point::new(Fx::from_int(-1), Fx::zero(), Fx::from_int(-1)),
            Fx::from_ratio(1, 2),
            material_left,
        ),
    );
    world_elements.push(
        Sphere::new(
            Point::new(Fx::from_int(-1), Fx::zero(), Fx::from_int(-1)),
            Fx::from_ratio(2, 5),
            material_bubble,
        ),
    );
    world_elements.push(
        Sphere::new(
            Point::new(Fx::from_int(1), Fx::zero(), Fx::from_int(-1)),
            Fx::from_ratio(1, 2),
            material_right,
        ),
    );
    proof {
        assert(world_elements@ =~= spec_sample_world());
    }
    Group::new(world_elements)
}

} // verus!
