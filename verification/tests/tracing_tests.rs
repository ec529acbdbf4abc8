//! Intersections, materials and the integrator, on exact scenarios.

use pathtracer::camera::Camera;
use pathtracer::color::{Color, ColorError};
use pathtracer::fixed::Fx;
use pathtracer::interval::Interval;
use pathtracer::make_world;
use pathtracer::materials::{
    DielectricMaterial, LambertianMaterial, Material, MetalMaterial, ScatterSample, Scatterer,
};
use pathtracer::point::Point;
use pathtracer::ray::Ray;
use pathtracer::rng::Prng;
use pathtracer::shapes::{Group, Hittable, Sphere};
use pathtracer::vector::Vec3;

fn gray() -> Material {
    Material::Lambertian(LambertianMaterial::new(Color {
        red: Fx::from_ratio(1, 2),
        green: Fx::from_ratio(1, 2),
        blue: Fx::from_ratio(1, 2),
    }))
}

fn wide_open() -> Interval {
    Interval::new(Fx::from_ratio(1, 100), Fx::from_bits(i64::MAX))
}

#[test]
fn test_sphere_hit_head_on() {
    let sphere = Sphere::new(
        Point::new(Fx::zero(), Fx::zero(), Fx::from_int(-1)),
        Fx::from_ratio(1, 2),
        gray(),
    );
    let ray = Ray::new(
        Point::new(Fx::zero(), Fx::zero(), Fx::zero()),
        Vec3::new(Fx::zero(), Fx::zero(), Fx::from_int(-1)),
    );
    let rec = sphere.hit(&ray, wide_open()).unwrap();
    assert_eq!(rec.t, Fx::from_ratio(1, 2));
    assert_eq!(
        rec.point,
        Point::new(Fx::zero(), Fx::zero(), Fx::from_ratio(-1, 2))
    );
    assert_eq!(rec.normal, Vec3::new(Fx::zero(), Fx::zero(), Fx::one()));
    assert!(rec.front_face);
}

#[test]
fn test_sphere_miss_returns_none() {
    let sphere = Sphere::new(
        Point::new(Fx::zero(), Fx::zero(), Fx::from_int(-2)),
        Fx::from_ratio(1, 2),
        gray(),
    );
    let ray = Ray::new(
        Point::new(Fx::zero(), Fx::zero(), Fx::zero()),
        Vec3::new(Fx::zero(), Fx::one(), Fx::zero()),
    );
    assert!(sphere.hit(&ray, wide_open()).is_none());
}

#[test]
fn test_scene_nearest_hit_any_order() {
    let near = Sphere::new(
        Point::new(Fx::zero(), Fx::zero(), Fx::from_int(-2)),
        Fx::from_ratio(1, 2),
        gray(),
    );
    let far = Sphere::new(
        Point::new(Fx::zero(), Fx::zero(), Fx::from_int(-3)),
        Fx::from_ratio(1, 2),
        gray(),
    );
    let ray = Ray::new(
        Point::new(Fx::zero(), Fx::zero(), Fx::zero()),
        Vec3::new(Fx::zero(), Fx::zero(), Fx::from_int(-1)),
    );
    let group_a = Group::new(vec![near, far]);
    let group_b = Group::new(vec![far, near]);
    let rec_a = group_a.hit(&ray, wide_open()).unwrap();
    let rec_b = group_b.hit(&ray, wide_open()).unwrap();
    assert_eq!(rec_a.t, Fx::from_ratio(3, 2));
    assert_eq!(rec_b.t, Fx::from_ratio(3, 2));
}

#[test]
fn test_empty_scene_never_hits() {
    let world: Group<Sphere> = Group::new(vec![]);
    let ray = Ray::new(
        Point::new(Fx::zero(), Fx::zero(), Fx::zero()),
        Vec3::new(Fx::zero(), Fx::zero(), Fx::from_int(-1)),
    );
    assert!(world.hit(&ray, wide_open()).is_none());
}

#[test]
fn test_nearest_hit_tie_keeps_first() {
    let sphere = Sphere::new(
        Point::new(Fx::zero(), Fx::zero(), Fx::from_int(-2)),
        Fx::from_ratio(1, 2),
        gray(),
    );
    let ray = Ray::new(
        Point::new(Fx::zero(), Fx::zero(), Fx::zero()),
        Vec3::new(Fx::zero(), Fx::zero(), Fx::from_int(-1)),
    );
    let group = Group::new(vec![sphere, sphere]);
    let rec = group.hit(&ray, wide_open()).unwrap();
    assert_eq!(rec.t, Fx::from_ratio(3, 2));
}

#[test]
fn test_miss_falls_back_to_sky() {
    let world = Group::new(vec![Sphere::new(
        Point::new(Fx::zero(), Fx::zero(), Fx::from_int(-2)),
        Fx::from_ratio(1, 2),
        gray(),
    )]);
    let ray = Ray::new(
        Point::new(Fx::zero(), Fx::zero(), Fx::zero()),
        Vec3::new(Fx::zero(), Fx::one(), Fx::zero()),
    );
    assert!(world.hit(&ray, wide_open()).is_none());
    let camera = Camera::default();
    let mut rng = Prng::seeded(7);
    let color = camera.get_ray_color(ray, &world, 10, &mut rng);
    // straight up: the pure sky color (0.5, 0.7, 1.0)
    assert_eq!(color.red, Fx::from_ratio(1, 2));
    assert_eq!(color.green, Fx::from_ratio(7, 10));
    assert_eq!(color.blue, Fx::one());
}

#[test]
fn test_depth_zero_is_black() {
    let world = make_world();
    let ray = Ray::new(
        Point::new(Fx::zero(), Fx::zero(), Fx::zero()),
        Vec3::new(Fx::zero(), Fx::zero(), Fx::from_int(-1)),
    );
    let camera = Camera::default();
    let mut rng = Prng::seeded(7);
    let color = camera.get_ray_color(ray, &world, 0, &mut rng);
    assert_eq!(color.red, Fx::zero());
    assert_eq!(color.green, Fx::zero());
    assert_eq!(color.blue, Fx::zero());
}

fn head_on_record(material: Material) -> (Ray<Fx>, pathtracer::shapes::HitRecord) {
    let sphere = Sphere::new(
        Point::new(Fx::zero(), Fx::zero(), Fx::from_int(-1)),
        Fx::from_ratio(1, 2),
        material,
    );
    let ray = Ray::new(
        Point::new(Fx::zero(), Fx::zero(), Fx::zero()),
        Vec3::new(Fx::zero(), Fx::zero(), Fx::from_int(-1)),
    );
    let rec = sphere.hit(&ray, Interval::new(Fx::from_ratio(1, 100), Fx::from_bits(i64::MAX)))
        .unwrap();
    (ray, rec)
}

fn fixed_sample() -> ScatterSample {
    ScatterSample {
        hemisphere_unit: Vec3::new(Fx::zero(), Fx::zero(), Fx::one()),
        uniform: Fx::zero(),
    }
}

#[test]
fn test_lambertian_attenuation_is_albedo() {
    let albedo = Color {
        red: Fx::from_ratio(1, 10),
        green: Fx::from_ratio(2, 10),
        blue: Fx::from_ratio(3, 10),
    };
    let material = LambertianMaterial::new(albedo);
    let (ray, rec) = head_on_record(gray());
    let (_, attenuation) = material.scatter(&ray, &rec, &fixed_sample()).unwrap();
    assert_eq!(attenuation, albedo);
}

#[test]
fn test_metal_mirror_direction() {
    // d = (1, -1, 0) about n = (0, 1, 0) reflects to (1, 1, 0)
    let material = MetalMaterial::new(Color {
        red: Fx::from_ratio(1, 2),
        green: Fx::from_ratio(1, 2),
        blue: Fx::from_ratio(1, 2),
    });
    let (_, mut rec) = head_on_record(gray());
    rec.normal = Vec3::new(Fx::zero(), Fx::one(), Fx::zero());
    let ray = Ray::new(
        Point::new(Fx::zero(), Fx::from_int(2), Fx::zero()),
        Vec3::new(Fx::one(), Fx::from_int(-1), Fx::zero()),
    );
    let (scattered, _) = material.scatter(&ray, &rec, &fixed_sample()).unwrap();
    assert_eq!(
        *scattered.get_direction(),
        Vec3::new(Fx::one(), Fx::one(), Fx::zero())
    );
}

#[test]
fn test_metal_direction_ignores_albedo() {
    let shiny = MetalMaterial::new(Color { red: Fx::one(), green: Fx::one(), blue: Fx::one() });
    let dark = MetalMaterial::new(Color { red: Fx::zero(), green: Fx::zero(), blue: Fx::zero() });
    let (ray, rec) = head_on_record(gray());
    let (s1, _) = shiny.scatter(&ray, &rec, &fixed_sample()).unwrap();
    let (s2, _) = dark.scatter(&ray, &rec, &fixed_sample()).unwrap();
    assert_eq!(s1.get_direction(), s2.get_direction());
}

#[test]
fn test_dielectric_normal_incidence_identity() {
    let material = DielectricMaterial::new(Fx::one());
    let (ray, rec) = head_on_record(gray());
    // head-on: the unit incoming direction is exactly -normal
    assert_eq!(rec.normal, Vec3::new(Fx::zero(), Fx::zero(), Fx::one()));
    let (scattered, attenuation) = material.scatter(&ray, &rec, &fixed_sample()).unwrap();
    assert_eq!(
        *scattered.get_direction(),
        Vec3::new(Fx::zero(), Fx::zero(), Fx::from_int(-1))
    );
    // a dielectric absorbs nothing
    assert_eq!(attenuation, Color { red: Fx::one(), green: Fx::one(), blue: Fx::one() });
}

#[test]
fn test_dielectric_total_internal_reflection() {
    // from inside glass at a grazing angle the ray must reflect
    let material = DielectricMaterial::new(Fx::from_ratio(3, 2));
    let (_, mut rec) = head_on_record(gray());
    rec.front_face = false;
    rec.normal = Vec3::new(Fx::zero(), Fx::one(), Fx::zero());
    let incoming = Vec3::new(Fx::one(), Fx::from_ratio(-1, 10), Fx::zero());
    let ray = Ray::new(Point::new(Fx::zero(), Fx::zero(), Fx::zero()), incoming);
    let (scattered, _) = material.scatter(&ray, &rec, &fixed_sample()).unwrap();
    let unit = incoming.normalize().unwrap();
    assert_eq!(*scattered.get_direction(), unit.reflect(&rec.normal));
}

#[test]
fn test_color_new_rejects_out_of_range() {
    assert_eq!(
        Color::new(Fx::from_int(2), Fx::zero(), Fx::zero()),
        Err(ColorError::InvalidColorRange)
    );
    assert_eq!(
        Color::new(Fx::zero(), Fx::from_int(-1), Fx::zero()),
        Err(ColorError::InvalidColorRange)
    );
    let ok = Color::new(Fx::one(), Fx::zero(), Fx::from_ratio(1, 2)).unwrap();
    assert_eq!(ok.red, Fx::one());
}

#[test]
fn test_to_byte_rgb_clamps_and_truncates() {
    let c = Color { red: Fx::one(), green: Fx::from_ratio(1, 2), blue: Fx::from_ratio(1, 4) };
    assert_eq!(c.to_byte_rgb(), (255, 127, 63));
    let over = Color { red: Fx::from_int(2), green: Fx::from_int(-1), blue: Fx::zero() };
    assert_eq!(over.to_byte_rgb(), (255, 0, 0));
}

#[test]
fn test_reflect_formula() {
    let d = Vec3::new(Fx::one(), Fx::from_int(-1), Fx::zero());
    let n = Vec3::new(Fx::zero(), Fx::one(), Fx::zero());
    assert_eq!(d.reflect(&n), Vec3::new(Fx::one(), Fx::one(), Fx::zero()));
}

#[test]
fn test_make_world_contents() {
    let world = make_world();
    assert_eq!(world.objects.len(), 5);
    assert_eq!(world.objects[0].get_radius(), Fx::from_int(100));
    assert_eq!(world.objects[1].get_radius(), Fx::from_ratio(1, 2));
    assert_eq!(
        world.objects[2].get_center(),
        Point::new(Fx::from_int(-1), Fx::zero(), Fx::from_int(-1))
    );
}

#[test]
fn test_hemisphere_sample_stays_on_normal_side() {
    let normal = Vec3::new(Fx::zero(), Fx::one(), Fx::zero());
    for seed in 0..32u64 {
        let mut rng = Prng::seeded(seed);
        let v = Vec3::random_unit_vector_same_hemisphere(&normal, &mut rng);
        assert!(v.dot(&normal).bits() >= 0);
    }
}

#[test]
fn test_sphere_velocity() {
    let sphere = Sphere::new(
        Point::new(Fx::zero(), Fx::zero(), Fx::zero()),
        Fx::one(),
        gray(),
    );
    let moving = sphere.add_velocity(Vec3::new(Fx::one(), Fx::zero(), Fx::zero()));
    assert_eq!(
        moving.at(Fx::from_int(2)),
        Point::new(Fx::from_int(2), Fx::zero(), Fx::zero())
    );
    assert_eq!(moving.get_center(), Point::new(Fx::zero(), Fx::zero(), Fx::zero()));
}
