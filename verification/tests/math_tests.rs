//! The vector, point, ray and interval arithmetic, over several scalars.

use pathtracer::fixed::Fx;
use pathtracer::interval::Interval;
use pathtracer::point::Point;
use pathtracer::ray::Ray;
use pathtracer::vector::Vec3;

#[test]
fn test_vector_creation_f64() {
    let v = Vec3::new(1.0, 2.0, 3.0);
    assert_eq!(v.x, 1.0);
    assert_eq!(v.y, 2.0);
    assert_eq!(v.z, 3.0);
}

#[test]
fn test_vector_creation_f32() {
    let v = Vec3::new(1.0 as f32, 2.0 as f32, 3.0 as f32);
    assert_eq!(v.x, 1.0);
    assert_eq!(v.y, 2.0);
    assert_eq!(v.z, 3.0);
}

#[test]
fn test_vector_creation_i32() {
    let v = Vec3::new(1 as i32, 2 as i32, 3 as i32);
    assert_eq!(v.x, 1);
    assert_eq!(v.y, 2);
    assert_eq!(v.z, 3);
}

#[test]
fn test_dot_product() {
    let a = Vec3::new(1.0, 2.0, 3.0);
    let b: Vec3<f64> = Vec3::new(4.0, -5.0, 6.0);
    let result = a.dot(&b);
    let expected = 1.0 * 4.0 + 2.0 * -5.0 + 3.0 * 6.0; // = 4 -10 +18 = 12.0
    assert_eq!(result, expected);
}

#[test]
fn test_dot_product_orthogonal() {
    let a = Vec3::new(1.0, 0.0, 0.0);
    let b = Vec3::new(0.0, 1.0, 0.0);
    assert_eq!(a.dot(&b), 0.0); // Orthogonal vectors
}

#[test]
fn test_dot_product_parallel() {
    let a = Vec3::new(2.0, 2.0, 2.0);
    let b = Vec3::new(4.0, 4.0, 4.0);
    assert_eq!(a.dot(&b), 2.0 * 4.0 + 2.0 * 4.0 + 2.0 * 4.0); // = 24.0
}

#[test]
fn test_vector_subtraction() {
    let a = Vec3::new(4.0, 5.0, 6.0);
    let b = Vec3::new(1.0, 2.0, 3.0);
    let result = a - b;
    assert_eq!(result, Vec3::new(3.0, 3.0, 3.0));
}

#[test]
fn test_vector_addition() {
    let a = Vec3::new(4.0, 5.0, 6.0);
    let b = Vec3::new(1.0, 2.0, 3.0);
    let result = a + b;
    assert_eq!(result, Vec3::new(5.0, 7.0, 9.0));
}

#[test]
fn test_vector_magnitude() {
    let v = Vec3::new(Fx::from_int(3), Fx::from_int(4), Fx::zero());
    assert_eq!(v.magnitude(), Fx::from_int(5));
}

#[test]
fn test_vector_cross_simple() {
    let u = Vec3::new(0, 1, 0);
    let v = Vec3::new(1, 0, 0);
    let result = u.cross(&v);
    assert_eq!(result, Vec3::new(0, 0, -1));
    let result = v.cross(&u);
    assert_eq!(result, Vec3::new(0, 0, 1));
}

#[test]
fn test_vector_normalization() {
    let v = Vec3::new(Fx::from_int(3), Fx::from_int(4), Fx::zero());
    let normalized = v.normalize().unwrap();
    // 3/5 and 4/5 rounded down to the scalar's precision
    assert_eq!(normalized.x, Fx::from_bits(39321));
    assert_eq!(normalized.y, Fx::from_bits(52428));
    assert_eq!(normalized.z, Fx::zero());
}

#[test]
fn test_point_subtraction() {
    let p1 = Point::new(1, 0, 0);
    let p2 = Point::new(1, 1, 1);
    let v = p1 - p2;
    assert_eq!(v, Vec3::new(0, -1, -1));
    let v = p2 - p1;
    assert_eq!(v, Vec3::new(0, 1, 1));
}

#[test]
fn test_point_vector_addition() {
    let p1 = Point::new(1.0, 1.0, 1.0);
    let u = Vec3::new(3.0, 4.0, 5.0);
    let result = p1 + u;
    assert_eq!(result, Point::new(4.0, 5.0, 6.0));
}

#[test]
fn test_ray_at_unit_time() {
    let ray = Ray::new(Point::new(0, 0, 0), Vec3::new(1, 1, 1));
    assert_eq!(ray.at(1), Point::new(1, 1, 1));
}

#[test]
fn test_ray_at_fraciton_time() {
    let ray = Ray::new(Point::new(0., 0., 0.), Vec3::new(0.5, 0.5, 0.5));
    assert_eq!(ray.at(0.5), Point::new(0.25, 0.25, 0.25));
}

#[test]
fn test_simple_interval() {
    let i1 = Interval::new(Fx::from_ratio(1, 10), Fx::from_ratio(6, 5));
    assert!(i1.contains(Fx::one()));
    assert!(i1.contains(Fx::from_ratio(6, 5)));
    assert!(i1.contains(Fx::from_ratio(1, 10)));
    assert!(!i1.surrounds(Fx::from_ratio(6, 5)));
    assert!(!i1.surrounds(Fx::from_ratio(1, 10)));
}

#[test]
fn test_empty() {
    let empty_int = Interval::empty();
    let vals_to_check = vec![
        Fx::zero(),
        Fx::one(),
        Fx::from_int(100000),
        Fx::from_int(-100000),
    ];
    for val in vals_to_check {
        assert!(!empty_int.contains(val));
    }
}

#[test]
fn test_universe() {
    let empty_int = Interval::universe();
    let vals_to_check = vec![
        Fx::zero(),
        Fx::one(),
        Fx::from_int(100000),
        Fx::from_int(-100000),
    ];
    for val in vals_to_check {
        assert!(empty_int.contains(val));
    }
}

#[test]
fn test_interval_clamp() {
    let i = Interval::new(Fx::zero(), Fx::one());
    assert_eq!(i.clamp(Fx::from_int(2)), Fx::one());
    assert_eq!(i.clamp(Fx::from_int(-3)), Fx::zero());
    assert_eq!(i.clamp(Fx::from_ratio(1, 2)), Fx::from_ratio(1, 2));
}

#[test]
fn test_normalize_zero_is_rejected() {
    let v: Vec3<Fx> = Vec3::zero();
    assert_eq!(
        v.normalize(),
        Err(pathtracer::vector::VectorError::InvalidOperation)
    );
}

#[test]
fn test_fx_saturates_at_the_ends() {
    let top = Fx::from_bits(i64::MAX);
    assert_eq!((top + Fx::one()).bits(), i64::MAX);
    let bottom = Fx::from_bits(i64::MIN);
    assert_eq!((bottom - Fx::one()).bits(), i64::MIN);
}

#[test]
fn test_fx_sqrt_exact() {
    assert_eq!(Fx::from_int(4).sqrt(), Fx::from_int(2));
    assert_eq!(Fx::from_int(25).sqrt(), Fx::from_int(5));
    assert_eq!(Fx::zero().sqrt(), Fx::zero());
}
