//! The camera derivation, the render loop and the PPM encoding.

use pathtracer::camera::{Camera, CameraBuilder, degrees_to_radians, tan};
use pathtracer::fixed::Fx;
use pathtracer::make_world;
use pathtracer::point::Point;
use pathtracer::ppm::ppm_bytes;

fn tiny_camera() -> Camera {
    let mut builder = CameraBuilder::default();
    builder.image_width = 16;
    builder.samples_per_pixel = 2;
    builder.max_depth = 4;
    builder.make_camera()
}

#[test]
fn test_default_camera_geometry() {
    let camera = Camera::default();
    // 500 pixels wide at 16:9 rounds to 281 rows
    assert_eq!(camera.image_width, 500);
    assert_eq!(camera.image_height, 281);
    assert_eq!(camera.samples_per_pixel, 100);
    assert_eq!(camera.max_depth, 50);
    assert_eq!(camera.center, Point::new(Fx::zero(), Fx::zero(), Fx::zero()));
}

#[test]
fn test_builder_setters() {
    let builder = CameraBuilder::default()
        .set_look_from(Fx::from_int(-2), Fx::from_int(2), Fx::one())
        .set_defocus_angle(Fx::one())
        .set_focus_dist(Fx::from_int(3));
    assert_eq!(
        builder.lookfrom,
        Point::new(Fx::from_int(-2), Fx::from_int(2), Fx::one())
    );
    assert_eq!(builder.defocus_angle, Fx::one());
    assert_eq!(builder.focus_dist, Fx::from_int(3));
    let aimed = builder.set_look_at(Point::new(Fx::zero(), Fx::one(), Fx::zero()));
    assert_eq!(aimed.lookat, Point::new(Fx::zero(), Fx::one(), Fx::zero()));
}

#[test]
fn test_tangent_values() {
    assert_eq!(tan(Fx::zero()), Fx::zero());
    // tan(pi/4) is exactly one at this precision
    assert_eq!(tan(Fx::from_bits(51472)), Fx::one());
}

#[test]
fn test_degrees_to_radians_formula() {
    // 20 degrees: 20 * pi / 180 at the scalar's precision
    assert_eq!(degrees_to_radians(Fx::from_int(20)), Fx::from_bits(22876));
}

#[test]
fn test_render_dimensions() {
    let camera = tiny_camera();
    let world = make_world();
    let pixels = camera.render_seeded(&world, 11);
    assert_eq!(pixels.len() as i64, camera.image_height);
    for row in &pixels {
        assert_eq!(row.len() as i64, camera.image_width);
    }
}

#[test]
fn test_render_twice_identical() {
    let camera = tiny_camera();
    let world = make_world();
    let first = camera.render_seeded(&world, 42);
    let second = camera.render_seeded(&world, 42);
    let bytes_first = ppm_bytes(camera.image_width, camera.image_height, &first);
    let bytes_second = ppm_bytes(camera.image_width, camera.image_height, &second);
    assert_eq!(bytes_first, bytes_second);
}

#[test]
fn test_render_row_matches_full_render() {
    let camera = tiny_camera();
    let world = make_world();
    let pixels = camera.render_seeded(&world, 9);
    let row = camera.render_row(&world, 3, 9);
    assert_eq!(pixels[3], row);
}

#[test]
fn test_unseeded_render_dimensions() {
    let camera = tiny_camera();
    let world = make_world();
    let pixels = camera.render(&world);
    assert_eq!(pixels.len() as i64, camera.image_height);
    for row in &pixels {
        assert_eq!(row.len() as i64, camera.image_width);
    }
}

#[test]
fn test_ppm_layout() {
    let red = pathtracer::color::Color {
        red: Fx::one(),
        green: Fx::zero(),
        blue: Fx::zero(),
    };
    let grid = vec![vec![red]];
    let bytes = ppm_bytes(1, 1, &grid);
    assert_eq!(bytes, b"P3\n1 1\n255\n255 0 0\n".to_vec());
}
