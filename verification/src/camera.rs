//! The camera: it derives the viewport geometry from its configuration,
//! generates per-pixel sample rays, resolves each ray's color against the
//! scene recursively, and accumulates the averaged pixel grid.

use vstd::prelude::*;
use core::ops::Neg;
use crate::color::{Color, spec_attenuate};
use crate::fixed::{Fx, FX_ONE, fxv, fx_add, fx_sub, fx_mul, fx_div, fx_neg, tdiv};
use crate::interval::Interval;
use crate::point::Point;
use crate::ray::Ray;
use crate::rng::{
    Prng, spec_advance, spec_mix, spec_offset_bits, spec_unit_bits, spec_disk_from,
    spec_hemisphere_from, SAMPLE_ATTEMPTS,
};
use crate::shapes::{Hittable, HitRecord};
use crate::materials::ScatterSample;
use crate::vector::{Vec3, spec_scale_v, spec_cross_v};

verus! {

/// Pi at the scalar's precision.
pub const FX_PI: i64 = 205887;

/// Pi over four at the scalar's precision.
pub const FX_QUARTER_PI: i64 = 51472;

/// Pi over two at the scalar's precision.
pub const FX_HALF_PI: i64 = 102944;

/// Degrees to radians: `angle * pi / 180`.
pub open spec fn spec_degrees_to_radians(angle: int) -> int {
    fx_div(fx_mul(angle, FX_PI as int), 180 * FX_ONE as int)
}

/// Convert an angle in degrees to radians.
pub fn degrees_to_radians(angle_in_degrees: Fx) -> (r: Fx)
    ensures
        r@ == spec_degrees_to_radians(angle_in_degrees@),
{
    angle_in_degrees * Fx::from_bits(FX_PI) / Fx::from_int(180)
}

/// The rational approximation of the tangent used below the quarter turn:
/// `x (945 - 105 x^2 + x^4) / (945 - 420 x^2 + 15 x^4)`.  A vanishing
/// denominator (which cannot occur for small angles) saturates.
pub open spec fn spec_tan_core(x: int) -> int {
    let x2 = fx_mul(x, x);
    let x4 = fx_mul(x2, x2);
    let num = fx_mul(x, fx_add(fx_sub(945 * FX_ONE as int, fx_mul(105 * FX_ONE as int, x2)), x4));
    let den = fx_add(
        fx_sub(945 * FX_ONE as int, fx_mul(420 * FX_ONE as int, x2)),
        fx_mul(15 * FX_ONE as int, x4),
    );
    if den == 0 {
        i64::MAX as int
    } else {
        fx_div(num, den)
    }
}

/// The tangent on `[0, pi/2)`: the rational approximation directly below a
/// quarter turn, and its reciprocal at the complementary angle above it.  A
/// tangent too steep to represent saturates.
pub open spec fn spec_tan(x: int) -> int {
    if x <= FX_QUARTER_PI as int {
        spec_tan_core(x)
    } else {
        let t = spec_tan_core(fx_sub(FX_HALF_PI as int, x));
        if t == 0 {
            i64::MAX as int
        } else {
            fx_div(FX_ONE as int, t)
        }
    }
}

fn tan_core(x: Fx) -> (r: Fx)
    ensures
        r@ == spec_tan_core(x@),
{
    let x2 = x * x;
    let x4 = x2 * x2;
    let num = x * (Fx::from_int(945) - Fx::from_int(105) * x2 + x4);
    let den = Fx::from_int(945) - Fx::from_int(420) * x2 + Fx::from_int(15) * x4;
    if den.bits() == 0 {
        Fx::from_bits(i64::MAX)
    } else {
        num / den
    }
}

/// The tangent of an angle in radians, meaningful on `[0, pi/2)`.
pub fn tan(x: Fx) -> (r: Fx)
    ensures
        r@ == spec_tan(x@),
{
    if x.bits() <= FX_QUARTER_PI {
        tan_core(x)
    } else {
        let t = tan_core(Fx::from_bits(FX_HALF_PI) - x);
        if t.bits() == 0 {
            Fx::from_bits(i64::MAX)
        } else {
            Fx::one() / t
        }
    }
}

/// The render configuration and the derived viewport geometry, built once
/// and then read-only for the whole render.
#[derive(Debug, Clone, Copy, PartialEq, Eq)]
pub struct Camera {
    pub center: Point<Fx>,
    pub image_width: i64,
    pub image_height: i64,
    pub pixel_00_loc: Point<Fx>,
    pub pixel_delta_u: Vec3<Fx>,
    pub pixel_delta_v: Vec3<Fx>,
    pub samples_per_pixel: i64,
    pub max_depth: i64,
    pub defocus_dist_u: Vec3<Fx>,
    pub defocus_dist_v: Vec3<Fx>,
    pub defocus_angle: Fx,
}

/// Make it a bit easier to create a camera by letting a user set some
/// elements in a stream-like manner.
#[derive(Debug, Clone, Copy, PartialEq, Eq)]
pub struct CameraBuilder {
    pub image_width: i64,
    pub aspect_ratio: Fx,
    pub samples_per_pixel: i64,
    pub max_depth: i64,
    pub vertical_fov: Fx,
    pub lookfrom: Point<Fx>,
    pub lookat: Point<Fx>,
    pub defocus_angle: Fx,
    pub focus_dist: Fx,
}

impl CameraBuilder {
    /// `lookfrom - lookat`, the direction the camera looks against.
    pub open spec fn spec_look_dir(self) -> Vec3<Fx> {
        Vec3 {
            x: fxv(fx_sub(self.lookfrom.x@, self.lookat.x@)),
            y: fxv(fx_sub(self.lookfrom.y@, self.lookat.y@)),
            z: fxv(fx_sub(self.lookfrom.z@, self.lookat.z@)),
        }
    }

    /// The basis vector pointing against the view direction.
    pub open spec fn spec_w(self) -> Vec3<Fx> {
        self.spec_look_dir().spec_normalized()
    }

    /// The unnormalized rightward basis vector: `up x w`.
    pub open spec fn spec_u_raw(self) -> Vec3<Fx> {
        spec_cross_v(Vec3 { x: fxv(0), y: fxv(FX_ONE as int), z: fxv(0) }, self.spec_w())
    }

    /// The configuration is sound: positive sizes within machine limits, a
    /// viewable field of view, and a viewing direction that spans a basis.
    pub open spec fn spec_valid(self) -> bool {
        &&& 0 < self.image_width <= 1000000
        &&& self.aspect_ratio@ >= 655
        &&& 0 < self.samples_per_pixel <= 100000
        &&& 0 <= self.max_depth <= 10000
        &&& 0 < self.vertical_fov@ < 180 * FX_ONE as int
        &&& self.focus_dist@ > 0
        &&& self.spec_look_dir().magnitude_int() != 0
        &&& self.spec_u_raw().magnitude_int() != 0
    }

    /// The derived image height: the width over the aspect ratio, rounded
    /// half up, and at least one row.
    pub open spec fn spec_image_height(self) -> int {
        let q = fx_div(self.image_width * FX_ONE as int, self.aspect_ratio@);
        let hr = (q + 0x8000) / 0x10000;
        if hr < 1 {
            1
        } else {
            hr
        }
    }

    /// The aspect ratio of the actual pixel grid.
    #[verifier::opaque]
    pub open spec fn sp_image_aspect(self) -> int {
        fx_div(self.image_width * FX_ONE as int, self.spec_image_height() * FX_ONE as int)
    }

    /// Half the vertical field of view, as the tangent of the angle.
    #[verifier::opaque]
    pub open spec fn sp_h(self) -> int {
        spec_tan(fx_div(spec_degrees_to_radians(self.vertical_fov@), 2 * FX_ONE as int))
    }

    /// The viewport height: `2 h focus_dist`.
    #[verifier::opaque]
    pub open spec fn sp_viewport_height(self) -> int {
        fx_mul(fx_mul(2 * FX_ONE as int, self.sp_h()), self.focus_dist@)
    }

    /// The viewport width: the height scaled by the pixel-grid aspect.
    #[verifier::opaque]
    pub open spec fn sp_viewport_width(self) -> int {
        fx_mul(self.sp_viewport_height(), self.sp_image_aspect())
    }

    /// The rightward unit basis vector.
    pub open spec fn sp_u(self) -> Vec3<Fx> {
        self.spec_u_raw().spec_normalized()
    }

    /// The downward-on-screen unit basis vector: `w x u`.
    pub open spec fn sp_v(self) -> Vec3<Fx> {
        spec_cross_v(self.spec_w(), self.sp_u())
    }

    /// The viewport edge along `u`.
    #[verifier::opaque]
    pub open spec fn sp_viewport_u(self) -> Vec3<Fx> {
        spec_scale_v(self.sp_u(), self.sp_viewport_width())
    }

    /// The viewport edge along `-v`.
    #[verifier::opaque]
    pub open spec fn sp_viewport_v(self) -> Vec3<Fx> {
        let v = self.sp_v();
        spec_scale_v(
            Vec3 { x: fxv(fx_neg(v.x@)), y: fxv(fx_neg(v.y@)), z: fxv(fx_neg(v.z@)) },
            self.sp_viewport_height(),
        )
    }

    /// The step between pixel centers along `u`.
    #[verifier::opaque]
    pub open spec fn sp_pixel_du(self) -> Vec3<Fx> {
        let vu = self.sp_viewport_u();
        let wfx = self.image_width * FX_ONE as int;
        Vec3 { x: fxv(fx_div(vu.x@, wfx)), y: fxv(fx_div(vu.y@, wfx)), z: fxv(fx_div(vu.z@, wfx)) }
    }

    /// The step between pixel centers along `v`.
    #[verifier::opaque]
    pub open spec fn sp_pixel_dv(self) -> Vec3<Fx> {
        let vv = self.sp_viewport_v();
        let hfx = self.spec_image_height() * FX_ONE as int;
        Vec3 { x: fxv(fx_div(vv.x@, hfx)), y: fxv(fx_div(vv.y@, hfx)), z: fxv(fx_div(vv.z@, hfx)) }
    }

    /// The upper-left corner of the viewport.
    #[verifier::opaque]
    pub open spec fn sp_upper_left(self) -> Point<Fx> {
        let w = self.spec_w();
        let vu = self.sp_viewport_u();
        let vv = self.sp_viewport_v();
        let two = 2 * FX_ONE as int;
        Point {
            x: fxv(
                fx_sub(
                    fx_sub(
                        fx_sub(self.lookfrom.x@, fx_mul(w.x@, self.focus_dist@)),
                        fx_div(vu.x@, two),
                    ),
                    fx_div(vv.x@, two),
                ),
            ),
            y: fxv(
                fx_sub(
                    fx_sub(
                        fx_sub(self.lookfrom.y@, fx_mul(w.y@, self.focus_dist@)),
                        fx_div(vu.y@, two),
                    ),
                    fx_div(vv.y@, two),
                ),
            ),
            z: fxv(
                fx_sub(
                    fx_sub(
                        fx_sub(self.lookfrom.z@, fx_mul(w.z@, self.focus_dist@)),
                        fx_div(vu.z@, two),
                    ),
                    fx_div(vv.z@, two),
                ),
            ),
        }
    }

    /// The center of the first pixel: half a step in from the corner.
    #[verifier::opaque]
    pub open spec fn sp_pixel_00(self) -> Point<Fx> {
        let ul = self.sp_upper_left();
        let du = self.sp_pixel_du();
        let dv = self.sp_pixel_dv();
        Point {
            x: fxv(fx_add(ul.x@, fx_mul(fx_add(du.x@, dv.x@), 0x8000))),
            y: fxv(fx_add(ul.y@, fx_mul(fx_add(du.y@, dv.y@), 0x8000))),
            z: fxv(fx_add(ul.z@, fx_mul(fx_add(du.z@, dv.z@), 0x8000))),
        }
    }

    /// The radius of the defocus disk on the lens plane.
    #[verifier::opaque]
    pub open spec fn sp_defocus_radius(self) -> int {
        fx_mul(
            self.focus_dist@,
            spec_tan(spec_degrees_to_radians(fx_div(self.defocus_angle@, 2 * FX_ONE as int))),
        )
    }

    /// Every derived field of the camera, from the configuration.
    pub open spec fn spec_camera(self) -> Camera {
        Camera {
            center: self.lookfrom,
            image_width: self.image_width,
            image_height: self.spec_image_height() as i64,
            pixel_00_loc: self.sp_pixel_00(),
            pixel_delta_u: self.sp_pixel_du(),
            pixel_delta_v: self.sp_pixel_dv(),
            samples_per_pixel: self.samples_per_pixel,
            max_depth: self.max_depth,
            defocus_dist_u: spec_scale_v(self.sp_u(), self.sp_defocus_radius()),
            defocus_dist_v: spec_scale_v(self.sp_v(), self.sp_defocus_radius()),
            defocus_angle: self.defocus_angle,
        }
    }

    /// Derive the camera this configuration describes.
    pub fn make_camera(&self) -> (r: Camera)
        requires
            self.spec_valid(),
        ensures
            r == self.spec_camera(),
    {
        Camera::new(
            self.image_width,
            self.aspect_ratio,
            self.samples_per_pixel,
            self.max_depth,
            self.vertical_fov,
            self.lookfrom,
            self.lookat,
            self.defocus_angle,
            self.focus_dist,
        )
    }

    /// The same configuration, looking at the given point.
    pub fn set_look_at(&self, look_at: Point<Fx>) -> (r: Self)
        ensures
            r == (CameraBuilder { lookat: look_at, ..*self }),
    {
        CameraBuilder { lookat: look_at, ..(*self) }
    }

    /// The same configuration, looking from the given coordinates.
    pub fn set_look_from(&self, x: Fx, y: Fx, z: Fx) -> (r: Self)
        ensures
            r == (CameraBuilder { lookfrom: Point { x, y, z }, ..*self }),
    {
        let look_from = Point::new(x, y, z);
        CameraBuilder { lookfrom: look_from, ..(*self) }
    }

    /// The same configuration with the given defocus angle.
    pub fn set_defocus_angle(&self, defocus_angle: Fx) -> (r: Self)
        ensures
            r == (CameraBuilder { defocus_angle, ..*self }),
    {
        CameraBuilder { defocus_angle, ..(*self) }
    }

    /// The same configuration with the given focus distance.
    pub fn set_focus_dist(&self, focus_dist: Fx) -> (r: Self)
        ensures
            r == (CameraBuilder { focus_dist, ..*self }),
    {
        CameraBuilder { focus_dist, ..(*self) }
    }
}

/// The stock configuration: a 500-pixel-wide 16:9 image, 100 samples per
/// pixel, 50 bounces, a 20 degree field of view flat along the z axis, a
/// pinhole aperture and a focus distance of 10.
pub open spec fn spec_default_builder() -> CameraBuilder {
    CameraBuilder {
        image_width: 500,
        aspect_ratio: fxv(tdiv(16 * FX_ONE as int, 9)),
        samples_per_pixel: 100,
        max_depth: 50,
        vertical_fov: fxv(20 * FX_ONE as int),
        lookfrom: Point { x: fxv(0), y: fxv(0), z: fxv(0) },
        lookat: Point { x: fxv(0), y: fxv(0), z: fxv(-(FX_ONE as int)) },
        defocus_angle: fxv(0),
        focus_dist: fxv(10 * FX_ONE as int),
    }
}

impl core::default::Default for CameraBuilder {
    fn default() -> (r: Self)
        ensures
            r == spec_default_builder(),
    {
        let image_width: i64 = 500;
        let aspect_ratio = Fx::from_ratio(16, 9);
        let samples_per_pixel: i64 = 100;
        let max_depth: i64 = 50;

        let vertical_fov = Fx::from_int(20);

        // flat looking along the z axis
        let lookfrom = Point::<Fx>::new(Fx::zero(), Fx::zero(), Fx::zero());
        let lookat = Point::<Fx>::new(Fx::zero(), Fx::zero(), Fx::from_int(-1));

        let defocus_angle = Fx::zero();
        let focus_dist = Fx::from_int(10);

        CameraBuilder {
            image_width,
            aspect_ratio,
            samples_per_pixel,
            max_depth,
            vertical_fov,
            lookfrom,
            lookat,
            defocus_angle,
            focus_dist,
        }
    }
}

impl Camera {
    /// The camera's configuration is sound for rendering.
    pub open spec fn wf(self) -> bool {
        &&& 0 < self.image_width <= 1000000
        &&& 0 < self.image_height <= 200000000
        &&& 0 < self.samples_per_pixel <= 100000
        &&& 0 <= self.max_depth <= 10000
    }

    /// Derive the viewport geometry from the configuration.
    #[verifier::rlimit(100)]
    pub fn new(
        image_width: i64,
        aspect_ratio: Fx,
        samples_per_pixel: i64,
        max_depth: i64,
        vertical_fov: Fx,
        lookfrom: Point<Fx>,
        lookat: Point<Fx>,
        defocus_angle: Fx,
        focus_dist: Fx,
    ) -> (r: Camera)
        requires
            (CameraBuilder {
                image_width,
                aspect_ratio,
                samples_per_pixel,
                max_depth,
                vertical_fov,
                lookfrom,
                lookat,
                defocus_angle,
                focus_dist,
            }).spec_valid(),
        ensures
            r == (CameraBuilder {
                image_width,
                aspect_ratio,
                samples_per_pixel,
                max_depth,
                vertical_fov,
                lookfrom,
                lookat,
                defocus_angle,
                focus_dist,
            }).spec_camera(),
            r.wf(),
    {
        let ghost b = CameraBuilder {
            image_width,
            aspect_ratio,
            samples_per_pixel,
            max_depth,
            vertical_fov,
            lookfrom,
            lookat,
            defocus_angle,
            focus_dist,
        };
        let wfx = Fx::from_bits(image_width * FX_ONE);
        let q = wfx / aspect_ratio;
        proof {
            let n = b.image_width * (FX_ONE as int) * (FX_ONE as int);
            assert(0 < n <= 4294967296000000);
            assert(tdiv(n, b.aspect_ratio@) == n / b.aspect_ratio@);
            vstd::arithmetic::div_mod::lemma_div_pos_is_pos(n, b.aspect_ratio@);
            vstd::arithmetic::div_mod::lemma_div_is_ordered_by_denominator(n, 655, b.aspect_ratio@);
            vstd::arithmetic::div_mod::lemma_div_is_ordered(n, 4294967296000000, 655);
            assert(0 <= q@ <= 4294967296000000int / 655);
        }
        let hr: i64 = (((q.bits() as u64) + 0x8000) / (FX_ONE as u64)) as i64;
        let image_height: i64 = if hr < 1 {
            1
        } else {
            hr
        };
        proof {
            vstd::arithmetic::div_mod::lemma_div_is_ordered(
                q@ + 0x8000,
                4294967296000000int / 655 + 0x8000,
                0x10000,
            );
            assert(image_height == b.spec_image_height());
            assert(1 <= image_height <= 200000000);
        }

        // create the viewport
        let hfx = Fx::from_bits(image_height * FX_ONE);
        let image_aspect_ratio = wfx / hfx;

        let theta = degrees_to_radians(vertical_fov);
        let h = tan(theta / Fx::from_int(2));
        let viewport_height = Fx::from_int(2) * h * focus_dist;

        let viewport_width = viewport_height * image_aspect_ratio;

        // make the camera basis vectors
        let vup = Vec3::<Fx>::new(Fx::zero(), Fx::one(), Fx::zero());
        let look_dir = lookfrom - lookat;
        let w = match look_dir.normalize() {
            Ok(w) => w,
            Err(_) => {
                // ruled out: a valid configuration looks somewhere
                proof {
                    assert(false);
                }
                vup
            },
        };
        let u_raw = vup.cross(&w);
        let u = match u_raw.normalize() {
            Ok(u) => u,
            Err(_) => {
                // ruled out: a valid configuration spans a basis
                proof {
                    assert(false);
                }
                vup
            },
        };
        let v = w.cross(&u);

        let center = lookfrom;

        // setup the viewport with the unit vectors
        let viewport_u = u * viewport_width;
        let viewport_v = v.neg() * viewport_height;

        let pixel_du = viewport_u / wfx;
        let pixel_dv = viewport_v / hfx;

        let two = Fx::from_int(2);
        let viewport_upper_left = center - (w * focus_dist) - viewport_u / two - viewport_v / two;
        let pixel_00_location = viewport_upper_left + (pixel_du + pixel_dv) * Fx::from_bits(0x8000);

        let defocus_radius = focus_dist * tan(degrees_to_radians(defocus_angle / Fx::from_int(2)));
        let defocus_dist_u = u * defocus_radius;
        let defocus_dist_v = v * defocus_radius;

        proof {
            assert(look_dir == b.spec_look_dir());
            assert(w == b.spec_w());
            assert(u_raw == b.spec_u_raw());
            assert(u == b.sp_u());
            assert(v == b.sp_v());
            assert(image_aspect_ratio@ == b.sp_image_aspect()) by {
                reveal(CameraBuilder::sp_image_aspect);
            }
            assert(h@ == b.sp_h()) by {
                reveal(CameraBuilder::sp_h);
            }
            assert(viewport_height@ == b.sp_viewport_height()) by {
                reveal(CameraBuilder::sp_viewport_height);
            }
            assert(viewport_width@ == b.sp_viewport_width()) by {
                reveal(CameraBuilder::sp_viewport_width);
            }
            assert(viewport_u == b.sp_viewport_u()) by {
                reveal(CameraBuilder::sp_viewport_u);
            }
            assert(viewport_v == b.sp_viewport_v()) by {
                reveal(CameraBuilder::sp_viewport_v);
            }
            assert(pixel_du == b.sp_pixel_du()) by {
                reveal(CameraBuilder::sp_pixel_du);
            }
            assert(pixel_dv == b.sp_pixel_dv()) by {
                reveal(CameraBuilder::sp_pixel_dv);
            }
            assert(viewport_upper_left == b.sp_upper_left()) by {
                reveal(CameraBuilder::sp_upper_left);
            }
            assert(pixel_00_location == b.sp_pixel_00()) by {
                reveal(CameraBuilder::sp_pixel_00);
            }
            assert(defocus_radius@ == b.sp_defocus_radius()) by {
                reveal(CameraBuilder::sp_defocus_radius);
            }
            assert(defocus_dist_u == spec_scale_v(b.sp_u(), b.sp_defocus_radius()));
            assert(defocus_dist_v == spec_scale_v(b.sp_v(), b.sp_defocus_radius()));
        }
        Camera {
            center,
            image_height,
            image_width,
            pixel_00_loc: pixel_00_location,
            pixel_delta_u: pixel_du,
            pixel_delta_v: pixel_dv,
            samples_per_pixel,
            max_depth,
            defocus_dist_u,
            defocus_dist_v,
            defocus_angle,
        }
    }
}

impl core::default::Default for Camera {
    fn default() -> (r: Self)
        ensures
            r == spec_default_builder().spec_camera(),
    {
        let builder = CameraBuilder::default();
        proof {
            crate::fixed::lemma_floor_sqrt_exists(4294967296);
            assert(crate::fixed::is_floor_sqrt(4294967296, 65536)) by (nonlinear_arith);
            crate::fixed::lemma_floor_sqrt_unique(
                4294967296,
                crate::fixed::floor_sqrt(4294967296),
                65536,
            );
            assert(builder.spec_look_dir() == (Vec3 {
                x: fxv(0),
                y: fxv(0),
                z: fxv(FX_ONE as int),
            }));
            assert(4294967296int / 65536 == 65536) by (nonlinear_arith);
            assert(tdiv(65536int * 65536, 65536) == 65536);
            assert(tdiv(0int, 65536) == 0);
            assert(builder.spec_look_dir().mag_sq_int() == FX_ONE as int);
            assert(builder.spec_look_dir().magnitude_int() == 65536);
            assert(builder.spec_w() == (Vec3 { x: fxv(0), y: fxv(0), z: fxv(FX_ONE as int) }));
            assert(builder.spec_u_raw() == (Vec3 { x: fxv(FX_ONE as int), y: fxv(0), z: fxv(0) }));
            assert(builder.spec_u_raw().mag_sq_int() == FX_ONE as int);
            assert(builder.spec_u_raw().magnitude_int() == 65536);
            assert(0 < builder.image_width <= 1000000);
            assert(1048576int / 9 == 116508) by (nonlinear_arith);
            assert(tdiv(16 * FX_ONE as int, 9) == 116508);
            assert(builder.aspect_ratio@ >= 655);
            assert(0 < builder.samples_per_pixel <= 100000);
            assert(0 <= builder.max_depth <= 10000);
            assert(0 < builder.vertical_fov@);
            assert(builder.vertical_fov@ < 180 * FX_ONE as int);
            assert(builder.focus_dist@ > 0);
            assert(builder.spec_valid());
        }
        builder.make_camera()
    }
}

/// Black.
pub open spec fn spec_black() -> Color {
    Color { red: fxv(0), green: fxv(0), blue: fxv(0) }
}

/// White.
pub open spec fn spec_white() -> Color {
    Color { red: fxv(FX_ONE as int), green: fxv(FX_ONE as int), blue: fxv(FX_ONE as int) }
}

/// The sky's color at the top of the background gradient.
pub open spec fn spec_sky() -> Color {
    Color { red: fxv(0x8000), green: fxv(45875), blue: fxv(FX_ONE as int) }
}

/// The lower bound on accepted ray parameters: rejecting hits closer than
/// this avoids self-intersection at the origin of the previous bounce.
pub open spec fn spec_min_hit() -> int {
    tdiv(FX_ONE as int, 100)
}

/// The background gradient for a ray that hits nothing: a vertical blend
/// from white at the horizon to the sky color straight up.  A degenerate
/// zero direction is blended as it stands.
pub open spec fn spec_background(direction: Vec3<Fx>) -> Color {
    let unit = if direction.magnitude_int() == 0 {
        direction
    } else {
        direction.spec_normalized()
    };
    let a = fx_mul(0x8000, fx_add(unit.y@, FX_ONE as int));
    Color {
        red: fxv(fx_add(fx_mul(FX_ONE as int, fx_sub(FX_ONE as int, a)), fx_mul(0x8000, a))),
        green: fxv(fx_add(fx_mul(FX_ONE as int, fx_sub(FX_ONE as int, a)), fx_mul(45875, a))),
        blue: fxv(fx_add(fx_mul(FX_ONE as int, fx_sub(FX_ONE as int, a)), fx_mul(FX_ONE as int, a))),
    }
}

/// The background gradient for a ray that hits nothing.
fn background(direction: &Vec3<Fx>) -> (r: Color)
    ensures
        r == spec_background(*direction),
{
    let unit_direction = match direction.normalize() {
        Ok(u) => u,
        Err(_) => *direction,
    };
    let a = Fx::from_bits(0x8000) * (unit_direction.y + Fx::one());
    let white = Color { red: Fx::one(), green: Fx::one(), blue: Fx::one() };
    let sky = Color { red: Fx::from_bits(0x8000), green: Fx::from_bits(45875), blue: Fx::one() };
    let start_fade = (Fx::one() - a) * white;
    let end_fade = a * sky;
    start_fade + end_fade
}

/// The color a ray resolves to, with the generator state threaded through:
/// an exhausted bounce budget is black; a hit scatters and attenuates the
/// recursive contribution, or absorbs to black; a miss is the background.
pub open spec fn spec_ray_color<T: Hittable>(ray: Ray<Fx>, world: T, depth: int, state: u64) -> (
    Color,
    u64,
)
    decreases depth,
{
    if depth <= 0 {
        (spec_black(), state)
    } else {
        match world.hit_spec(
            ray,
            Interval { min: fxv(spec_min_hit()), max: fxv(i64::MAX as int) },
        ) {
            Some(rec) => {
                let (hu, s1) = spec_hemisphere_from(state, rec.normal, SAMPLE_ATTEMPTS as nat);
                let s2 = spec_advance(s1);
                let un = fxv(spec_unit_bits(spec_mix(s2)));
                match rec.material.scatter_spec(
                    ray,
                    rec,
                    ScatterSample { hemisphere_unit: hu, uniform: un },
                ) {
                    Some(sc) => {
                        let rc = spec_ray_color(sc.0, world, depth - 1, s2);
                        (spec_attenuate(sc.1, rc.0), rc.1)
                    },
                    None => (spec_black(), s2),
                }
            },
            None => (spec_background(ray.spec_direction()), state),
        }
    }
}

/// One pixel ray after another, with the generator state threaded through:
/// the jittered pixel position and the (possibly defocus-sampled) origin.
pub open spec fn spec_get_ray(cam: Camera, i: int, j: int, state: u64) -> (Ray<Fx>, u64) {
    let s1 = spec_advance(state);
    let offx = spec_offset_bits(spec_mix(s1));
    let s2 = spec_advance(s1);
    let offy = spec_offset_bits(spec_mix(s2));
    let osp = if cam.defocus_angle@ <= 0 {
        (cam.center, s2)
    } else {
        let ps = spec_disk_from(s2, SAMPLE_ATTEMPTS as nat);
        (
            Point {
                x: fxv(
                    fx_add(
                        fx_add(cam.center.x@, fx_mul(cam.defocus_dist_u.x@, ps.0.x@)),
                        fx_mul(cam.defocus_dist_v.x@, ps.0.y@),
                    ),
                ),
                y: fxv(
                    fx_add(
                        fx_add(cam.center.y@, fx_mul(cam.defocus_dist_u.y@, ps.0.x@)),
                        fx_mul(cam.defocus_dist_v.y@, ps.0.y@),
                    ),
                ),
                z: fxv(
                    fx_add(
                        fx_add(cam.center.z@, fx_mul(cam.defocus_dist_u.z@, ps.0.x@)),
                        fx_mul(cam.defocus_dist_v.z@, ps.0.y@),
                    ),
                ),
            },
            ps.1,
        )
    };
    let ifx = fx_add(i * FX_ONE as int, offx);
    let jfx = fx_add(j * FX_ONE as int, offy);
    let pc = Point {
        x: fxv(
            fx_add(
                fx_add(cam.pixel_00_loc.x@, fx_mul(cam.pixel_delta_u.x@, ifx)),
                fx_mul(cam.pixel_delta_v.x@, jfx),
            ),
        ),
        y: fxv(
            fx_add(
                fx_add(cam.pixel_00_loc.y@, fx_mul(cam.pixel_delta_u.y@, ifx)),
                fx_mul(cam.pixel_delta_v.y@, jfx),
            ),
        ),
        z: fxv(
            fx_add(
                fx_add(cam.pixel_00_loc.z@, fx_mul(cam.pixel_delta_u.z@, ifx)),
                fx_mul(cam.pixel_delta_v.z@, jfx),
            ),
        ),
    };
    let dir = Vec3 {
        x: fxv(fx_sub(pc.x@, osp.0.x@)),
        y: fxv(fx_sub(pc.y@, osp.0.y@)),
        z: fxv(fx_sub(pc.z@, osp.0.z@)),
    };
    (Ray { origin: osp.0, direction: dir }, osp.1)
}

/// The sum of the given number of successive samples of one pixel, with the
/// generator state threaded through.
pub open spec fn spec_sample_sum<T: Hittable>(
    cam: Camera,
    world: T,
    i: int,
    j: int,
    n: int,
    state: u64,
) -> (Color, u64)
    decreases n,
{
    if n <= 0 {
        (spec_black(), state)
    } else {
        let rs = spec_get_ray(cam, i, j, state);
        let cs = spec_ray_color(rs.0, world, cam.max_depth as int, rs.1);
        let rest = spec_sample_sum(cam, world, i, j, n - 1, cs.1);
        (
            Color {
                red: fxv(fx_add(cs.0.red@, rest.0.red@)),
                green: fxv(fx_add(cs.0.green@, rest.0.green@)),
                blue: fxv(fx_add(cs.0.blue@, rest.0.blue@)),
            },
            rest.1,
        )
    }
}

/// One finished pixel: the sample sum scaled by one over the sample count.
pub open spec fn spec_pixel<T: Hittable>(cam: Camera, world: T, i: int, j: int, state: u64) -> (
    Color,
    u64,
)
    recommends
        cam.wf(),
{
    let scale = fx_div(FX_ONE as int, cam.samples_per_pixel * FX_ONE as int);
    let ss = spec_sample_sum(cam, world, i, j, cam.samples_per_pixel as int, state);
    (
        Color {
            red: fxv(fx_mul(ss.0.red@, scale)),
            green: fxv(fx_mul(ss.0.green@, scale)),
            blue: fxv(fx_mul(ss.0.blue@, scale)),
        },
        ss.1,
    )
}

/// The colors of one row from the given column on, with the generator state
/// threaded from pixel to pixel.
pub open spec fn spec_cols<T: Hittable>(cam: Camera, world: T, j: int, i: int, state: u64)
    -> Seq<Color>
    decreases cam.image_width - i,
{
    if i >= cam.image_width {
        Seq::empty()
    } else {
        let ps = spec_pixel(cam, world, i, j, state);
        seq![ps.0] + spec_cols(cam, world, j, i + 1, ps.1)
    }
}

/// The per-row seed: rows are seeded independently, so they can be rendered
/// in any order (or in parallel) with the same result.
pub open spec fn spec_row_seed(seed: u64, j: int) -> u64 {
    spec_mix(seed.wrapping_add((j as u64).wrapping_mul(0x9E3779B97F4A7C15)))
}

/// The whole image: row `j` of the grid is row `j` of this sequence.
pub open spec fn spec_render<T: Hittable>(cam: Camera, world: T, seed: u64) -> Seq<Seq<Color>> {
    Seq::new(cam.image_height as nat, |j: int| spec_cols(cam, world, j, 0, spec_row_seed(seed, j)))
}

/// The grid `r` is the image that `seed` renders, row for row.
pub open spec fn spec_rows_match<T: Hittable>(
    cam: Camera,
    world: T,
    seed: u64,
    r: Seq<Vec<Color>>,
) -> bool {
    forall|j: int|
        0 <= j < cam.image_height ==> (#[trigger] r[j])@ == spec_render(cam, world, seed)[j]
}

/// The per-row seed, computed.
pub fn row_seed(seed: u64, j: u64) -> (r: u64)
    ensures
        r == spec_row_seed(seed, j as int),
{
    let s = seed.wrapping_add(j.wrapping_mul(0x9E3779B97F4A7C15u64));
    let z1 = (s ^ (s >> 30)).wrapping_mul(0xBF58476D1CE4E5B9u64);
    let z2 = (z1 ^ (z1 >> 27)).wrapping_mul(0x94D049BB133111EBu64);
    z2 ^ (z2 >> 31)
}

impl Camera {
    /// The jitter offset for one sample: uniform in `[-1/2, 1/2)` in x and y.
    fn sample_square(rng: &mut Prng) -> (r: Vec3<Fx>)
        ensures
            final(rng).state == spec_advance(spec_advance(old(rng).state)),
            r.x@ == spec_offset_bits(spec_mix(spec_advance(old(rng).state))),
            r.y@ == spec_offset_bits(spec_mix(spec_advance(spec_advance(old(rng).state)))),
            r.z@ == 0,
    {
        let x = rng.next_offset();
        let y = rng.next_offset();
        Vec3::new(x, y, Fx::zero())
    }

    /// A ray origin sampled from the defocus disk.
    fn defocus_disk_sample(&self, rng: &mut Prng) -> (r: Point<Fx>)
        ensures
            ({
                let ps = spec_disk_from(old(rng).state, SAMPLE_ATTEMPTS as nat);
                final(rng).state == ps.1 && r == (Point {
                    x: fxv(
                        fx_add(
                            fx_add(self.center.x@, fx_mul(self.defocus_dist_u.x@, ps.0.x@)),
                            fx_mul(self.defocus_dist_v.x@, ps.0.y@),
                        ),
                    ),
                    y: fxv(
                        fx_add(
                            fx_add(self.center.y@, fx_mul(self.defocus_dist_u.y@, ps.0.x@)),
                            fx_mul(self.defocus_dist_v.y@, ps.0.y@),
                        ),
                    ),
                    z: fxv(
                        fx_add(
                            fx_add(self.center.z@, fx_mul(self.defocus_dist_u.z@, ps.0.x@)),
                            fx_mul(self.defocus_dist_v.z@, ps.0.y@),
                        ),
                    ),
                })
            }),
    {
        let p = Vec3::<Fx>::random_in_unit_dist(rng);
        self.center + (p.x * self.defocus_dist_u) + (p.y * self.defocus_dist_v)
    }

    /// The sample ray through pixel `(i, j)`, jittered for antialiasing and,
    /// with a positive defocus angle, starting on the defocus disk.
    pub fn get_ray(&self, i: i64, j: i64, rng: &mut Prng) -> (r: Ray<Fx>)
        requires
            0 <= i <= 200000000,
            0 <= j <= 200000000,
        ensures
            ({
                let rs = spec_get_ray(*self, i as int, j as int, old(rng).state);
                r == rs.0 && final(rng).state == rs.1
            }),
    {
        let offset = Camera::sample_square(rng);
        let ray_origin = if self.defocus_angle.bits() <= 0 {
            self.center
        } else {
            self.defocus_disk_sample(rng)
        };
        let ifx = Fx::from_bits(i * FX_ONE);
        let jfx = Fx::from_bits(j * FX_ONE);
        let pixel_center = self.pixel_00_loc + (self.pixel_delta_u * (ifx + offset.x)) + (
        self.pixel_delta_v * (jfx + offset.y));
        let ray_direction = pixel_center - ray_origin;

        Ray::new(ray_origin, ray_direction)
    }

    /// Resolve a ray's color against the scene: exhausting the bounce budget
    /// is a hard terminal (black), absorption is black, and a miss falls
    /// back to the background gradient.
    pub fn get_ray_color<T: Hittable>(
        &self,
        ray: Ray<Fx>,
        world: &T,
        remaining_bounces: i64,
        rng: &mut Prng,
    ) -> (r: Color)
        requires
            world.wf(),
        ensures
            ({
                let cs = spec_ray_color(ray, *world, remaining_bounces as int, old(rng).state);
                r == cs.0 && final(rng).state == cs.1
            }),
        decreases remaining_bounces,
    {
        if remaining_bounces <= 0 {
            return Color { red: Fx::zero(), green: Fx::zero(), blue: Fx::zero() };
        }

        match world.hit(&ray, Interval::new(Fx::from_ratio(1, 100), Fx::from_bits(i64::MAX))) {
            // if we hit something
            Some(hit_record) => {
                let hu = Vec3::<Fx>::random_unit_vector_same_hemisphere(&hit_record.normal, rng);
                let un = rng.next_unit();
                let sample = ScatterSample { hemisphere_unit: hu, uniform: un };
                // then scatter off that something
                match hit_record.material.scatter(&ray, &hit_record, &sample) {
                    // if the scatterer produces a valid scatter
                    Some((scattered_ray, attenuation)) => {
                        let scatter_result = self.get_ray_color(
                            scattered_ray,
                            world,
                            remaining_bounces - 1,
                            rng,
                        );
                        crate::color::attenuate(attenuation, scatter_result)
                    },
                    // else no way to scatter so return black
                    None => Color { red: Fx::zero(), green: Fx::zero(), blue: Fx::zero() },
                }
            },
            // hit nothing, so grab the background color (diffuse light source)
            None => background(ray.get_direction()),
        }
    }

    fn sample_sum<T: Hittable>(
        &self,
        world: &T,
        i: i64,
        j: i64,
        n: i64,
        rng: &mut Prng,
    ) -> (r: Color)
        requires
            world.wf(),
            0 <= i <= 200000000,
            0 <= j <= 200000000,
        ensures
            ({
                let ss = spec_sample_sum(*self, *world, i as int, j as int, n as int, old(rng).state);
                r == ss.0 && final(rng).state == ss.1
            }),
        decreases n,
    {
        if n <= 0 {
            return Color { red: Fx::zero(), green: Fx::zero(), blue: Fx::zero() };
        }
        let ray = self.get_ray(i, j, rng);
        let c = self.get_ray_color(ray, world, self.max_depth, rng);
        let rest = self.sample_sum(world, i, j, n - 1, rng);
        c + rest
    }

    /// Render one row of the image: every column, each averaged over the
    /// per-pixel samples, from the row's own seed.
    pub fn render_row<T: Hittable>(&self, world: &T, row: i64, seed: u64) -> (r: Vec<Color>)
        requires
            self.wf(),
            world.wf(),
            0 <= row <= 200000000,
        ensures
            r@ == spec_cols(*self, *world, row as int, 0, spec_row_seed(seed, row as int)),
    {
        let mut rng = Prng::seeded(row_seed(seed, row as u64));
        let ghost full = spec_cols(*self, *world, row as int, 0, spec_row_seed(seed, row as int));
        let mut pixels: Vec<Color> = Vec::new();
        let mut i: i64 = 0;
        proof {
            assert(pixels@ + spec_cols(*self, *world, row as int, 0, rng.state) =~= full);
        }
        let pixel_sample_scale = Fx::one() / Fx::from_bits(self.samples_per_pixel * FX_ONE);
        while i < self.image_width
            invariant
                self.wf(),
                world.wf(),
                0 <= row <= 200000000,
                0 <= i <= self.image_width,
                pixels@.len() == i,
                pixel_sample_scale@ == fx_div(FX_ONE as int, self.samples_per_pixel * FX_ONE as int),
                pixels@ + spec_cols(*self, *world, row as int, i as int, rng.state) == full,
            decreases self.image_width - i,
        {
            let ghost state0 = rng.state;
            let sum = self.sample_sum(world, i, row, self.samples_per_pixel, &mut rng);
            let pixel = sum * pixel_sample_scale;
            proof {
                let ps = spec_pixel(*self, *world, i as int, row as int, state0);
                assert(pixel == ps.0);
                assert(spec_cols(*self, *world, row as int, i as int, state0) =~= seq![ps.0]
                    + spec_cols(*self, *world, row as int, i as int + 1, ps.1));
            }
            pixels.push(pixel);
            proof {
                assert(pixels@ + spec_cols(*self, *world, row as int, i as int + 1, rng.state)
                    =~= full);
            }
            i = i + 1;
        }
        pixels
    }

    /// Render the whole image from the given seed: a row-major grid of
    /// averaged colors, deterministic in the camera, the scene and the seed.
    pub fn render_seeded<T: Hittable>(&self, world: &T, seed: u64) -> (r: Vec<Vec<Color>>)
        requires
            self.wf(),
            world.wf(),
        ensures
            r@.len() == self.image_height,
            forall|j: int|
                0 <= j < self.image_height ==> (#[trigger] r@[j])@ == spec_render(
                    *self,
                    *world,
                    seed,
                )[j],
    {
        let mut rows: Vec<Vec<Color>> = Vec::new();
        let mut j: i64 = 0;
        while j < self.image_height
            invariant
                self.wf(),
                world.wf(),
                0 <= j <= self.image_height,
                rows@.len() == j,
                forall|k: int|
                    0 <= k < j ==> (#[trigger] rows@[k])@ == spec_cols(
                        *self,
                        *world,
                        k,
                        0,
                        spec_row_seed(seed, k),
                    ),
            decreases self.image_height - j,
        {
            let row = self.render_row(world, j, seed);
            rows.push(row);
            j = j + 1;
        }
        rows
    }

    /// Render the whole image from a fresh seed.  The pixel layout does not
    /// depend on the seed; the sampled radiance does.
    pub fn render<T: Hittable>(&self, world: &T) -> (r: Vec<Vec<Color>>)
        requires
            self.wf(),
            world.wf(),
        ensures
            r@.len() == self.image_height,
            exists|seed: u64| #[trigger] spec_rows_match(*self, *world, seed, r@),
    {
        let seed = crate::rng::fresh_seed();
        let r = self.render_seeded(world, seed);
        proof {
            assert(spec_rows_match(*self, *world, seed, r@));
        }
        r
    }
}

} // verus!
