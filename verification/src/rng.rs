//! The pseudo-random source for sampling.
//!
//! Every random draw the renderer makes (pixel jitter, defocus sampling, the
//! dielectric's stochastic reflect/refract choice, hemisphere sampling) comes
//! from an explicit, seedable generator that is threaded through the calls,
//! so a render is a deterministic function of its seed and tests can
//! substitute a fixed one.  An unseeded render takes its seed from the
//! process-wide generator of the `rand` crate.

use vstd::prelude::*;
use core::ops::Neg;
use crate::fixed::{Fx, FX_ONE, fxv};
use crate::vector::{Vec3, spec_neg_v};

verus! {

/// How many rejection-sampling attempts a bounded sampler makes before it
/// falls back to a fixed safe value.
pub const SAMPLE_ATTEMPTS: u32 = 16;

/// The state transition of the generator (the splitmix64 increment).
pub open spec fn spec_advance(s: u64) -> u64 {
    s.wrapping_add(0x9E3779B97F4A7C15)
}

/// The output function of the generator (the splitmix64 finalizer).
pub open spec fn spec_mix(s: u64) -> u64 {
    let z1 = (s ^ (s >> 30)).wrapping_mul(0xBF58476D1CE4E5B9);
    let z2 = (z1 ^ (z1 >> 27)).wrapping_mul(0x94D049BB133111EB);
    z2 ^ (z2 >> 31)
}

/// A uniform draw in `[0, 1)` from one generator output: the low bits.
pub open spec fn spec_unit_bits(o: u64) -> int {
    (o % 0x10000) as int
}

/// A uniform draw in `[-1/2, 1/2)` from one generator output.
pub open spec fn spec_offset_bits(o: u64) -> int {
    (o % 0x10000) as int - 0x8000
}

/// A uniform draw in `[-1, 1)` from one generator output.
pub open spec fn spec_component_bits(o: u64) -> int {
    (o % 0x20000) as int - 0x10000
}

/// A splitmix64 generator: 64 bits of state, advanced by a fixed increment
/// and finalized by xor-shift-multiply rounds.
#[derive(Debug, Clone, Copy, PartialEq, Eq, Structural)]
pub struct Prng {
    pub state: u64,
}

impl Prng {
    /// A generator starting from the given seed.
    pub fn seeded(seed: u64) -> (r: Prng)
        ensures
            r.state == seed,
    {
        Prng { state: seed }
    }

    /// The next raw 64-bit output.
    pub fn next_u64(&mut self) -> (r: u64)
        ensures
            final(self).state == spec_advance(old(self).state),
            r == spec_mix(final(self).state),
    {
        self.state = self.state.wrapping_add(0x9E3779B97F4A7C15u64);
        let s = self.state;
        let z1 = (s ^ (s >> 30)).wrapping_mul(0xBF58476D1CE4E5B9u64);
        let z2 = (z1 ^ (z1 >> 27)).wrapping_mul(0x94D049BB133111EBu64);
        z2 ^ (z2 >> 31)
    }

    /// A uniform scalar in `[0, 1)`.
    pub fn next_unit(&mut self) -> (r: Fx)
        ensures
            final(self).state == spec_advance(old(self).state),
            r@ == spec_unit_bits(spec_mix(final(self).state)),
    {
        let o = self.next_u64();
        Fx::from_bits((o % 0x10000) as i64)
    }

    /// A uniform scalar in `[-1/2, 1/2)`.
    pub fn next_offset(&mut self) -> (r: Fx)
        ensures
            final(self).state == spec_advance(old(self).state),
            r@ == spec_offset_bits(spec_mix(final(self).state)),
    {
        let o = self.next_u64();
        Fx::from_bits((o % 0x10000) as i64 - 0x8000)
    }

    /// A uniform scalar in `[-1, 1)`.
    pub fn next_component(&mut self) -> (r: Fx)
        ensures
            final(self).state == spec_advance(old(self).state),
            r@ == spec_component_bits(spec_mix(final(self).state)),
    {
        let o = self.next_u64();
        Fx::from_bits((o % 0x20000) as i64 - 0x10000)
    }
}

/// A magnitude of at least one step has a nonzero square root.
pub proof fn lemma_mag_at_least_one(v: Vec3<Fx>)
    requires
        v.mag_sq_int() >= 1,
    ensures
        v.magnitude_int() >= 256,
{
    crate::fixed::lemma_floor_sqrt_exists(v.mag_sq_int() * FX_ONE as int);
    let r = crate::fixed::floor_sqrt(v.mag_sq_int() * FX_ONE as int);
    assert(r >= 256) by (nonlinear_arith)
        requires
            0 <= r,
            r * r <= v.mag_sq_int() * FX_ONE as int,
            v.mag_sq_int() * (FX_ONE as int) < (r + 1) * (r + 1),
            v.mag_sq_int() >= 1,
    ;
}

/// One attempt of hemisphere sampling after another, at the specification
/// level: draw a vector in the cube, keep it if it falls inside the unit
/// ball (and is long enough to normalize), flip it into the normal's
/// hemisphere; when every attempt misses, the normal itself stands in.
pub open spec fn spec_hemisphere_from(state: u64, normal: Vec3<Fx>, attempts: nat) -> (Vec3<Fx>, u64)
    decreases attempts,
{
    if attempts == 0 {
        (normal, state)
    } else {
        let s1 = spec_advance(state);
        let s2 = spec_advance(s1);
        let s3 = spec_advance(s2);
        let p = Vec3 {
            x: fxv(spec_component_bits(spec_mix(s1))),
            y: fxv(spec_component_bits(spec_mix(s2))),
            z: fxv(spec_component_bits(spec_mix(s3))),
        };
        let ms = p.mag_sq_int();
        if 0 < ms <= FX_ONE as int {
            let u = p.spec_normalized();
            let flipped = if u.dot_int(normal) < 0 {
                spec_neg_v(u)
            } else {
                u
            };
            (flipped, s3)
        } else {
            spec_hemisphere_from(s3, normal, (attempts - 1) as nat)
        }
    }
}

/// One attempt of defocus-disk sampling after another, at the specification
/// level: draw a point in the square, keep it if it falls strictly inside
/// the unit disk; when every attempt misses, the disk center stands in.
pub open spec fn spec_disk_from(state: u64, attempts: nat) -> (Vec3<Fx>, u64)
    decreases attempts,
{
    if attempts == 0 {
        (Vec3 { x: fxv(0), y: fxv(0), z: fxv(0) }, state)
    } else {
        let s1 = spec_advance(state);
        let s2 = spec_advance(s1);
        let p = Vec3 {
            x: fxv(spec_component_bits(spec_mix(s1))),
            y: fxv(spec_component_bits(spec_mix(s2))),
            z: fxv(0),
        };
        if p.mag_sq_int() < FX_ONE as int {
            (p, s2)
        } else {
            spec_disk_from(s2, (attempts - 1) as nat)
        }
    }
}

fn hemisphere_attempt(normal: &Vec3<Fx>, rng: &mut Prng, attempts: u32) -> (r: Vec3<Fx>)
    ensures
        ({
            let (v, s) = spec_hemisphere_from(old(rng).state, *normal, attempts as nat);
            r == v && final(rng).state == s
        }),
    decreases attempts,
{
    if attempts == 0 {
        return *normal;
    }
    let x = rng.next_component();
    let y = rng.next_component();
    let z = rng.next_component();
    let p = Vec3::new(x, y, z);
    let ms = p.magnitude_squared();
    if 0 < ms.bits() && ms.bits() <= FX_ONE {
        proof {
            lemma_mag_at_least_one(p);
        }
        match p.normalize() {
            Ok(u) => {
                let d = u.dot(normal);
                if d.bits() < 0 {
                    u.neg()
                } else {
                    u
                }
            },
            Err(_) => {
                // a magnitude of at least one step cannot round to zero
                proof {
                    assert(false);
                }
                *normal
            },
        }
    } else {
        hemisphere_attempt(normal, rng, attempts - 1)
    }
}

impl Vec3<Fx> {
    /// A unit-length vector drawn uniformly, flipped into the hemisphere of
    /// `normal`; after too many rejected draws, `normal` itself.
    pub fn random_unit_vector_same_hemisphere(normal: &Vec3<Fx>, rng: &mut Prng) -> (r: Vec3<Fx>)
        ensures
            ({
                let (v, s) = spec_hemisphere_from(old(rng).state, *normal, SAMPLE_ATTEMPTS as nat);
                r == v && final(rng).state == s
            }),
    {
        hemisphere_attempt(normal, rng, SAMPLE_ATTEMPTS)
    }

    /// A point drawn uniformly from the unit disk in the xy plane; after too
    /// many rejected draws, the center.
    pub fn random_in_unit_dist(rng: &mut Prng) -> (r: Vec3<Fx>)
        ensures
            ({
                let (v, s) = spec_disk_from(old(rng).state, SAMPLE_ATTEMPTS as nat);
                r == v && final(rng).state == s
            }),
    {
        disk_attempt(rng, SAMPLE_ATTEMPTS)
    }
}

fn disk_attempt(rng: &mut Prng, attempts: u32) -> (r: Vec3<Fx>)
    ensures
        ({
            let (v, s) = spec_disk_from(old(rng).state, attempts as nat);
            r == v && final(rng).state == s
        }),
    decreases attempts,
{
    if attempts == 0 {
        return Vec3::new(Fx::zero(), Fx::zero(), Fx::zero());
    }
    let x = rng.next_component();
    let y = rng.next_component();
    let p = Vec3::new(x, y, Fx::zero());
    let ms = p.magnitude_squared();
    if ms.bits() < FX_ONE {
        p
    } else {
        disk_attempt(rng, attempts - 1)
    }
}

/// Relies on rand::random: a fresh seed from the process-wide generator.
/// Nothing is promised of the value.
#[verifier::external_body]
pub fn fresh_seed() -> u64 {
    rand::random::<u64>()
}

} // verus!
