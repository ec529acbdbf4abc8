//! An interval of the ray parameter, from a low to a high bound.

use vstd::prelude::*;
use crate::fixed::Fx;

verus! {

/// A closed numeric range `[min, max]` over the fixed-point scalar, used both
/// as a validity window for the ray parameter and as a shrinking
/// closest-hit-so-far bound.  The ends of the representable range stand in
/// for the infinities.
#[derive(Debug, Clone, Copy)]
pub struct Interval {
    pub min: Fx,
    pub max: Fx,
}

impl Interval {
    /// The interval from `min` to `max`.
    pub fn new(min: Fx, max: Fx) -> (r: Interval)
        ensures
            r.min == min,
            r.max == max,
    {
        Interval { min, max }
    }

    /// The widest representable interval.
    pub fn universe() -> (r: Interval)
        ensures
            r.min@ == i64::MIN,
            r.max@ == i64::MAX,
    {
        Interval::new(Fx::from_bits(i64::MIN), Fx::from_bits(i64::MAX))
    }

    /// An interval that contains nothing.
    pub fn empty() -> (r: Interval)
        ensures
            r.min@ == i64::MAX,
            r.max@ == i64::MIN,
    {
        Interval::new(Fx::from_bits(i64::MAX), Fx::from_bits(i64::MIN))
    }

    /// Whether `val` lies in `[min, max]` (inclusive), at the specification level.
    pub open spec fn spec_contains(self, val: Fx) -> bool {
        self.min@ <= val@ <= self.max@
    }

    /// Checks if value is in `[min, max]` (aka inclusive).
    pub fn contains(&self, val: Fx) -> (r: bool)
        ensures
            r <==> self.spec_contains(val),
    {
        self.min.le(val) && val.le(self.max)
    }

    /// Whether `val` lies strictly between the bounds, at the specification level.
    pub open spec fn spec_surrounds(self, val: Fx) -> bool {
        self.min@ < val@ < self.max@
    }

    /// Stricter version of `contains`. Checks for `(min, max)` (aka exclusive).
    pub fn surrounds(&self, val: Fx) -> (r: bool)
        ensures
            r <==> self.spec_surrounds(val),
    {
        self.min.lt(val) && val.lt(self.max)
    }

    /// `val` pushed into `[min, max]`, at the specification level.
    pub open spec fn spec_clamp(self, val: Fx) -> Fx {
        if val@ < self.min@ {
            self.min
        } else if val@ > self.max@ {
            self.max
        } else {
            val
        }
    }

    /// Saturate `val` into `[min, max]`.
    pub fn clamp(&self, val: Fx) -> (r: Fx)
        ensures
            r == self.spec_clamp(val),
    {
        if val.lt(self.min) {
            self.min
        } else if self.max.lt(val) {
            self.max
        } else {
            val
        }
    }
}

} // verus!
