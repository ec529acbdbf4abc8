//! A saturating fixed-point scalar.
//!
//! `Fx` stores a real quantity as `bits / 65536`.  Addition, subtraction,
//! multiplication and division are total: a result that would leave the
//! representable range saturates to the nearest end, much as overly large
//! magnitudes degenerate in any bounded numeric representation.  Every
//! operation is pinned down exactly by a spec-level counterpart, so all
//! geometry built on `Fx` has an exact, deterministic meaning.

use vstd::prelude::*;

verus! {

/// The scale of the representation: `Fx` values are `bits / FX_ONE`.
pub const FX_ONE: i64 = 65536;

/// Absolute value, at the specification level.
pub open spec fn iabs(x: int) -> int {
    if x < 0 {
        -x
    } else {
        x
    }
}

/// Saturate an unbounded integer into the `i64` range.
pub open spec fn sat64(x: int) -> int {
    if x > i64::MAX {
        i64::MAX as int
    } else if x < i64::MIN {
        i64::MIN as int
    } else {
        x
    }
}

/// Division rounding toward zero (the behaviour of `/` on machine integers).
pub open spec fn tdiv(a: int, b: int) -> int
    recommends
        b != 0,
{
    if (a < 0) != (b < 0) {
        -(iabs(a) / iabs(b))
    } else {
        iabs(a) / iabs(b)
    }
}

/// Sum of two scalars, saturated.
pub open spec fn fx_add(a: int, b: int) -> int {
    sat64(a + b)
}

/// Difference of two scalars, saturated.
pub open spec fn fx_sub(a: int, b: int) -> int {
    sat64(a - b)
}

/// Negation of a scalar, saturated.
pub open spec fn fx_neg(a: int) -> int {
    sat64(-a)
}

/// Product of two scalars: the wide product rescaled, truncated toward zero, saturated.
pub open spec fn fx_mul(a: int, b: int) -> int {
    sat64(tdiv(a * b, FX_ONE as int))
}

/// Quotient of two scalars: the widened dividend, truncated toward zero, saturated.
pub open spec fn fx_div(a: int, b: int) -> int
    recommends
        b != 0,
{
    sat64(tdiv(a * FX_ONE, b))
}

/// `r` is the integer square root of `n`, rounded down.
pub open spec fn is_floor_sqrt(n: int, r: int) -> bool {
    0 <= r && r * r <= n && n < (r + 1) * (r + 1)
}

/// The integer square root of `n`, rounded down.
pub open spec fn floor_sqrt(n: int) -> int
    recommends
        n >= 0,
{
    choose|r: int| is_floor_sqrt(n, r)
}

/// Square root of a scalar, rounded down to the representation's precision.
pub open spec fn fx_sqrt(a: int) -> int
    recommends
        a >= 0,
{
    floor_sqrt(a * FX_ONE)
}

/// The rounded-down integer square root exists for every nonnegative integer.
pub proof fn lemma_floor_sqrt_exists(n: int)
    requires
        n >= 0,
    ensures
        is_floor_sqrt(n, floor_sqrt(n)),
    decreases n,
{
    if n == 0 {
        assert(is_floor_sqrt(0, 0));
    } else {
        lemma_floor_sqrt_exists(n - 1);
        let p = floor_sqrt(n - 1);
        if (p + 1) * (p + 1) <= n {
            assert(n < (p + 2) * (p + 2)) by (nonlinear_arith)
                requires
                    n - 1 < (p + 1) * (p + 1),
                    0 <= p,
            ;
            assert(is_floor_sqrt(n, p + 1));
        } else {
            assert(is_floor_sqrt(n, p));
        }
    }
}

/// Only one integer is the rounded-down square root of `n`.
pub proof fn lemma_floor_sqrt_unique(n: int, r1: int, r2: int)
    requires
        is_floor_sqrt(n, r1),
        is_floor_sqrt(n, r2),
    ensures
        r1 == r2,
{
    assert(r1 == r2) by (nonlinear_arith)
        requires
            0 <= r1 && r1 * r1 <= n && n < (r1 + 1) * (r1 + 1),
            0 <= r2 && r2 * r2 <= n && n < (r2 + 1) * (r2 + 1),
    ;
}

/// The scalar with the given spec-level step count (which must be in range).
pub open spec fn fxv(bits: int) -> Fx {
    Fx { bits: bits as i64 }
}

/// The square root of zero is zero.
pub proof fn lemma_floor_sqrt_zero()
    ensures
        floor_sqrt(0) == 0,
{
    lemma_floor_sqrt_exists(0);
    lemma_floor_sqrt_unique(0, floor_sqrt(0), 0);
}

/// The square root of one is one.
pub proof fn lemma_fx_sqrt_one()
    ensures
        fx_sqrt(FX_ONE as int) == FX_ONE as int,
{
    lemma_floor_sqrt_exists(FX_ONE as int * FX_ONE as int);
    assert(is_floor_sqrt(4294967296, 65536)) by (nonlinear_arith);
    lemma_floor_sqrt_unique(4294967296, floor_sqrt(4294967296), 65536);
}

/// A square root of a nonnegative scalar is nonnegative and exact.
pub proof fn lemma_fx_sqrt_props(a: int)
    requires
        a >= 0,
    ensures
        fx_sqrt(a) >= 0,
        is_floor_sqrt(a * FX_ONE as int, fx_sqrt(a)),
{
    lemma_floor_sqrt_exists(a * FX_ONE as int);
}

/// Multiplying by one changes nothing.
pub proof fn lemma_fx_mul_unit(x: int)
    requires
        i64::MIN <= x <= i64::MAX,
    ensures
        fx_mul(x, FX_ONE as int) == x,
{
    if x >= 0 {
        vstd::arithmetic::div_mod::lemma_div_multiples_vanish(x, FX_ONE as int);
        assert(iabs(x * FX_ONE) == x * FX_ONE) by (nonlinear_arith)
            requires
                x >= 0,
        ;
    } else {
        vstd::arithmetic::div_mod::lemma_div_multiples_vanish(-x, FX_ONE as int);
        assert(iabs(x * FX_ONE) == (-x) * FX_ONE) by (nonlinear_arith)
            requires
                x < 0,
        ;
        assert((x * FX_ONE as int) < 0) by (nonlinear_arith)
            requires
                x < 0,
        ;
    }
}

/// Truncating division shrinks magnitudes: the quotient's magnitude is the
/// magnitude quotient.
pub proof fn lemma_tdiv_abs(a: int, b: int)
    requires
        b != 0,
    ensures
        iabs(tdiv(a, b)) == iabs(a) / iabs(b),
{
    vstd::arithmetic::div_mod::lemma_div_pos_is_pos(iabs(a), iabs(b));
}

/// Negating the dividend negates a truncating quotient.
pub proof fn lemma_tdiv_neg(a: int, b: int)
    requires
        b != 0,
    ensures
        tdiv(-a, b) == -tdiv(a, b),
{
}

/// Truncating division keeps the order of its dividends.
pub proof fn lemma_tdiv_mono(n1: int, n2: int, d: int)
    requires
        n1 <= n2,
        d > 0,
    ensures
        tdiv(n1, d) <= tdiv(n2, d),
{
    if n1 >= 0 {
        vstd::arithmetic::div_mod::lemma_div_is_ordered(n1, n2, d);
    } else if n2 < 0 {
        vstd::arithmetic::div_mod::lemma_div_is_ordered(-n2, -n1, d);
    } else {
        vstd::arithmetic::div_mod::lemma_div_pos_is_pos(-n1, d);
        vstd::arithmetic::div_mod::lemma_div_pos_is_pos(n2, d);
    }
}

/// Division by a positive scalar keeps the order of its dividends.
pub proof fn lemma_fx_div_mono(n1: int, n2: int, d: int)
    requires
        n1 <= n2,
        d > 0,
    ensures
        fx_div(n1, d) <= fx_div(n2, d),
{
    assert(n1 * FX_ONE <= n2 * FX_ONE) by (nonlinear_arith)
        requires
            n1 <= n2,
    ;
    lemma_tdiv_mono(n1 * FX_ONE as int, n2 * FX_ONE as int, d);
}

/// A real quantity as a signed 64-bit count of 1/65536 steps.
#[derive(Clone, Copy, Debug, PartialEq, Eq, Structural, PartialOrd, Ord)]
pub struct Fx {
    pub bits: i64,
}

impl View for Fx {
    type V = int;

    open spec fn view(&self) -> int {
        self.bits as int
    }
}

impl Fx {
    /// The raw step count, for reading exact values out.
    pub fn bits(self) -> (r: i64)
        ensures
            r as int == self@,
    {
        self.bits
    }

    /// A scalar from a raw step count: the value `bits / 65536`.
    pub fn from_bits(bits: i64) -> (r: Fx)
        ensures
            r@ == bits as int,
    {
        Fx { bits }
    }

    /// An integer as a scalar, exactly.
    pub fn from_int(v: i32) -> (r: Fx)
        ensures
            r@ == v as int * FX_ONE as int,
    {
        Fx { bits: (v as i64) * FX_ONE }
    }

    /// The scalar `num / den`, at the representation's precision.
    pub fn from_ratio(num: i32, den: i32) -> (r: Fx)
        requires
            den != 0,
        ensures
            r@ == tdiv(num as int * FX_ONE as int, den as int),
    {
        let scaled: i64 = (num as i64) * FX_ONE;
        let neg: bool = (scaled < 0) != (den < 0);
        let nmag: u64 = if scaled < 0 {
            (-scaled) as u64
        } else {
            scaled as u64
        };
        let dmag: u64 = if den < 0 {
            (-(den as i64)) as u64
        } else {
            den as u64
        };
        let q: u64 = nmag / dmag;
        if neg && q > 0 {
            Fx { bits: -(q as i64) }
        } else {
            Fx { bits: q as i64 }
        }
    }

    /// Zero.
    pub fn zero() -> (r: Fx)
        ensures
            r@ == 0,
    {
        Fx { bits: 0 }
    }

    /// One.
    pub fn one() -> (r: Fx)
        ensures
            r@ == FX_ONE as int,
    {
        Fx { bits: FX_ONE }
    }

    /// Strictly less than.
    pub fn lt(self, other: Fx) -> (r: bool)
        ensures
            r <==> self@ < other@,
    {
        self.bits < other.bits
    }

    /// Less than or equal.
    pub fn le(self, other: Fx) -> (r: bool)
        ensures
            r <==> self@ <= other@,
    {
        self.bits <= other.bits
    }

    /// Absolute value, saturated.
    pub fn abs(self) -> (r: Fx)
        ensures
            r@ == sat64(iabs(self@)),
    {
        if self.bits == i64::MIN {
            Fx { bits: i64::MAX }
        } else if self.bits < 0 {
            Fx { bits: -self.bits }
        } else {
            self
        }
    }

    /// The smaller of two scalars.
    pub fn min(self, other: Fx) -> (r: Fx)
        ensures
            r@ == if self@ <= other@ {
                self@
            } else {
                other@
            },
    {
        if self.bits <= other.bits {
            self
        } else {
            other
        }
    }

    /// The larger of two scalars.
    pub fn max(self, other: Fx) -> (r: Fx)
        ensures
            r@ == if self@ >= other@ {
                self@
            } else {
                other@
            },
    {
        if self.bits >= other.bits {
            self
        } else {
            other
        }
    }

    /// Square root of a nonnegative scalar, rounded down to the
    /// representation's precision.
    pub fn sqrt(self) -> (r: Fx)
        requires
            self@ >= 0,
        ensures
            r@ == fx_sqrt(self@),
            is_floor_sqrt(self@ * FX_ONE as int, r@),
            r@ >= 0,
    {
        proof {
            assert((self.bits as int) * (FX_ONE as int) <= 0x80000000000000000000 as int)
                by (nonlinear_arith)
                requires
                    0 <= self.bits as int <= 0x7fffffffffffffff as int,
            ;
        }
        let n: u128 = (self.bits as u128) * (FX_ONE as u128);
        let root: u128 = isqrt_u128(n);
        proof {
            assert(root as int <= 0x10000000000 as int) by (nonlinear_arith)
                requires
                    (root as int) * (root as int) <= 0x80000000000000000000 as int,
                    root as int >= 0,
            ;
            lemma_floor_sqrt_exists(n as int);
            lemma_floor_sqrt_unique(n as int, root as int, floor_sqrt(n as int));
        }
        Fx { bits: root as i64 }
    }
}

/// Saturating addition on the raw representation.
fn sat_add_i64(a: i64, b: i64) -> (r: i64)
    ensures
        r as int == sat64(a + b),
{
    let wide: i128 = (a as i128) + (b as i128);
    if wide > i64::MAX as i128 {
        i64::MAX
    } else if wide < i64::MIN as i128 {
        i64::MIN
    } else {
        wide as i64
    }
}

/// Saturating subtraction on the raw representation.
fn sat_sub_i64(a: i64, b: i64) -> (r: i64)
    ensures
        r as int == sat64(a - b),
{
    let wide: i128 = (a as i128) - (b as i128);
    if wide > i64::MAX as i128 {
        i64::MAX
    } else if wide < i64::MIN as i128 {
        i64::MIN
    } else {
        wide as i64
    }
}

/// Saturate a sign-and-magnitude quantity into the `i64` range.
fn sat_sign_mag(neg: bool, mag: u128) -> (r: i64)
    ensures
        r as int == sat64(
            if neg {
                -(mag as int)
            } else {
                mag as int
            },
        ),
{
    if neg {
        if mag >= 0x8000000000000000u128 {
            i64::MIN
        } else {
            -(mag as i64)
        }
    } else {
        if mag > i64::MAX as u128 {
            i64::MAX
        } else {
            mag as i64
        }
    }
}

/// The product of two `i64` values fits comfortably inside `i128`.
proof fn lemma_i64_mul_fits(a: int, b: int)
    by (nonlinear_arith)
    requires
        -0x8000000000000000 <= a <= 0x7fffffffffffffff,
        -0x8000000000000000 <= b <= 0x7fffffffffffffff,
    ensures
        iabs(a * b) <= 0x40000000000000000000000000000000,
{
}

/// Multiplication on the raw representation: rescale, truncate, saturate.
fn fx_mul_raw(a: i64, b: i64) -> (r: i64)
    ensures
        r as int == fx_mul(a as int, b as int),
{
    proof {
        lemma_i64_mul_fits(a as int, b as int);
    }
    let wide: i128 = (a as i128) * (b as i128);
    let neg: bool = wide < 0;
    let mag: u128 = if wide < 0 {
        (-wide) as u128
    } else {
        wide as u128
    };
    let q: u128 = mag / (FX_ONE as u128);
    sat_sign_mag(neg && q > 0, q)
}

/// Division on the raw representation: widen, truncate, saturate.
fn fx_div_raw(a: i64, b: i64) -> (r: i64)
    requires
        b != 0,
    ensures
        r as int == fx_div(a as int, b as int),
{
    proof {
        lemma_i64_mul_fits(a as int, FX_ONE as int);
    }
    let wide: i128 = (a as i128) * (FX_ONE as i128);
    let nmag: u128 = if wide < 0 {
        (-wide) as u128
    } else {
        wide as u128
    };
    let bmag: u128 = if b < 0 {
        (-(b as i128)) as u128
    } else {
        b as u128
    };
    let q: u128 = nmag / bmag;
    let neg: bool = (wide < 0) != (b < 0);
    sat_sign_mag(neg && q > 0, q)
}

impl core::ops::Add for Fx {
    type Output = Fx;

    fn add(self, rhs: Fx) -> (r: Fx) {
        Fx { bits: sat_add_i64(self.bits, rhs.bits) }
    }
}

impl vstd::std_specs::ops::AddSpecImpl for Fx {
    open spec fn obeys_add_spec() -> bool {
        true
    }

    open spec fn add_req(self, rhs: Fx) -> bool {
        true
    }

    open spec fn add_spec(self, rhs: Fx) -> Fx {
        Fx { bits: fx_add(self@, rhs@) as i64 }
    }
}

impl core::ops::Sub for Fx {
    type Output = Fx;

    fn sub(self, rhs: Fx) -> (r: Fx) {
        Fx { bits: sat_sub_i64(self.bits, rhs.bits) }
    }
}

impl vstd::std_specs::ops::SubSpecImpl for Fx {
    open spec fn obeys_sub_spec() -> bool {
        true
    }

    open spec fn sub_req(self, rhs: Fx) -> bool {
        true
    }

    open spec fn sub_spec(self, rhs: Fx) -> Fx {
        Fx { bits: fx_sub(self@, rhs@) as i64 }
    }
}

impl core::ops::Mul for Fx {
    type Output = Fx;

    fn mul(self, rhs: Fx) -> (r: Fx) {
        Fx { bits: fx_mul_raw(self.bits, rhs.bits) }
    }
}

impl vstd::std_specs::ops::MulSpecImpl for Fx {
    open spec fn obeys_mul_spec() -> bool {
        true
    }

    open spec fn mul_req(self, rhs: Fx) -> bool {
        true
    }

    open spec fn mul_spec(self, rhs: Fx) -> Fx {
        Fx { bits: fx_mul(self@, rhs@) as i64 }
    }
}

impl core::ops::Div for Fx {
    type Output = Fx;

    fn div(self, rhs: Fx) -> (r: Fx) {
        Fx { bits: fx_div_raw(self.bits, rhs.bits) }
    }
}

impl vstd::std_specs::ops::DivSpecImpl for Fx {
    open spec fn obeys_div_spec() -> bool {
        true
    }

    open spec fn div_req(self, rhs: Fx) -> bool {
        rhs@ != 0
    }

    open spec fn div_spec(self, rhs: Fx) -> Fx {
        Fx { bits: fx_div(self@, rhs@) as i64 }
    }
}

impl core::ops::Neg for Fx {
    type Output = Fx;

    fn neg(self) -> (r: Fx) {
        if self.bits == i64::MIN {
            Fx { bits: i64::MAX }
        } else {
            Fx { bits: -self.bits }
        }
    }
}

impl vstd::std_specs::ops::NegSpecImpl for Fx {
    open spec fn obeys_neg_spec() -> bool {
        true
    }

    open spec fn neg_req(self) -> bool {
        true
    }

    open spec fn neg_spec(self) -> Fx {
        Fx { bits: fx_neg(self@) as i64 }
    }
}

/// Integer square root, rounded down, by bisection.
fn isqrt_u128(n: u128) -> (r: u128)
    ensures
        is_floor_sqrt(n as int, r as int),
{
    if n == 0 {
        return 0;
    }
    let mut lo: u128 = 0;
    let mut hi: u128 = 0x10000000000000000u128;
    while hi - lo > 1
        invariant
            lo < hi,
            hi <= 0x10000000000000000u128,
            (lo as int) * (lo as int) <= n as int,
            (n as int) < (hi as int) * (hi as int),
        decreases hi - lo,
    {
        let mid: u128 = lo + (hi - lo) / 2;
        proof {
            assert((mid as int) * (mid as int) < 0xffffffffffffffffffffffffffffffff as int)
                by (nonlinear_arith)
                requires
                    0 <= mid as int,
                    (mid as int) < 0x10000000000000000 as int,
            ;
        }
        if mid * mid <= n {
            lo = mid;
        } else {
            hi = mid;
        }
    }
    assert((n as int) < ((lo + 1) as int) * ((lo + 1) as int));
    lo
}

} // verus!
