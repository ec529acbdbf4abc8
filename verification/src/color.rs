//! RGB representation.

use vstd::prelude::*;
use vstd::std_specs::ops::*;
use crate::fixed::{Fx, FX_ONE, fxv, fx_add, fx_sub, fx_mul, tdiv};
use crate::interval::Interval;

verus! {

/// A color triple over the fixed-point scalar.  Channels are unclamped while
/// radiance is accumulated; they are only clamped at final byte-output time.
#[derive(Debug, Copy, Clone, PartialEq, Eq, Structural)]
pub struct Color {
    pub red: Fx,
    pub green: Fx,
    pub blue: Fx,
}

#[derive(Debug, Copy, Clone, PartialEq, Eq, Structural, PartialOrd)]
pub enum ColorError {
    InvalidColorRange,
}

/// Whether a channel value lies in `[0, 1]`.
pub open spec fn channel_in_range(c: int) -> bool {
    0 <= c <= FX_ONE as int
}

/// A channel clamped into `[0, 1]` and quantized to a byte: multiplied by 255
/// and truncated.
pub open spec fn spec_channel_byte(c: int) -> int {
    let clamped = if c < 0 {
        0
    } else if c > FX_ONE as int {
        FX_ONE as int
    } else {
        c
    };
    tdiv(clamped * 255, FX_ONE as int)
}

impl Color {
    /// A color from three channels, each of which must lie in `[0, 1]`;
    /// a channel outside that range is a caller error and is rejected.
    pub fn new(red: Fx, green: Fx, blue: Fx) -> (r: Result<Color, ColorError>)
        ensures
            (channel_in_range(red@) && channel_in_range(green@) && channel_in_range(blue@)) ==> r
                == Ok::<Color, ColorError>(Color { red, green, blue }),
            !(channel_in_range(red@) && channel_in_range(green@) && channel_in_range(blue@)) ==> r
                == Err::<Color, ColorError>(ColorError::InvalidColorRange),
    {
        let one = Fx::one();
        let zero = Fx::zero();
        if one.lt(red) || red.lt(zero) || one.lt(green) || green.lt(zero) || one.lt(blue)
            || blue.lt(zero) {
            Err(ColorError::InvalidColorRange)
        } else {
            Ok(Color { red, green, blue })
        }
    }

    /// Each channel clamped into `[0, 1]`, scaled by 255 and truncated to a
    /// byte; the triple is `(red, green, blue)`.
    pub fn to_byte_rgb(&self) -> (r: (u8, u8, u8))
        ensures
            r.0 as int == spec_channel_byte(self.red@),
            r.1 as int == spec_channel_byte(self.green@),
            r.2 as int == spec_channel_byte(self.blue@),
    {
        let intensity = Interval::new(Fx::zero(), Fx::one());
        let red_byte = channel_byte(intensity.clamp(self.red));
        let green_byte = channel_byte(intensity.clamp(self.green));
        let blue_byte = channel_byte(intensity.clamp(self.blue));
        (red_byte, green_byte, blue_byte)
    }
}

/// Quantize one already-clamped channel to a byte.
fn channel_byte(c: Fx) -> (r: u8)
    requires
        channel_in_range(c@),
    ensures
        r as int == spec_channel_byte(c@),
{
    let scaled: u64 = (c.bits() as u64) * 255;
    let b: u64 = scaled / (FX_ONE as u64);
    proof {
        assert(spec_channel_byte(c@) == (c@ * 255) / (FX_ONE as int));
        assert(b as int == (c@ * 255) / (FX_ONE as int));
        assert((c@ * 255) / (FX_ONE as int) <= 255) by {
            assert(c@ * 255 <= 255 * FX_ONE);
            vstd::arithmetic::div_mod::lemma_div_is_ordered(c@ * 255, 255 * FX_ONE as int, FX_ONE as int);
            assert(255 * (FX_ONE as int) / (FX_ONE as int) == 255);
        }
    }
    b as u8
}

impl core::ops::Add for Color {
    type Output = Color;

    fn add(self, rhs: Color) -> (r: Color) {
        Color { red: self.red + rhs.red, green: self.green + rhs.green, blue: self.blue + rhs.blue }
    }
}

impl AddSpecImpl for Color {
    open spec fn obeys_add_spec() -> bool {
        true
    }

    open spec fn add_req(self, rhs: Color) -> bool {
        true
    }

    open spec fn add_spec(self, rhs: Color) -> Color {
        Color {
            red: fxv(fx_add(self.red@, rhs.red@)),
            green: fxv(fx_add(self.green@, rhs.green@)),
            blue: fxv(fx_add(self.blue@, rhs.blue@)),
        }
    }
}

impl core::ops::Sub for Color {
    type Output = Color;

    fn sub(self, rhs: Color) -> (r: Color) {
        Color { red: self.red - rhs.red, green: self.green - rhs.green, blue: self.blue - rhs.blue }
    }
}

impl SubSpecImpl for Color {
    open spec fn obeys_sub_spec() -> bool {
        true
    }

    open spec fn sub_req(self, rhs: Color) -> bool {
        true
    }

    open spec fn sub_spec(self, rhs: Color) -> Color {
        Color {
            red: fxv(fx_sub(self.red@, rhs.red@)),
            green: fxv(fx_sub(self.green@, rhs.green@)),
            blue: fxv(fx_sub(self.blue@, rhs.blue@)),
        }
    }
}

impl core::ops::Mul<Fx> for Color {
    type Output = Color;

    fn mul(self, rhs: Fx) -> (r: Color) {
        Color { red: self.red * rhs, green: self.green * rhs, blue: self.blue * rhs }
    }
}

impl MulSpecImpl<Fx> for Color {
    open spec fn obeys_mul_spec() -> bool {
        true
    }

    open spec fn mul_req(self, rhs: Fx) -> bool {
        true
    }

    open spec fn mul_spec(self, rhs: Fx) -> Color {
        Color {
            red: fxv(fx_mul(self.red@, rhs@)),
            green: fxv(fx_mul(self.green@, rhs@)),
            blue: fxv(fx_mul(self.blue@, rhs@)),
        }
    }
}

impl core::ops::Mul<Color> for Fx {
    type Output = Color;

    fn mul(self, rhs: Color) -> (r: Color) {
        rhs * self
    }
}

impl MulSpecImpl<Color> for Fx {
    open spec fn obeys_mul_spec() -> bool {
        true
    }

    open spec fn mul_req(self, rhs: Color) -> bool {
        true
    }

    open spec fn mul_spec(self, rhs: Color) -> Color {
        Color {
            red: fxv(fx_mul(rhs.red@, self@)),
            green: fxv(fx_mul(rhs.green@, self@)),
            blue: fxv(fx_mul(rhs.blue@, self@)),
        }
    }
}

/// The channel-wise product of two colors, as used when an attenuation is
/// applied to a traced contribution.
pub open spec fn spec_attenuate(a: Color, b: Color) -> Color {
    Color {
        red: fxv(fx_mul(a.red@, b.red@)),
        green: fxv(fx_mul(a.green@, b.green@)),
        blue: fxv(fx_mul(a.blue@, b.blue@)),
    }
}

/// Apply an attenuation color channel-wise to a traced contribution.
pub fn attenuate(a: Color, b: Color) -> (r: Color)
    ensures
        r == spec_attenuate(a, b),
{
    Color { red: a.red * b.red, green: a.green * b.green, blue: a.blue * b.blue }
}

} // verus!
