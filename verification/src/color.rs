//! 8-bit RGB color samples and the exact integer algebra the shading kernel
//! uses on them.
//!
//! Every operation is stated channelwise over the 0..=255 range: modulation
//! maps the product of two channels back into that range, addition and
//! subtraction saturate, and the scaling helpers are the fixed rational
//! factors the renderer needs (a weight out of 255, a quarter for
//! anti-aliasing averages).

use vstd::prelude::*;

verus! {

/// One color sample, 8 bits per channel.
#[derive(Clone, Copy, PartialEq, Eq, Structural, Debug)]
pub struct Color {
    pub red: u8,
    pub green: u8,
    pub blue: u8,
}

/// Product of two channels interpreted in [0, 1] space and mapped back to
/// 0..=255: `a/255 * b/255`, rescaled.
pub open spec fn modulate_channel(a: u8, b: u8) -> u8 {
    ((a * b) / 255) as u8
}

/// Channel addition, clamped at 255.
pub open spec fn add_channel(a: u8, b: u8) -> u8 {
    if a + b > 255 {
        255u8
    } else {
        (a + b) as u8
    }
}

/// Channel subtraction, clamped at 0.
pub open spec fn sub_channel(a: u8, b: u8) -> u8 {
    if a >= b {
        (a - b) as u8
    } else {
        0u8
    }
}

/// A channel scaled by the weight `w` out of 255.
pub open spec fn scale_channel(a: u8, w: u8) -> u8 {
    ((a * w) / 255) as u8
}

/// Componentwise modulation of two colors.
pub open spec fn modulate_spec(a: Color, b: Color) -> Color {
    Color {
        red: modulate_channel(a.red, b.red),
        green: modulate_channel(a.green, b.green),
        blue: modulate_channel(a.blue, b.blue),
    }
}

/// Componentwise saturating sum of two colors.
pub open spec fn add_spec(a: Color, b: Color) -> Color {
    Color {
        red: add_channel(a.red, b.red),
        green: add_channel(a.green, b.green),
        blue: add_channel(a.blue, b.blue),
    }
}

/// Componentwise saturating difference of two colors.
pub open spec fn sub_spec(a: Color, b: Color) -> Color {
    Color {
        red: sub_channel(a.red, b.red),
        green: sub_channel(a.green, b.green),
        blue: sub_channel(a.blue, b.blue),
    }
}

/// A color scaled by the weight `w` out of 255.
pub open spec fn scale_spec(a: Color, w: u8) -> Color {
    Color {
        red: scale_channel(a.red, w),
        green: scale_channel(a.green, w),
        blue: scale_channel(a.blue, w),
    }
}

/// `(a * b) / 255` for two channels, exact in `u32` arithmetic.
fn mul_div_255(a: u8, b: u8) -> (r: u8)
    ensures
        r == ((a * b) / 255) as u8,
{
    proof {
        assert((a as int) * (b as int) <= 255 * 255) by (nonlinear_arith)
            requires
                a <= 255,
                b <= 255,
        ;
        assert((a as int) * (b as int) / 255 <= 255 * 255 / 255) by (nonlinear_arith)
            requires
                0 <= (a as int) * (b as int) <= 255 * 255,
        ;
    }
    ((a as u32 * b as u32) / 255) as u8
}

impl Color {
    /// A color from its three channels.
    pub fn new(red: u8, green: u8, blue: u8) -> (c: Color)
        ensures
            c == (Color { red, green, blue }),
    {
        Color { red, green, blue }
    }

    /// A gray level: the same value on every channel.
    pub fn new_gray(gray: u8) -> (c: Color)
        ensures
            c == (Color { red: gray, green: gray, blue: gray }),
    {
        Color { red: gray, green: gray, blue: gray }
    }

    /// The default background color, a light sky blue.
    pub fn sky() -> (c: Color)
        ensures
            c == (Color { red: 50, green: 120, blue: 170 }),
    {
        Color { red: 50, green: 120, blue: 170 }
    }

    /// The channels in storage order: red, green, blue.
    pub fn to_vec(&self) -> (v: [u8; 3])
        ensures
            v@ =~= seq![self.red, self.green, self.blue],
    {
        [self.red, self.green, self.blue]
    }

    /// Componentwise modulation: each channel is the product of the operands'
    /// channels taken in [0, 1] space and mapped back to 0..=255.
    pub fn modulate(self, rhs: Color) -> (c: Color)
        ensures
            c == modulate_spec(self, rhs),
    {
        Color {
            red: mul_div_255(self.red, rhs.red),
            green: mul_div_255(self.green, rhs.green),
            blue: mul_div_255(self.blue, rhs.blue),
        }
    }

    /// Componentwise saturating sum.
    pub fn saturating_add(self, rhs: Color) -> (c: Color)
        ensures
            c == add_spec(self, rhs),
    {
        Color {
            red: self.red.saturating_add(rhs.red),
            green: self.green.saturating_add(rhs.green),
            blue: self.blue.saturating_add(rhs.blue),
        }
    }

    /// Componentwise saturating difference.
    pub fn saturating_sub(self, rhs: Color) -> (c: Color)
        ensures
            c == sub_spec(self, rhs),
    {
        Color {
            red: self.red.saturating_sub(rhs.red),
            green: self.green.saturating_sub(rhs.green),
            blue: self.blue.saturating_sub(rhs.blue),
        }
    }

    /// Adds `rhs` into `self`, saturating per channel.
    pub fn add_assign(&mut self, rhs: Color)
        ensures
            *final(self) == add_spec(*old(self), rhs),
    {
        self.red = self.red.saturating_add(rhs.red);
        self.green = self.green.saturating_add(rhs.green);
        self.blue = self.blue.saturating_add(rhs.blue);
    }

    /// Scales every channel by the weight `w` out of 255.
    pub fn scale255(self, w: u8) -> (c: Color)
        ensures
            c == scale_spec(self, w),
    {
        Color {
            red: mul_div_255(self.red, w),
            green: mul_div_255(self.green, w),
            blue: mul_div_255(self.blue, w),
        }
    }

    /// A quarter of every channel, the weight of one anti-aliasing sample.
    pub fn quarter(self) -> (c: Color)
        ensures
            c == (Color { red: (self.red / 4) as u8, green: (self.green / 4) as u8, blue: (self.blue / 4) as u8 }),
    {
        Color { red: self.red / 4, green: self.green / 4, blue: self.blue / 4 }
    }

    /// The anti-aliasing average of four samples: the saturating sum of their
    /// quarters.
    pub fn average4(a: Color, b: Color, c: Color, d: Color) -> (avg: Color)
        ensures
            avg == a.quarter_spec().plus(b.quarter_spec()).plus(c.quarter_spec()).plus(d.quarter_spec()),
    {
        a.quarter().saturating_add(b.quarter()).saturating_add(c.quarter()).saturating_add(d.quarter())
    }

    /// A weighted mix of `self` and `other`: `self` carries the weight `w`
    /// out of 255 and `other` the remainder.
    pub fn blend(self, other: Color, w: u8) -> (c: Color)
        ensures
            c == add_spec(scale_spec(self, w), scale_spec(other, (255 - w) as u8)),
    {
        self.scale255(w).saturating_add(other.scale255(255 - w))
    }

    /// Spec-level shorthand for `quarter`.
    pub open spec fn quarter_spec(self) -> Color {
        Color { red: (self.red / 4) as u8, green: (self.green / 4) as u8, blue: (self.blue / 4) as u8 }
    }

    /// Spec-level shorthand for the saturating sum.
    pub open spec fn plus(self, rhs: Color) -> Color {
        add_spec(self, rhs)
    }
}

impl Default for Color {
    /// Black: every channel zero.
    fn default() -> (c: Color)
        ensures
            c == (Color { red: 0, green: 0, blue: 0 }),
    {
        Color { red: 0, green: 0, blue: 0 }
    }
}

/// Modulating with white leaves a color unchanged.
pub proof fn lemma_modulate_white(c: Color)
    ensures
        modulate_spec(c, Color { red: 255, green: 255, blue: 255 }) == c,
{
    assert(c.red * 255 / 255 == c.red) by (nonlinear_arith);
    assert(c.green * 255 / 255 == c.green) by (nonlinear_arith);
    assert(c.blue * 255 / 255 == c.blue) by (nonlinear_arith);
}

/// Modulating with black gives black.
pub proof fn lemma_modulate_black(c: Color)
    ensures
        modulate_spec(c, Color { red: 0, green: 0, blue: 0 }) == (Color { red: 0, green: 0, blue: 0 }),
{
}

/// Saturating addition with white gives white.
pub proof fn lemma_add_white(c: Color)
    ensures
        add_spec(c, Color { red: 255, green: 255, blue: 255 }) == (Color { red: 255, green: 255, blue: 255 }),
{
}

} // verus!
