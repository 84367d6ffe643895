//! Material records: the sampled surface properties the shading kernel
//! consumes, and the exact derivations that produce them from texture
//! samples and turn them into shadow attenuation.
//!
//! A material's Phong exponent is a floating-point quantity and therefore
//! lives with the renderer's geometry in the surrounding application; the
//! record here holds everything the color arithmetic reads.

use vstd::prelude::*;

use crate::color::{Color, scale_channel, sub_channel};

verus! {

/// Surface properties at one sampled point.
///
/// `alpha` is opacity: 255 is opaque, anything lower drives the refraction
/// weight. `reflection` is the mirror weight out of 255, 0 meaning none.
#[derive(Clone, Copy, PartialEq, Eq, Structural, Debug)]
pub struct Material {
    pub ambient: Color,
    pub diffuse: Color,
    pub specular: Color,
    pub alpha: u8,
    pub reflection: u8,
}

/// A channel raised by half again and clamped: the specular channel derived
/// from a texture sample.
pub open spec fn spec_texel_specular(a: u8) -> u8 {
    if 3 * a / 2 > 255 {
        255u8
    } else {
        (3 * a / 2) as u8
    }
}

impl Material {
    /// A material from its parts.
    pub fn new(ambient: Color, diffuse: Color, specular: Color, alpha: u8, reflection: u8) -> (m: Material)
        ensures
            m == (Material { ambient, diffuse, specular, alpha, reflection }),
    {
        Material { ambient, diffuse, specular, alpha, reflection }
    }

    /// The material derived from one texture sample: ambient at half the
    /// sampled color, diffuse at the color itself, specular at half again
    /// above it (clamped), opacity from the sample's alpha channel.
    pub fn from_texel(red: u8, green: u8, blue: u8, alpha: u8, reflection: u8) -> (m: Material)
        ensures
            m.ambient == (Color { red: (red / 2) as u8, green: (green / 2) as u8, blue: (blue / 2) as u8 }),
            m.diffuse == (Color { red, green, blue }),
            m.specular == (Color {
                red: spec_texel_specular(red),
                green: spec_texel_specular(green),
                blue: spec_texel_specular(blue),
            }),
            m.alpha == alpha,
            m.reflection == reflection,
    {
        Material {
            ambient: Color { red: red / 2, green: green / 2, blue: blue / 2 },
            diffuse: Color { red, green, blue },
            specular: Color {
                red: texel_specular(red),
                green: texel_specular(green),
                blue: texel_specular(blue),
            },
            alpha,
            reflection,
        }
    }
}

/// `3 * a / 2`, clamped at 255.
fn texel_specular(a: u8) -> (r: u8)
    ensures
        r == spec_texel_specular(a),
{
    let wide: u16 = 3 * (a as u16) / 2;
    if wide > 255 {
        255
    } else {
        wide as u8
    }
}

impl Default for Material {
    /// The material a scene description leaves unspecified: gray levels 63,
    /// 127 and 191, opaque, without reflection.
    fn default() -> (m: Material)
        ensures
            m == (Material {
                ambient: Color { red: 63, green: 63, blue: 63 },
                diffuse: Color { red: 127, green: 127, blue: 127 },
                specular: Color { red: 191, green: 191, blue: 191 },
                alpha: 255,
                reflection: 0,
            }),
    {
        Material {
            ambient: Color { red: 63, green: 63, blue: 63 },
            diffuse: Color { red: 127, green: 127, blue: 127 },
            specular: Color { red: 191, green: 191, blue: 191 },
            alpha: 255,
            reflection: 0,
        }
    }
}

/// One channel of the light an occluder lets through: full transmission
/// weighted by its translucency, minus the occluder's complement color
/// weighted by its opacity.
pub open spec fn spec_transmit_channel(alpha: u8, diffuse: u8) -> u8 {
    sub_channel((255 - alpha) as u8, scale_channel((255 - diffuse) as u8, alpha))
}

/// The color-filtered shadow a translucent occluder casts: with opacity
/// `alpha` out of 255, white scaled by the translucency minus the occluder's
/// complement diffuse color scaled by the opacity, saturating at zero.
///
/// An opaque occluder (alpha 255) lets only `diffuse`-tinted light through a
/// fully black filter; a transparent one (alpha 0) transmits white.
pub fn shadow_transmit(alpha: u8, diffuse: Color) -> (c: Color)
    ensures
        c.red == spec_transmit_channel(alpha, diffuse.red),
        c.green == spec_transmit_channel(alpha, diffuse.green),
        c.blue == spec_transmit_channel(alpha, diffuse.blue),
{
    let white = Color::new_gray(255);
    let translucent = Color::new_gray(255 - alpha);
    translucent.saturating_sub(white.saturating_sub(diffuse).scale255(alpha))
}

} // verus!
