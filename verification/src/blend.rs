//! Blend modes: screen, difference, overlay and inversion.

use crate::color::Color;
use vstd::prelude::*;

verus! {

/// Screen of two channels: both are inverted, multiplied as fractions of
/// 255, and the product is inverted again.
pub open spec fn screen_channel(a: u8, b: u8) -> u8 {
    (255 - ((255 - a) * (255 - b)) / 255) as u8
}

/// The distance between two channels.
pub open spec fn difference_channel(a: u8, b: u8) -> u8 {
    if a >= b {
        (a - b) as u8
    } else {
        (b - a) as u8
    }
}

/// Screen of the two channels `a` and `b`.
fn screen_of(a: u8, b: u8) -> (c: u8)
    ensures
        c == 255 - ((255 - a) * (255 - b)) / 255,
        c == screen_channel(a, b),
{
    let x: u32 = (255 - a) as u32;
    let y: u32 = (255 - b) as u32;
    assert(x * y <= 255 * 255) by (nonlinear_arith)
        requires
            x <= 255,
            y <= 255,
    ;
    let scaled: u32 = (x * y) / 255;
    255 - (scaled as u8)
}

/// The distance between the two channels `a` and `b`.
fn distance(a: u8, b: u8) -> (c: u8)
    ensures
        c == difference_channel(a, b),
{
    if a >= b {
        a - b
    } else {
        b - a
    }
}

impl Color {
    /// The screen blend, channel by channel.
    pub open spec fn spec_screen(self, other: Color) -> Color {
        Color {
            r: screen_channel(self.r, other.r),
            g: screen_channel(self.g, other.g),
            b: screen_channel(self.b, other.b),
        }
    }

    /// The difference blend, channel by channel.
    pub open spec fn spec_difference(self, other: Color) -> Color {
        Color {
            r: difference_channel(self.r, other.r),
            g: difference_channel(self.g, other.g),
            b: difference_channel(self.b, other.b),
        }
    }

    /// The overlay blend: the screen of a color with its product with
    /// `other`.
    pub open spec fn spec_overlay(self, other: Color) -> Color {
        self.spec_screen(self.product(other))
    }

    /// The inverse of a color: each channel `c` becomes `255 - c`.
    pub open spec fn spec_invert(self) -> Color {
        Color { r: (255 - self.r) as u8, g: (255 - self.g) as u8, b: (255 - self.b) as u8 }
    }

    /// Screens this color with `other`: each channel becomes
    /// `255 - (255 - a) * (255 - b) / 255`.
    pub fn screen(&self, other: Color) -> (c: Color)
        ensures
            c == self.spec_screen(other),
    {
        Color {
            r: screen_of(self.r, other.r),
            g: screen_of(self.g, other.g),
            b: screen_of(self.b, other.b),
        }
    }

    /// The channel-wise distance between this color and `other`.
    pub fn difference(&self, other: Color) -> (c: Color)
        ensures
            c == self.spec_difference(other),
    {
        Color {
            r: distance(self.r, other.r),
            g: distance(self.g, other.g),
            b: distance(self.b, other.b),
        }
    }

    /// Overlays `other` on this color: multiplies the two, then screens this
    /// color with the product.
    pub fn overlay(&self, other: Color) -> (c: Color)
        ensures
            c == self.spec_overlay(other),
    {
        self.screen(*self * other)
    }

    /// Inverts this color: its difference from white.
    pub fn invert(&self) -> (c: Color)
        ensures
            c == self.spec_difference(Color { r: 255, g: 255, b: 255 }),
            c == self.spec_invert(),
    {
        self.difference(Color { r: 255, g: 255, b: 255 })
    }
}

} // verus!
