//! Laws that relate the operations on colors to each other.

use crate::color::Color;
use crate::coordinates::Fraction;
use vstd::prelude::*;

verus! {

/// A color built from three channels has exactly those channels.
pub proof fn law_new_keeps_channels(r: u8, g: u8, b: u8)
    ensures
        (Color { r, g, b }).rgb() == (r, g, b),
{
}

/// The channel triple of a color lists its red, green and blue channel, in
/// that order.
pub proof fn law_rgb_lists_channels(c: Color)
    ensures
        c.rgb() == (c.r, c.g, c.b),
        c == (Color { r: c.rgb().0, g: c.rgb().1, b: c.rgb().2 }),
{
}

/// The coordinates of a color in the HSL and in the HSV model list its hue,
/// its saturation in that model, and its lightness or value, in that order.
pub proof fn law_coordinates_list_components(c: Color)
    ensures
        c.spec_hsl() == (c.spec_hue(), c.spec_hsl_saturation(), c.spec_lightness()),
        c.spec_hsv() == (c.spec_hue(), c.spec_hsv_saturation(), c.spec_value()),
{
}

/// Eight bits cannot hold one half: no gray has a lightness of exactly one
/// half, and no color at all has a value of exactly one half. A color made
/// from such coordinates is rounded, and does not give them back.
pub proof fn law_half_is_out_of_reach(c: Color)
    ensures
        c.spec_is_gray() ==> !c.spec_lightness().same(Fraction { num: 1, den: 2 }),
        !c.spec_value().same(Fraction { num: 1, den: 2 }),
{
}

/// Addition saturates: each channel of a sum is the smaller of 255 and the
/// exact sum of the two channels. It is never below either operand.
pub proof fn law_add_saturates(a: Color, b: Color)
    ensures
        a.saturating_sum(b).r == vstd::math::min(255, a.r + b.r),
        a.saturating_sum(b).g == vstd::math::min(255, a.g + b.g),
        a.saturating_sum(b).b == vstd::math::min(255, a.b + b.b),
        a.saturating_sum(b).r >= a.r && a.saturating_sum(b).r >= b.r,
        a.saturating_sum(b).g >= a.g && a.saturating_sum(b).g >= b.g,
        a.saturating_sum(b).b >= a.b && a.saturating_sum(b).b >= b.b,
{
}

/// Subtraction saturates: each channel of a difference is the larger of 0
/// and the exact difference of the two channels. It is never above the
/// channel it was taken from.
pub proof fn law_sub_saturates(a: Color, b: Color)
    ensures
        a.saturating_difference(b).r == vstd::math::max(0, a.r - b.r),
        a.saturating_difference(b).g == vstd::math::max(0, a.g - b.g),
        a.saturating_difference(b).b == vstd::math::max(0, a.b - b.b),
        a.saturating_difference(b).r <= a.r,
        a.saturating_difference(b).g <= a.g,
        a.saturating_difference(b).b <= a.b,
{
}

/// Addition, multiplication, the screen blend and the difference blend give
/// the same color whichever way round the two operands stand.
pub proof fn law_operands_commute(a: Color, b: Color)
    ensures
        a.saturating_sum(b) == b.saturating_sum(a),
        a.product(b) == b.product(a),
        a.spec_screen(b) == b.spec_screen(a),
        a.spec_difference(b) == b.spec_difference(a),
{
}

/// The packed form of a color holds red in its lowest byte, while a packed
/// integer is read with red in its third byte: reading what was packed
/// exchanges red and blue.
pub proof fn law_hex_exchanges_red_and_blue(c: Color)
    ensures
        0 <= c.spec_to_hex() < 0x100_0000,
        Color::spec_from_hex(c.spec_to_hex() as u32) == (Color { r: c.b, g: c.g, b: c.r }),
        c.r == c.b ==> Color::spec_from_hex(c.spec_to_hex() as u32) == c,
{
}

/// Reading a packed integer and packing the color again exchanges the lowest
/// and the third byte and clears the fourth.
pub proof fn law_hex_of_packed(rgb: u32)
    ensures
        Color::spec_from_hex(rgb).spec_to_hex() == (rgb / 0x1_0000) % 0x100 + 0x100 * ((rgb / 0x100)
            % 0x100) + 0x1_0000 * (rgb % 0x100),
{
}

/// Inverting a color is taking each channel from 255, and inverting twice
/// gives the color back.
pub proof fn law_invert_twice(c: Color)
    ensures
        c.spec_difference(Color { r: 255, g: 255, b: 255 }) == c.spec_invert(),
        c.spec_invert().spec_invert() == c,
{
}

/// White is the unit of multiplication and black the unit of the screen
/// blend; black absorbs in multiplication and white in the screen blend.
pub proof fn law_units(c: Color)
    ensures
        c.product(Color { r: 255, g: 255, b: 255 }) == c,
        c.product(Color { r: 0, g: 0, b: 0 }) == (Color { r: 0, g: 0, b: 0 }),
        c.spec_screen(Color { r: 0, g: 0, b: 0 }) == c,
        c.spec_screen(Color { r: 255, g: 255, b: 255 }) == (Color { r: 255, g: 255, b: 255 }),
{
}

/// The overlay of a color with any other is never darker than the color
/// itself, in any channel.
pub proof fn law_overlay_lightens(a: Color, b: Color)
    ensures
        a.spec_overlay(b).r >= a.r,
        a.spec_overlay(b).g >= a.g,
        a.spec_overlay(b).b >= a.b,
{
    lemma_screen_lightens(a.r, a.product(b).r);
    lemma_screen_lightens(a.g, a.product(b).g);
    lemma_screen_lightens(a.b, a.product(b).b);
}

/// The screen of two channels is at least the first of them.
proof fn lemma_screen_lightens(a: u8, b: u8)
    ensures
        crate::blend::screen_channel(a, b) >= a,
{
    assert(((255 - a) * (255 - b)) / 255 <= 255 - a) by (nonlinear_arith)
        requires
            0 <= 255 - a,
            0 <= 255 - b <= 255,
    ;
    assert(((255 - a) * (255 - b)) / 255 >= 0) by (nonlinear_arith)
        requires
            0 <= 255 - a,
            0 <= 255 - b,
    ;
}

} // verus!
