//! The color value and its integer representations.

use vstd::prelude::*;

verus! {

/// One fully opaque color: a red, a green and a blue channel, each in
/// `0..=255`. Every triple of channel values is a valid color.
#[derive(Clone, Copy, Debug, PartialEq, Eq, Structural)]
pub struct Color {
    pub r: u8,
    pub g: u8,
    pub b: u8,
}

impl Color {
    /// The channels as a triple, red first.
    pub open spec fn rgb(self) -> (u8, u8, u8) {
        (self.r, self.g, self.b)
    }

    /// The color whose channels are bits 16 to 23, 8 to 15 and 0 to 7 of
    /// `rgb`, red being the highest of the three bytes.
    pub open spec fn spec_from_hex(rgb: u32) -> Color {
        Color {
            r: ((rgb as int / 0x1_0000) % 0x100) as u8,
            g: ((rgb as int / 0x100) % 0x100) as u8,
            b: (rgb as int % 0x100) as u8,
        }
    }

    /// The packed form of a color: red in the lowest byte, green in the
    /// next and blue in the third.
    pub open spec fn spec_to_hex(self) -> int {
        self.r as int + 0x100 * (self.g as int) + 0x1_0000 * (self.b as int)
    }

    /// Builds a color from its three channels.
    pub fn new(r: u8, g: u8, b: u8) -> (c: Color)
        ensures
            c == (Color { r, g, b }),
    {
        Color { r, g, b }
    }

    /// Reads a color from a packed integer with red in bits 16 to 23, green
    /// in bits 8 to 15 and blue in bits 0 to 7. Bits 24 and above are
    /// ignored.
    pub fn from_hex(rgb: u32) -> (c: Color)
        ensures
            c == Color::spec_from_hex(rgb),
    {
        let r32: u32 = (rgb & 0xFFFFFF) >> 16;
        let g32: u32 = (rgb & 0xFFFF) >> 8;
        let b32: u32 = rgb & 0xFF;
        assert(r32 == (rgb / 0x1_0000) % 0x100) by (bit_vector)
            requires
                r32 == (rgb & 0xFFFFFF) >> 16,
        ;
        assert(g32 == (rgb / 0x100) % 0x100) by (bit_vector)
            requires
                g32 == (rgb & 0xFFFF) >> 8,
        ;
        assert(b32 == rgb % 0x100) by (bit_vector)
            requires
                b32 == rgb & 0xFF,
        ;
        Color { r: r32 as u8, g: g32 as u8, b: b32 as u8 }
    }

    /// Packs the channels into one integer, red in the lowest byte, green in
    /// bits 8 to 15 and blue in bits 16 to 23.
    ///
    /// The byte order is the reverse of the one that [`Color::from_hex`]
    /// reads: the two are inverse to each other only on colors whose red and
    /// blue channels are equal.
    pub fn to_hex(&self) -> (hex: u32)
        ensures
            hex == self.spec_to_hex(),
    {
        let b: u32 = (self.b as u32) << 16;
        let g: u32 = (self.g as u32) << 8;
        let r: u32 = self.r as u32;
        let bc: u32 = self.b as u32;
        let gc: u32 = self.g as u32;
        assert(r | g | b == r + 0x100 * gc + 0x1_0000 * bc) by (bit_vector)
            requires
                r < 0x100,
                gc < 0x100,
                bc < 0x100,
                g == gc << 8,
                b == bc << 16,
        ;
        r | g | b
    }

    /// The three channels, red first.
    pub fn to_rgb(&self) -> (t: (u8, u8, u8))
        ensures
            t == self.rgb(),
    {
        (self.r, self.g, self.b)
    }

    /// The red channel.
    pub fn get_red(&self) -> (red: u8)
        ensures
            red == self.r,
    {
        self.r
    }

    /// The green channel.
    pub fn get_green(&self) -> (green: u8)
        ensures
            green == self.g,
    {
        self.g
    }

    /// The blue channel.
    pub fn get_blue(&self) -> (blue: u8)
        ensures
            blue == self.b,
    {
        self.b
    }

    /// Replaces the red channel and keeps the other two.
    pub fn set_red(&mut self, red: u8)
        ensures
            *final(self) == (Color { r: red, g: old(self).g, b: old(self).b }),
    {
        self.r = red;
    }

    /// Replaces the green channel and keeps the other two.
    pub fn set_green(&mut self, green: u8)
        ensures
            *final(self) == (Color { r: old(self).r, g: green, b: old(self).b }),
    {
        self.g = green;
    }

    /// Replaces the blue channel and keeps the other two.
    pub fn set_blue(&mut self, blue: u8)
        ensures
            *final(self) == (Color { r: old(self).r, g: old(self).g, b: blue }),
    {
        self.b = blue;
    }
}

} // verus!
