//! The hue, saturation, lightness and value of a color as exact fractions.
//!
//! Every coordinate of an 8-bit color in the HSL and HSV models is a ratio
//! of two small integers. This module states those ratios and computes them
//! without rounding.

use crate::color::Color;
use vstd::prelude::*;

verus! {

/// One of the three channels of a color.
#[derive(Clone, Copy, Debug, PartialEq, Eq, Structural)]
pub enum Channel {
    Red,
    Green,
    Blue,
}

/// A non-negative fraction `num / den`. A fraction that a color yields has a
/// positive denominator; it is not reduced to lowest terms.
#[derive(Clone, Copy, Debug)]
pub struct Fraction {
    pub num: u32,
    pub den: u32,
}

impl Fraction {
    /// Whether both fractions stand for the same number.
    pub open spec fn same(self, other: Fraction) -> bool {
        self.num * other.den == other.num * self.den
    }

    /// Whether both fractions stand for the same number.
    pub fn equals(&self, other: &Fraction) -> (eq: bool)
        ensures
            eq == self.same(*other),
    {
        assert(self.num * other.den <= 0xFFFF_FFFF * 0xFFFF_FFFF) by (nonlinear_arith)
            requires
                self.num <= 0xFFFF_FFFF,
                other.den <= 0xFFFF_FFFF,
        ;
        assert(other.num * self.den <= 0xFFFF_FFFF * 0xFFFF_FFFF) by (nonlinear_arith)
            requires
                other.num <= 0xFFFF_FFFF,
                self.den <= 0xFFFF_FFFF,
        ;
        let left: u64 = (self.num as u64) * (other.den as u64);
        let right: u64 = (other.num as u64) * (self.den as u64);
        left == right
    }
}

impl Color {
    /// The largest of the three channels.
    pub open spec fn spec_max_channel(&self) -> u8 {
        if self.r >= self.g && self.r >= self.b {
            self.r
        } else if self.g >= self.b {
            self.g
        } else {
            self.b
        }
    }

    /// The smallest of the three channels.
    pub open spec fn spec_min_channel(&self) -> u8 {
        if self.r <= self.g && self.r <= self.b {
            self.r
        } else if self.g <= self.b {
            self.g
        } else {
            self.b
        }
    }

    /// The distance between the largest and the smallest channel.
    pub open spec fn spread(self) -> int {
        self.max_channel() - self.min_channel()
    }

    /// Whether the color is a gray: all three channels are equal, so that
    /// the spread is 0.
    pub open spec fn spec_is_gray(&self) -> bool {
        self.r == self.g && self.g == self.b
    }

    /// The channel that leads the hue: red where red is the largest
    /// channel, else green where green is, else blue. Where two channels are
    /// largest together the earlier of them leads.
    pub open spec fn spec_leading_channel(&self) -> Channel {
        if self.r == self.max_channel() {
            Channel::Red
        } else if self.g == self.max_channel() {
            Channel::Green
        } else {
            Channel::Blue
        }
    }

    /// The distance term of the channel value `c`, in units of
    /// `1 / (6 * spread)`: a sixth of the channel's distance from the
    /// largest channel plus half the spread, over the spread.
    pub open spec fn distance_term(self, c: u8) -> int {
        (self.max_channel() - c) + 3 * self.spread()
    }

    /// The hue before it is wrapped into one turn, in units of
    /// `1 / (6 * spread)`. The sector of the leading channel starts at 0 for
    /// red, at a third of a turn for green and at two thirds for blue; the
    /// distance terms of the other two channels place the hue around that
    /// start.
    pub open spec fn raw_hue(self) -> int {
        match self.spec_leading_channel() {
            Channel::Red => self.distance_term(self.b) - self.distance_term(self.g),
            Channel::Green => 2 * self.spread() + self.distance_term(self.r) - self.distance_term(
                self.b,
            ),
            Channel::Blue => 4 * self.spread() + self.distance_term(self.g) - self.distance_term(
                self.r,
            ),
        }
    }

    /// The hue as a fraction of a full turn. A gray has hue 0. Otherwise a
    /// raw hue below 0 is raised by one turn and one above a full turn is
    /// lowered by one turn.
    pub open spec fn spec_hue(self) -> Fraction {
        if self.spec_is_gray() {
            Fraction { num: 0, den: 1 }
        } else {
            let turn = 6 * self.spread();
            let raised = if self.raw_hue() < 0 {
                self.raw_hue() + turn
            } else {
                self.raw_hue()
            };
            let wrapped = if raised > turn {
                raised - turn
            } else {
                raised
            };
            Fraction { num: wrapped as u32, den: turn as u32 }
        }
    }

    /// The lightness of the HSL model: the mean of the largest and the
    /// smallest channel, as a fraction of 255.
    pub open spec fn spec_lightness(self) -> Fraction {
        Fraction { num: (self.max_channel() + self.min_channel()) as u32, den: 510 }
    }

    /// The saturation of the HSL model. A gray has saturation 0. Otherwise it
    /// is the spread over the sum of the largest and the smallest channel
    /// where the lightness is below a half, and over 510 less that sum
    /// elsewhere.
    pub open spec fn spec_hsl_saturation(self) -> Fraction {
        let sum = self.max_channel() + self.min_channel();
        if self.spec_is_gray() {
            Fraction { num: 0, den: 1 }
        } else if sum < 255 {
            Fraction { num: self.spread() as u32, den: sum as u32 }
        } else {
            Fraction { num: self.spread() as u32, den: (510 - sum) as u32 }
        }
    }

    /// The value of the HSV model: the largest channel, as a fraction of
    /// 255.
    pub open spec fn spec_value(self) -> Fraction {
        Fraction { num: self.max_channel() as u32, den: 255 }
    }

    /// The saturation of the HSV model. A gray has saturation 0. Otherwise it
    /// is the spread over the largest channel.
    pub open spec fn spec_hsv_saturation(self) -> Fraction {
        if self.spec_is_gray() {
            Fraction { num: 0, den: 1 }
        } else {
            Fraction { num: self.spread() as u32, den: self.max_channel() as u32 }
        }
    }

    /// The coordinates of the HSL model: hue, saturation and lightness.
    pub open spec fn spec_hsl(self) -> (Fraction, Fraction, Fraction) {
        (self.spec_hue(), self.spec_hsl_saturation(), self.spec_lightness())
    }

    /// The coordinates of the HSV model: hue, saturation and value.
    pub open spec fn spec_hsv(self) -> (Fraction, Fraction, Fraction) {
        (self.spec_hue(), self.spec_hsv_saturation(), self.spec_value())
    }

    /// The largest of the three channels.
    #[verifier::when_used_as_spec(spec_max_channel)]
    pub fn max_channel(&self) -> (largest: u8)
        ensures
            largest == self.spec_max_channel(),
            largest >= self.r && largest >= self.g && largest >= self.b,
            largest == self.r || largest == self.g || largest == self.b,
    {
        if self.r >= self.g && self.r >= self.b {
            self.r
        } else if self.g >= self.b {
            self.g
        } else {
            self.b
        }
    }

    /// The smallest of the three channels.
    #[verifier::when_used_as_spec(spec_min_channel)]
    pub fn min_channel(&self) -> (smallest: u8)
        ensures
            smallest == self.spec_min_channel(),
            smallest <= self.r && smallest <= self.g && smallest <= self.b,
            smallest == self.r || smallest == self.g || smallest == self.b,
    {
        if self.r <= self.g && self.r <= self.b {
            self.r
        } else if self.g <= self.b {
            self.g
        } else {
            self.b
        }
    }

    /// Whether the color is a gray: its largest channel is its smallest.
    #[verifier::when_used_as_spec(spec_is_gray)]
    pub fn is_gray(&self) -> (gray: bool)
        ensures
            gray == self.spec_is_gray(),
            gray == (self.spread() == 0),
    {
        self.max_channel() == self.min_channel()
    }

    /// The channel that leads the hue: the largest one, and the earlier of
    /// red, green and blue where two are largest together.
    #[verifier::when_used_as_spec(spec_leading_channel)]
    pub fn leading_channel(&self) -> (leader: Channel)
        ensures
            leader == self.spec_leading_channel(),
    {
        let largest: u8 = self.max_channel();
        if self.r == largest {
            Channel::Red
        } else if self.g == largest {
            Channel::Green
        } else {
            Channel::Blue
        }
    }

    /// The hue as a fraction of a full turn, at least 0 and below 1.
    pub fn hue(&self) -> (h: Fraction)
        ensures
            h == self.spec_hue(),
            0 < h.den <= 1530,
            h.num < h.den,
    {
        if self.is_gray() {
            return Fraction { num: 0, den: 1 };
        }
        let top: i32 = self.max_channel() as i32;
        let spread: i32 = top - self.min_channel() as i32;
        let dr: i32 = (top - self.r as i32) + 3 * spread;
        let dg: i32 = (top - self.g as i32) + 3 * spread;
        let db: i32 = (top - self.b as i32) + 3 * spread;
        let raw: i32 = match self.leading_channel() {
            Channel::Red => db - dg,
            Channel::Green => 2 * spread + dr - db,
            Channel::Blue => 4 * spread + dg - dr,
        };
        let turn: i32 = 6 * spread;
        let raised: i32 = if raw < 0 {
            raw + turn
        } else {
            raw
        };
        let wrapped: i32 = if raised > turn {
            raised - turn
        } else {
            raised
        };
        Fraction { num: wrapped as u32, den: turn as u32 }
    }

    /// The lightness of the HSL model, between 0 and 1.
    pub fn lightness(&self) -> (l: Fraction)
        ensures
            l == self.spec_lightness(),
            l.num <= l.den,
    {
        Fraction { num: self.max_channel() as u32 + self.min_channel() as u32, den: 510 }
    }

    /// The saturation of the HSL model, between 0 and 1.
    pub fn hsl_saturation(&self) -> (s: Fraction)
        ensures
            s == self.spec_hsl_saturation(),
            0 < s.den <= 255,
            s.num <= s.den,
    {
        let largest: u8 = self.max_channel();
        let smallest: u8 = self.min_channel();
        let sum: u32 = largest as u32 + smallest as u32;
        if self.is_gray() {
            Fraction { num: 0, den: 1 }
        } else if sum < 255 {
            Fraction { num: (largest - smallest) as u32, den: sum }
        } else {
            Fraction { num: (largest - smallest) as u32, den: 510 - sum }
        }
    }

    /// The value of the HSV model, between 0 and 1.
    pub fn value(&self) -> (v: Fraction)
        ensures
            v == self.spec_value(),
            v.num <= v.den,
    {
        Fraction { num: self.max_channel() as u32, den: 255 }
    }

    /// The saturation of the HSV model, between 0 and 1.
    pub fn hsv_saturation(&self) -> (s: Fraction)
        ensures
            s == self.spec_hsv_saturation(),
            0 < s.den <= 255,
            s.num <= s.den,
    {
        let largest: u8 = self.max_channel();
        let smallest: u8 = self.min_channel();
        if self.is_gray() {
            Fraction { num: 0, den: 1 }
        } else {
            Fraction { num: (largest - smallest) as u32, den: largest as u32 }
        }
    }

    /// The coordinates of the HSL model: hue, saturation and lightness.
    pub fn hsl(&self) -> (t: (Fraction, Fraction, Fraction))
        ensures
            t == self.spec_hsl(),
    {
        (self.hue(), self.hsl_saturation(), self.lightness())
    }

    /// The coordinates of the HSV model: hue, saturation and value.
    pub fn hsv(&self) -> (t: (Fraction, Fraction, Fraction))
        ensures
            t == self.spec_hsv(),
    {
        (self.hue(), self.hsv_saturation(), self.value())
    }
}

/// Whether two triples of fractions agree in each place.
pub open spec fn same_triple(
    a: (Fraction, Fraction, Fraction),
    b: (Fraction, Fraction, Fraction),
) -> bool {
    a.0.same(b.0) && a.1.same(b.1) && a.2.same(b.2)
}

/// Whether two triples of fractions agree in each place.
pub fn triples_equal(a: &(Fraction, Fraction, Fraction), b: &(Fraction, Fraction, Fraction)) -> (eq:
    bool)
    ensures
        eq == same_triple(*a, *b),
{
    a.0.equals(&b.0) && a.1.equals(&b.1) && a.2.equals(&b.2)
}

} // verus!
