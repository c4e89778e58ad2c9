//! Comparing two colors by their channels or by their coordinates in the
//! HSL or the HSV model.

use crate::color::Color;
use crate::coordinates::{same_triple, triples_equal};
use vstd::prelude::*;

verus! {

/// The color model under which [`Color::complex_eq`] compares two colors.
#[derive(Clone, Copy, Debug)]
pub enum Equivalence {
    /// By the red, green and blue channels.
    RGB,
    /// By hue, saturation and lightness.
    HSL,
    /// By hue, saturation and value.
    HSV,
}

impl Color {
    /// Whether two colors have the same hue, the same HSL saturation and the
    /// same lightness, each compared as an exact fraction.
    pub open spec fn same_hsl(self, other: Color) -> bool {
        same_triple(self.spec_hsl(), other.spec_hsl())
    }

    /// Whether two colors have the same hue, the same HSV saturation and the
    /// same value, each compared as an exact fraction.
    pub open spec fn same_hsv(self, other: Color) -> bool {
        same_triple(self.spec_hsv(), other.spec_hsv())
    }

    /// Whether two colors are equal under the given model.
    pub open spec fn spec_complex_eq(self, other: Color, equivalence: Equivalence) -> bool {
        match equivalence {
            Equivalence::RGB => self.rgb() == other.rgb(),
            Equivalence::HSL => self.same_hsl(other),
            Equivalence::HSV => self.same_hsv(other),
        }
    }

    /// Compares two colors under the given model: channel by channel, or by
    /// the three coordinates of the HSL or the HSV model. The coordinates are
    /// exact fractions and are compared without tolerance.
    pub fn complex_eq(&self, other: &Color, equivalence: Equivalence) -> (eq: bool)
        ensures
            eq == self.spec_complex_eq(*other, equivalence),
    {
        match equivalence {
            Equivalence::RGB => self.r == other.r && self.g == other.g && self.b == other.b,
            Equivalence::HSL => triples_equal(&self.hsl(), &other.hsl()),
            Equivalence::HSV => triples_equal(&self.hsv(), &other.hsv()),
        }
    }
}

/// A product with a positive factor determines the other factor.
proof fn lemma_cancel(x: int, y: int, k: int)
    requires
        k > 0,
        x * k == y * k,
    ensures
        x == y,
{
    assert(x == y) by (nonlinear_arith)
        requires
            k > 0,
            x * k == y * k,
    ;
}

/// Two colors with the same largest channel, the same smallest channel and
/// the same hue are the same color.
proof fn lemma_hue_determines(a: Color, b: Color)
    requires
        a.max_channel() == b.max_channel(),
        a.min_channel() == b.min_channel(),
        a.spec_hue().same(b.spec_hue()),
    ensures
        a == b,
{
    let d = a.spread();
    if d != 0 {
        let ha = a.spec_hue();
        let hb = b.spec_hue();
        lemma_cancel(ha.num as int, hb.num as int, 6 * d);
    }
}

/// Colors have the same HSL coordinates exactly when they are equal.
pub proof fn law_same_hsl(a: Color, b: Color)
    ensures
        a.same_hsl(b) <==> a == b,
{
    if a.same_hsl(b) {
        let sa = a.spec_hsl_saturation();
        let sb = b.spec_hsl_saturation();
        if a.spread() != 0 && b.spread() != 0 {
            lemma_cancel(sa.num as int, sb.num as int, sa.den as int);
        } else if a.spread() != 0 {
            assert(sa.num * 1 == 0 * sa.den);
        } else if b.spread() != 0 {
            assert(0 * sb.den == sb.num * 1);
        }
        lemma_hue_determines(a, b);
    }
}

/// Colors have the same HSV coordinates exactly when they are equal.
pub proof fn law_same_hsv(a: Color, b: Color)
    ensures
        a.same_hsv(b) <==> a == b,
{
    if a.same_hsv(b) {
        let sa = a.spec_hsv_saturation();
        let sb = b.spec_hsv_saturation();
        if a.spread() != 0 && b.spread() != 0 {
            lemma_cancel(sa.num as int, sb.num as int, sa.den as int);
        } else if a.spread() != 0 {
            assert(sa.num * 1 == 0 * sa.den);
        } else if b.spread() != 0 {
            assert(0 * sb.den == sb.num * 1);
        }
        lemma_hue_determines(a, b);
    }
}

/// The three models agree: under each of them two colors are equal exactly
/// when their channels are.
pub proof fn law_equivalences_agree(a: Color, b: Color, equivalence: Equivalence)
    ensures
        a.spec_complex_eq(b, equivalence) <==> a == b,
{
    law_same_hsl(a, b);
    law_same_hsv(a, b);
}

} // verus!
