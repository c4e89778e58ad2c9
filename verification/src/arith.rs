//! Channel-wise arithmetic on colors: `+`, `-`, `*` and `/`.

use crate::color::Color;
use core::ops::{Add, Div, Mul, Sub};
use vstd::prelude::*;
use vstd::std_specs::ops::{AddSpecImpl, DivSpecImpl, MulSpecImpl, SubSpecImpl};

verus! {

/// The sum of two channels, held at 255.
pub open spec fn add_channel(a: u8, b: u8) -> u8 {
    if a + b > 255 {
        255u8
    } else {
        (a + b) as u8
    }
}

/// The difference of two channels, held at 0.
pub open spec fn sub_channel(a: u8, b: u8) -> u8 {
    if a < b {
        0u8
    } else {
        (a - b) as u8
    }
}

/// The product of two channels read as fractions of 255, rounded down.
pub open spec fn mul_channel(a: u8, b: u8) -> u8 {
    ((a * b) / 255) as u8
}

/// The quotient of two channels, rounded down.
pub open spec fn div_channel(a: u8, b: u8) -> u8
    recommends
        b != 0,
{
    (a as int / b as int) as u8
}

/// `a * b / 255` for two channels, computed without overflow.
fn scale(a: u8, b: u8) -> (c: u8)
    ensures
        c == (a * b) / 255,
        c == mul_channel(a, b),
{
    assert(a * b <= 255 * 255) by (nonlinear_arith)
        requires
            a <= 255,
            b <= 255,
    ;
    let wide: u32 = (a as u32) * (b as u32);
    (wide / 255) as u8
}

impl Color {
    /// The channel-wise sum, each channel held at 255.
    pub open spec fn saturating_sum(self, rhs: Color) -> Color {
        Color {
            r: add_channel(self.r, rhs.r),
            g: add_channel(self.g, rhs.g),
            b: add_channel(self.b, rhs.b),
        }
    }

    /// The channel-wise difference, each channel held at 0.
    pub open spec fn saturating_difference(self, rhs: Color) -> Color {
        Color {
            r: sub_channel(self.r, rhs.r),
            g: sub_channel(self.g, rhs.g),
            b: sub_channel(self.b, rhs.b),
        }
    }

    /// The channel-wise product `a * b / 255`.
    pub open spec fn product(self, rhs: Color) -> Color {
        Color {
            r: mul_channel(self.r, rhs.r),
            g: mul_channel(self.g, rhs.g),
            b: mul_channel(self.b, rhs.b),
        }
    }

    /// The channel-wise quotient. It is meant for a divisor without a zero
    /// channel.
    pub open spec fn quotient(self, rhs: Color) -> Color
        recommends
            rhs.r != 0 && rhs.g != 0 && rhs.b != 0,
    {
        Color {
            r: div_channel(self.r, rhs.r),
            g: div_channel(self.g, rhs.g),
            b: div_channel(self.b, rhs.b),
        }
    }

    /// Divides channel by channel where that is defined: the result is the
    /// quotient where no channel of `rhs` is 0, and `None` where one is.
    pub fn checked_div(self, rhs: Color) -> (out: Option<Color>)
        ensures
            out == if rhs.r != 0 && rhs.g != 0 && rhs.b != 0 {
                Some(self.quotient(rhs))
            } else {
                None
            },
    {
        if rhs.r == 0 || rhs.g == 0 || rhs.b == 0 {
            None
        } else {
            Some(self / rhs)
        }
    }
}

impl Add for Color {
    type Output = Color;

    /// Adds channel by channel; a sum above 255 becomes 255.
    fn add(self, rhs: Color) -> (out: Color)
        ensures
            out == self.saturating_sum(rhs),
    {
        Color {
            r: self.r.saturating_add(rhs.r),
            g: self.g.saturating_add(rhs.g),
            b: self.b.saturating_add(rhs.b),
        }
    }
}

impl AddSpecImpl for Color {
    open spec fn obeys_add_spec() -> bool {
        true
    }

    open spec fn add_req(self, rhs: Color) -> bool {
        true
    }

    open spec fn add_spec(self, rhs: Color) -> Color {
        self.saturating_sum(rhs)
    }
}

impl Sub for Color {
    type Output = Color;

    /// Subtracts channel by channel; a difference below 0 becomes 0.
    fn sub(self, rhs: Color) -> (out: Color)
        ensures
            out == self.saturating_difference(rhs),
    {
        Color {
            r: self.r.saturating_sub(rhs.r),
            g: self.g.saturating_sub(rhs.g),
            b: self.b.saturating_sub(rhs.b),
        }
    }
}

impl SubSpecImpl for Color {
    open spec fn obeys_sub_spec() -> bool {
        true
    }

    open spec fn sub_req(self, rhs: Color) -> bool {
        true
    }

    open spec fn sub_spec(self, rhs: Color) -> Color {
        self.saturating_difference(rhs)
    }
}

impl Mul for Color {
    type Output = Color;

    /// Multiplies channel by channel, each channel read as a fraction of
    /// 255: `a * b / 255`, rounded down.
    fn mul(self, rhs: Color) -> (out: Color)
        ensures
            out == self.product(rhs),
    {
        Color { r: scale(self.r, rhs.r), g: scale(self.g, rhs.g), b: scale(self.b, rhs.b) }
    }
}

impl MulSpecImpl for Color {
    open spec fn obeys_mul_spec() -> bool {
        true
    }

    open spec fn mul_req(self, rhs: Color) -> bool {
        true
    }

    open spec fn mul_spec(self, rhs: Color) -> Color {
        self.product(rhs)
    }
}

impl Div for Color {
    type Output = Color;

    /// Divides channel by channel, rounding down. No channel of the divisor
    /// may be 0.
    fn div(self, rhs: Color) -> (out: Color)
        ensures
            out == self.quotient(rhs),
    {
        Color { r: self.r / rhs.r, g: self.g / rhs.g, b: self.b / rhs.b }
    }
}

impl DivSpecImpl for Color {
    open spec fn obeys_div_spec() -> bool {
        true
    }

    open spec fn div_req(self, rhs: Color) -> bool {
        rhs.r != 0 && rhs.g != 0 && rhs.b != 0
    }

    open spec fn div_spec(self, rhs: Color) -> Color {
        self.quotient(rhs)
    }
}

} // verus!
