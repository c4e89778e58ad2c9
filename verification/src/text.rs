//! A color written out as text.

use crate::color::Color;
use vstd::prelude::*;

verus! {

/// The character of the decimal digit `d`.
pub open spec fn digit(d: int) -> char {
    if d == 0 {
        '0'
    } else if d == 1 {
        '1'
    } else if d == 2 {
        '2'
    } else if d == 3 {
        '3'
    } else if d == 4 {
        '4'
    } else if d == 5 {
        '5'
    } else if d == 6 {
        '6'
    } else if d == 7 {
        '7'
    } else if d == 8 {
        '8'
    } else {
        '9'
    }
}

/// The decimal numeral of `n`, without leading zeros.
pub open spec fn decimal(n: nat) -> Seq<char>
    decreases n,
{
    if n < 10 {
        seq![digit(n as int)]
    } else {
        decimal(n / 10).push(digit((n % 10) as int))
    }
}

/// The one-character string of the decimal digit `d`.
fn digit_text(d: u8) -> (text: &'static str)
    requires
        d < 10,
    ensures
        text@ == seq![digit(d as int)],
{
    proof {
        reveal_strlit("0");
        reveal_strlit("1");
        reveal_strlit("2");
        reveal_strlit("3");
        reveal_strlit("4");
        reveal_strlit("5");
        reveal_strlit("6");
        reveal_strlit("7");
        reveal_strlit("8");
        reveal_strlit("9");
    }
    let text = if d == 0 {
        "0"
    } else if d == 1 {
        "1"
    } else if d == 2 {
        "2"
    } else if d == 3 {
        "3"
    } else if d == 4 {
        "4"
    } else if d == 5 {
        "5"
    } else if d == 6 {
        "6"
    } else if d == 7 {
        "7"
    } else if d == 8 {
        "8"
    } else {
        "9"
    };
    assert(text@ =~= seq![digit(d as int)]);
    text
}

/// Appends the decimal numeral of `n` to `out`.
fn append_decimal(out: &mut String, n: u8)
    ensures
        final(out)@ == old(out)@ + decimal(n as nat),
{
    reveal_with_fuel(decimal, 3);
    if n >= 100 {
        out.append(digit_text(n / 100));
    }
    if n >= 10 {
        out.append(digit_text((n / 10) % 10));
    }
    out.append(digit_text(n % 10));
    assert(out@ =~= old(out)@ + decimal(n as nat));
}

impl Color {
    /// The three channels as decimal numerals, red first, with a comma and
    /// a space between them.
    pub open spec fn spec_to_string(self) -> Seq<char> {
        decimal(self.r as nat) + ", "@ + decimal(self.g as nat) + ", "@ + decimal(self.b as nat)
    }

    /// The three channels as decimal numerals, each behind its name.
    pub open spec fn spec_describe(self) -> Seq<char> {
        "Color red: "@ + decimal(self.r as nat) + ", green: "@ + decimal(self.g as nat)
            + ", blue: "@ + decimal(self.b as nat)
    }

    /// Writes the color as its three channels in decimal, red first, with a
    /// comma and a space between them: `255, 127, 0`.
    pub fn to_string(&self) -> (text: String)
        ensures
            text@ == self.spec_to_string(),
    {
        let mut text = String::new();
        append_decimal(&mut text, self.r);
        text.append(", ");
        append_decimal(&mut text, self.g);
        text.append(", ");
        append_decimal(&mut text, self.b);
        assert(text@ =~= self.spec_to_string());
        text
    }

    /// Writes the color with the name of each channel before its value:
    /// `Color red: 255, green: 127, blue: 0`.
    pub fn describe(&self) -> (text: String)
        ensures
            text@ == self.spec_describe(),
    {
        let mut text = String::from_str("Color red: ");
        append_decimal(&mut text, self.r);
        text.append(", green: ");
        append_decimal(&mut text, self.g);
        text.append(", blue: ");
        append_decimal(&mut text, self.b);
        assert(text@ =~= self.spec_describe());
        text
    }
}

} // verus!
