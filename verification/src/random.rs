//! Colors drawn at random.

use crate::color::Color;
use rand::rngs::SmallRng;
use rand::{Rng, SeedableRng};
use vstd::prelude::*;

verus! {

/// The small, fast generator of the `rand` crate. Its state is opaque here.
#[verifier::external_type_specification]
#[verifier::external_body]
pub struct ExSmallRng(SmallRng);

/// `SmallRng::from_entropy`: a generator seeded by the operating system.
/// Nothing is claimed of the generator that comes back. The call fails only
/// where the operating system can provide no entropy.
#[verifier::external_body]
fn entropy_generator() -> SmallRng {
    SmallRng::from_entropy()
}

/// `Rng::gen` at the type `u8`: the next byte of the generator. Nothing is
/// claimed of the byte.
#[verifier::external_body]
fn next_channel(generator: &mut SmallRng) -> u8 {
    generator.gen()
}

impl Color {
    /// A color whose three channels are drawn at random from a generator
    /// that the operating system seeds. Every color can come back.
    pub fn random_color() -> Color {
        let mut generator = entropy_generator();
        let r: u8 = next_channel(&mut generator);
        let g: u8 = next_channel(&mut generator);
        let b: u8 = next_channel(&mut generator);
        Color::new(r, g, b)
    }
}

} // verus!
