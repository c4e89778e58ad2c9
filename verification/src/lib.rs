//! Colors stored as three 8-bit channels.
//!
//! A [`Color`] is built from its channels, from a packed integer or from a
//! web color name, and gives each of them back. Colors are added,
//! subtracted, multiplied and divided channel by channel, and blended by
//! the screen, difference and overlay modes. Two colors are compared by
//! their channels or by their coordinates in the HSL or the HSV model,
//! which are computed as exact fractions. A [`ColorRange`] counts the steps
//! of a scale between two colors.
//!
//! All arithmetic is on integers and is free of overflow: sums and
//! differences saturate, products are formed in a wider type.

pub mod arith;
pub mod blend;
pub mod color;
pub mod constants;
pub mod coordinates;
pub mod equivalence;
pub mod laws;
pub mod random;
pub mod range;
pub mod text;
pub mod web;
pub mod web_order;

pub use color::Color;
pub use coordinates::{Channel, Fraction};
pub use equivalence::Equivalence;
pub use range::ColorRange;
