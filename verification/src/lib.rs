//! Geometry of an indeterminate-progress spinner, computed frame by frame
//! from an integer clock.
//!
//! A [`Spinner`] has a size and a [`Style`]. [`Spinner::render`] maps the
//! clock to a [`shape::Frame`]: the box to ask the host for, the shapes to
//! fill in it, and the wish to be drawn again at once. Nothing is kept
//! between two frames, so a frame is a function of size, style and clock,
//! and it repeats with the period of the style.
//!
//! Everything is counted in whole numbers. The clock counts ticks, lengths
//! are counted in parts of the unit in which the size is given (see
//! [`units`]). An animated length is a [`sequence::Tween`]: the two values it
//! moves between, how far it has come, and the name of the easing curve. The
//! host applies the curve; whatever it reports between 0 and 1, the length
//! stays between the two values.
//!
//! The library draws nothing and reads no clock: the host hands in the
//! ticks and paints the frame.

pub mod bars;
pub mod dots;
pub mod sequence;
pub mod shape;
pub mod spinner;
pub mod squares;
pub mod units;

pub use spinner::{Spinner, Style};
