//! Indicator-light colors.

use vstd::prelude::*;

verus! {

/// A color shown on the status indicator.
#[derive(Clone, Copy, PartialEq, Eq, Structural, Debug)]
pub enum Color {
    /// Booting, and also the network-error signal.
    Red,
    /// Initializing the sensor.
    Orange,
    /// Ready, and the first step of the liveness blink.
    Green,
    /// Second step of the liveness blink.
    Blue,
    /// Indicator off.
    Black,
}

/// The red/green/blue components of a color.
pub open spec fn spec_rgb(c: Color) -> (u8, u8, u8) {
    match c {
        Color::Red => (100, 0, 0),
        Color::Orange => (255, 100, 0),
        Color::Green => (0, 50, 0),
        Color::Blue => (0, 0, 50),
        Color::Black => (0, 0, 0),
    }
}

impl Color {
    /// The red/green/blue components driven onto the indicator.
    pub fn rgb(&self) -> (r: (u8, u8, u8))
        ensures
            r == spec_rgb(*self),
    {
        match self {
            Color::Red => (100, 0, 0),
            Color::Orange => (255, 100, 0),
            Color::Green => (0, 50, 0),
            Color::Blue => (0, 0, 50),
            Color::Black => (0, 0, 0),
        }
    }
}

} // verus!
