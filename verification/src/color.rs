//! Colors as fixed-point RGBA values.
//!
//! The graphics API takes color channels as fractions of one. The library
//! keeps each channel as an integer number of thousandths, so that contracts
//! can speak of exact channel values; the shell divides by the scale when it
//! hands a color to the driver.

use vstd::prelude::*;

verus! {

/// Number of fixed-point steps that stand for a channel value of one.
pub const COLOR_SCALE: u16 = 1000;

/// An RGBA color; each channel counts thousandths, from 0 to `COLOR_SCALE`.
#[derive(Clone, Copy, Debug, PartialEq, Eq, Structural)]
pub struct ColorRgba {
    pub red: u16,
    pub green: u16,
    pub blue: u16,
    pub alpha: u16,
}

impl ColorRgba {
    /// All channels within the fixed-point scale.
    pub open spec fn well_formed(self) -> bool {
        &&& self.red <= COLOR_SCALE
        &&& self.green <= COLOR_SCALE
        &&& self.blue <= COLOR_SCALE
        &&& self.alpha <= COLOR_SCALE
    }

    pub fn new(red: u16, green: u16, blue: u16, alpha: u16) -> (c: Self)
        requires
            red <= COLOR_SCALE,
            green <= COLOR_SCALE,
            blue <= COLOR_SCALE,
            alpha <= COLOR_SCALE,
        ensures
            c == (ColorRgba { red, green, blue, alpha }),
            c.well_formed(),
    {
        ColorRgba { red, green, blue, alpha }
    }

    /// The fixed background color the frame loop clears to each iteration.
    pub fn background() -> (c: Self)
        ensures
            c == (ColorRgba { red: 200, green: 300, blue: 300, alpha: 1000 }),
            c.well_formed(),
    {
        ColorRgba { red: 200, green: 300, blue: 300, alpha: 1000 }
    }
}

} // verus!
