//! Narrowing of colour channels to eight bits.
//!
//! A palette works out each channel as a level on the scale from 0 to 255,
//! cut to a whole number. Rounding can push a level just past either end of
//! the scale; it is then held at that end rather than wrapped round.

use vstd::prelude::*;

verus! {

/// The level on the scale from 0 to 255 that is nearest to `level`.
pub open spec fn clamped(level: int) -> int {
    if level < 0 {
        0
    } else if level > 255 {
        255
    } else {
        level
    }
}

/// Narrows one channel: a level on the scale is kept, one below it gives 0,
/// and one above it gives 255.
pub fn channel(level: i64) -> (narrow: u8)
    ensures
        narrow == clamped(level as int),
{
    if level < 0 {
        0
    } else if level > 255 {
        255
    } else {
        level as u8
    }
}

/// Narrows the three channels of a colour, in the order red, green, blue.
pub fn color(red: i64, green: i64, blue: i64) -> (rgb: [u8; 3])
    ensures
        rgb[0] == clamped(red as int),
        rgb[1] == clamped(green as int),
        rgb[2] == clamped(blue as int),
{
    [channel(red), channel(green), channel(blue)]
}

} // verus!
