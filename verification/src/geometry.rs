use vstd::prelude::*;

verus! {

/// A point on the screen, in hundredths of a pixel.
///
/// Layout constants of the game are decimal numbers of pixels with at most
/// two decimals, so they are exact in this unit.
#[derive(Clone, Copy, Debug, PartialEq, Eq)]
pub struct Point {
    pub x: i64,
    pub y: i64,
}

} // verus!
