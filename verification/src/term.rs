//! What the terminal hands over for each frame: the cursor's shape, its place
//! on the grid and its colour.
use vstd::prelude::*;

verus! {

/// The shape a cursor is drawn in.
#[derive(Debug, Clone, Copy, PartialEq, Eq, Structural)]
pub enum CursorShape {
    /// A filled cell.
    Block,
    /// A bar along the bottom of the cell.
    Underline,
    /// A vertical bar at the left of the cell.
    Beam,
    /// The outline of a cell.
    HollowBlock,
    /// Nothing.
    Hidden,
}

/// A place on the grid: a line, counted from the top, and a column, counted
/// from the left.
#[derive(Debug, Clone, Copy, PartialEq, Eq, Structural)]
pub struct Point {
    pub line: usize,
    pub column: usize,
}

/// A colour of three eight-bit channels.
#[derive(Debug, Clone, Copy, PartialEq, Eq, Structural)]
pub struct Rgb {
    pub r: u8,
    pub g: u8,
    pub b: u8,
}

impl Rgb {
    /// The three channels, red first.
    pub fn as_tuple(self) -> (t: (u8, u8, u8))
        ensures
            t == (self.r, self.g, self.b),
    {
        (self.r, self.g, self.b)
    }
}

} // verus!
