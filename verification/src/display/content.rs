//! The cursor as the terminal describes it for one frame.
use vstd::prelude::*;
use crate::display::cursor::CursorRects;
use crate::term::{CursorShape, Point, Rgb};

verus! {

/// A cursor to draw: its shape, its place on the grid, whether it stands on
/// a wide character, its colour, and the state that smooths its motion, which
/// lasts from frame to frame.
#[derive(Debug, Clone, Copy)]
pub struct RenderableCursor {
    pub shape: CursorShape,
    pub point: Point,
    pub is_wide: bool,
    pub color: Rgb,
    pub data: CursorRects,
}

impl RenderableCursor {
    /// A cursor that has not been drawn yet.
    pub fn new(shape: CursorShape, point: Point, is_wide: bool, color: Rgb) -> (cursor: Self)
        ensures
            cursor.shape == shape,
            cursor.point == point,
            cursor.is_wide == is_wide,
            cursor.color == color,
            cursor.data == CursorRects::zeroed(),
    {
        RenderableCursor { shape, point, is_wide, color, data: CursorRects::default() }
    }

    /// The cursor's shape.
    pub fn shape(&self) -> (shape: CursorShape)
        ensures
            shape == self.shape,
    {
        self.shape
    }

    /// The cursor's place on the grid.
    pub fn point(&self) -> (point: Point)
        ensures
            point == self.point,
    {
        self.point
    }

    /// Whether the cursor stands on a wide character.
    pub fn is_wide(&self) -> (is_wide: bool)
        ensures
            is_wide == self.is_wide,
    {
        self.is_wide
    }

    /// The cursor's colour.
    pub fn color(&self) -> (color: Rgb)
        ensures
            color == self.color,
    {
        self.color
    }
}

} // verus!
