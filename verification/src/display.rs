//! The sizes that a frame is laid out with, and the cursor drawn on it.
use vstd::prelude::*;
use crate::fixed::{CELL_MAX, ONE, SPAN_MAX};

pub mod content;
pub mod cursor;
pub mod motion;

verus! {

/// The sizes of the viewport, of one cell and of the padding round the grid,
/// each in pixels.
#[derive(Debug, Clone, Copy)]
pub struct SizeInfo {
    width: i64,
    height: i64,
    cell_width: i64,
    cell_height: i64,
    padding_x: i64,
    padding_y: i64,
}

/// What a [`SizeInfo`] stands for.
pub struct SizeModel {
    pub width: int,
    pub height: int,
    pub cell_width: int,
    pub cell_height: int,
    pub padding_x: int,
    pub padding_y: int,
}

impl SizeModel {
    /// The viewport is at least one pixel wide and high, a cell is not empty,
    /// and nothing is larger than its limit.
    pub open spec fn valid(self) -> bool {
        &&& ONE <= self.width <= SPAN_MAX
        &&& ONE <= self.height <= SPAN_MAX
        &&& 0 < self.cell_width <= CELL_MAX
        &&& 0 < self.cell_height <= CELL_MAX
        &&& -SPAN_MAX <= self.padding_x <= SPAN_MAX
        &&& -SPAN_MAX <= self.padding_y <= SPAN_MAX
    }

    /// The squared length of the viewport's diagonal.
    pub open spec fn diagonal_sq(self) -> int {
        self.width * self.width + self.height * self.height
    }
}

impl View for SizeInfo {
    type V = SizeModel;

    closed spec fn view(&self) -> SizeModel {
        SizeModel {
            width: self.width as int,
            height: self.height as int,
            cell_width: self.cell_width as int,
            cell_height: self.cell_height as int,
            padding_x: self.padding_x as int,
            padding_y: self.padding_y as int,
        }
    }
}

impl SizeInfo {
    #[verifier::type_invariant]
    spec fn inv(self) -> bool {
        self@.valid()
    }

    /// The sizes with these values, if they are valid together.
    pub fn new(
        width: i64,
        height: i64,
        cell_width: i64,
        cell_height: i64,
        padding_x: i64,
        padding_y: i64,
    ) -> (r: Option<SizeInfo>)
        ensures
            r is Some <==> (SizeModel {
                width: width as int,
                height: height as int,
                cell_width: cell_width as int,
                cell_height: cell_height as int,
                padding_x: padding_x as int,
                padding_y: padding_y as int,
            }).valid(),
            r matches Some(s) ==> s@ == (SizeModel {
                width: width as int,
                height: height as int,
                cell_width: cell_width as int,
                cell_height: cell_height as int,
                padding_x: padding_x as int,
                padding_y: padding_y as int,
            }),
    {
        let viewport = ONE <= width && width <= SPAN_MAX && ONE <= height && height <= SPAN_MAX;
        let cell = 0 < cell_width && cell_width <= CELL_MAX && 0 < cell_height && cell_height
            <= CELL_MAX;
        let padding = -SPAN_MAX <= padding_x && padding_x <= SPAN_MAX && -SPAN_MAX <= padding_y
            && padding_y <= SPAN_MAX;
        if viewport && cell && padding {
            Some(SizeInfo { width, height, cell_width, cell_height, padding_x, padding_y })
        } else {
            None
        }
    }

    /// The width of the viewport.
    pub fn width(&self) -> (v: i64)
        ensures
            v == self@.width,
            self@.valid(),
    {
        proof {
            use_type_invariant(self);
        }
        self.width
    }

    /// The height of the viewport.
    pub fn height(&self) -> (v: i64)
        ensures
            v == self@.height,
            self@.valid(),
    {
        proof {
            use_type_invariant(self);
        }
        self.height
    }

    /// The width of one cell.
    pub fn cell_width(&self) -> (v: i64)
        ensures
            v == self@.cell_width,
            self@.valid(),
    {
        proof {
            use_type_invariant(self);
        }
        self.cell_width
    }

    /// The height of one cell.
    pub fn cell_height(&self) -> (v: i64)
        ensures
            v == self@.cell_height,
            self@.valid(),
    {
        proof {
            use_type_invariant(self);
        }
        self.cell_height
    }

    /// The padding left of the grid.
    pub fn padding_x(&self) -> (v: i64)
        ensures
            v == self@.padding_x,
            self@.valid(),
    {
        proof {
            use_type_invariant(self);
        }
        self.padding_x
    }

    /// The padding above the grid.
    pub fn padding_y(&self) -> (v: i64)
        ensures
            v == self@.padding_y,
            self@.valid(),
    {
        proof {
            use_type_invariant(self);
        }
        self.padding_y
    }
}

} // verus!
